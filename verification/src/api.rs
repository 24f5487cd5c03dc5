//! Outbound Web API calls: a payload knows its endpoint and its JSON body;
//! a call is the two together, ready to be queued and posted.

use vstd::prelude::*;
use vstd::string::{StrSliceExecFns, StringExecFns};

verus! {

/// A pending Web API call: where to post, and the serialized payload.
#[derive(Debug, Clone, PartialEq, Eq)]
pub struct SlackWebApiCall {
    pub endpoint: &'static str,
    pub paramdata: String,
}

pub struct SlackWebApiCallView {
    pub endpoint: Seq<char>,
    pub paramdata: Seq<char>,
}

impl View for SlackWebApiCall {
    type V = SlackWebApiCallView;

    open spec fn view(&self) -> SlackWebApiCallView {
        SlackWebApiCallView { endpoint: self.endpoint@, paramdata: self.paramdata@ }
    }
}

/// An HTTP POST, described by what goes on the wire.
#[derive(Debug, Clone, PartialEq, Eq)]
pub struct PostRequest {
    pub url: String,
    /// The value of the `Content-Type` header.
    pub content_type: String,
    /// The value of the `Authorization` header.
    pub authorization: String,
    pub body: String,
}

pub struct PostRequestView {
    pub url: Seq<char>,
    pub content_type: Seq<char>,
    pub authorization: Seq<char>,
    pub body: Seq<char>,
}

impl View for PostRequest {
    type V = PostRequestView;

    open spec fn view(&self) -> PostRequestView {
        PostRequestView {
            url: self.url@,
            content_type: self.content_type@,
            authorization: self.authorization@,
            body: self.body@,
        }
    }
}

/// The POST that delivers a call for the holder of `tok`: JSON content, the
/// token as bearer credential, the payload as body.
pub open spec fn post_request_of(call: SlackWebApiCallView, tok: Seq<char>) -> PostRequestView {
    PostRequestView {
        url: call.endpoint,
        content_type: "application/json"@,
        authorization: "Bearer "@ + tok,
        body: call.paramdata,
    }
}

/// Whether `c` may stand in the value of an HTTP header: a tab, or anything
/// from the space on but the delete character.
pub open spec fn is_header_char(c: char) -> bool {
    c == '\t' || (c >= ' ' && c != '\u{7f}')
}

/// Whether `text` may stand in the value of an HTTP header.
pub open spec fn is_header_text(text: Seq<char>) -> bool {
    forall|i: int| 0 <= i < text.len() ==> is_header_char(#[trigger] text[i])
}

/// Tests whether `text` may stand in the value of an HTTP header.
pub fn check_header_text(text: &str) -> (ok: bool)
    ensures
        ok == is_header_text(text@),
{
    let n = text.unicode_len();
    let mut i: usize = 0;
    while i < n
        invariant
            n == text@.len(),
            i <= n,
            forall|j: int| 0 <= j < i ==> is_header_char(#[trigger] text@[j]),
        decreases n - i,
    {
        let c = text.get_char(i);
        if !(c == '\t' || (c >= ' ' && c != '\u{7f}')) {
            return false;
        }
        i += 1;
    }
    true
}

impl SlackWebApiCall {
    /// The POST that delivers this call for the holder of `tok`. The token
    /// goes into a header, so it must be header text.
    pub fn to_post_request(&self, tok: &str) -> (request: PostRequest)
        requires
            is_header_text(tok@),
        ensures
            request@ == post_request_of(self@, tok@),
    {
        PostRequest {
            url: String::from_str(self.endpoint),
            content_type: String::from_str("application/json"),
            authorization: String::from_str("Bearer ").concat(tok),
            body: self.paramdata.clone(),
        }
    }

    /// The POST that delivers this call for the holder of `tok`, or `None`
    /// where `tok` is no header text.
    pub fn try_post_request(&self, tok: &str) -> (request: Option<PostRequest>)
        ensures
            match request {
                Some(r) => is_header_text(tok@) && r@ == post_request_of(self@, tok@),
                None => !is_header_text(tok@),
            },
    {
        if check_header_text(tok) {
            Some(self.to_post_request(tok))
        } else {
            None
        }
    }
}

/// A request shape of the Web API: it has a fixed endpoint and a JSON body.
pub trait SlackWebAPI {
    /// The URL this shape is posted to.
    spec fn endpoint_text(&self) -> Seq<char>;

    /// The JSON text of this payload.
    spec fn body_text(&self) -> Seq<char>;

    /// The URL this shape is posted to.
    fn endpoint(&self) -> (endpoint: &'static str)
        ensures
            endpoint@ == self.endpoint_text(),
    ;

    /// The JSON text of this payload.
    fn body(&self) -> (body: String)
        ensures
            body@ == self.body_text(),
    ;

    /// The call that carries this payload.
    fn to_apicall(&self) -> (call: SlackWebApiCall)
        ensures
            call@ == (SlackWebApiCallView {
                endpoint: self.endpoint_text(),
                paramdata: self.body_text(),
            }),
    {
        SlackWebApiCall { endpoint: self.endpoint(), paramdata: self.body() }
    }

    /// The POST that delivers this payload for the holder of `tok`. The
    /// token goes into a header, so it must be header text.
    fn to_post_request(&self, tok: &str) -> (request: PostRequest)
        requires
            is_header_text(tok@),
        ensures
            request@ == post_request_of(
                SlackWebApiCallView { endpoint: self.endpoint_text(), paramdata: self.body_text() },
                tok@,
            ),
    {
        self.to_apicall().to_post_request(tok)
    }
}

} // verus!
