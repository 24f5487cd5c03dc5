//! `chat.postMessage`: post a message to a channel.

use vstd::prelude::*;
use vstd::string::StringExecFns;
use crate::api::SlackWebAPI;
use crate::json::{
    json_string_text, lemma_plain_text_is_quoted_as_it_is, needs_escape, optional_bool_literal,
    optional_str_view, optional_text_literal, push_optional_bool, push_optional_text, push_text,
};

verus! {

/// An attachment of a posted message.
#[derive(Debug, Clone)]
pub struct Attachment<'s> {
    pub color: Option<&'s str>,
    pub text: Option<&'s str>,
}

pub struct AttachmentView {
    pub color: Option<Seq<char>>,
    pub text: Option<Seq<char>>,
}

impl<'s> View for Attachment<'s> {
    type V = AttachmentView;

    open spec fn view(&self) -> AttachmentView {
        AttachmentView { color: optional_str_view(self.color), text: optional_str_view(self.text) }
    }
}

impl<'s> Default for Attachment<'s> {
    /// An attachment with nothing set.
    fn default() -> (attachment: Self)
        ensures
            attachment@ == (AttachmentView { color: None, text: None }),
    {
        Attachment { color: None, text: None }
    }
}

/// The payload of `chat.postMessage`.
#[derive(Debug, Clone)]
pub struct PostMessageParams<'s> {
    pub channel: &'s str,
    pub text: &'s str,
    pub as_user: Option<bool>,
    pub icon_emoji: Option<&'s str>,
    pub icon_url: Option<&'s str>,
    pub username: Option<&'s str>,
    pub attachments: Vec<Attachment<'s>>,
}

pub struct PostMessageParamsView {
    pub channel: Seq<char>,
    pub text: Seq<char>,
    pub as_user: Option<bool>,
    pub icon_emoji: Option<Seq<char>>,
    pub icon_url: Option<Seq<char>>,
    pub username: Option<Seq<char>>,
    pub attachments: Seq<AttachmentView>,
}

impl<'s> View for PostMessageParams<'s> {
    type V = PostMessageParamsView;

    open spec fn view(&self) -> PostMessageParamsView {
        PostMessageParamsView {
            channel: self.channel@,
            text: self.text@,
            as_user: self.as_user,
            icon_emoji: optional_str_view(self.icon_emoji),
            icon_url: optional_str_view(self.icon_url),
            username: optional_str_view(self.username),
            attachments: Seq::new(self.attachments@.len(), |i: int| self.attachments@[i]@),
        }
    }
}

impl<'s> Default for PostMessageParams<'s> {
    /// An empty message to no channel: every option unset, no attachment.
    fn default() -> (params: Self)
        ensures
            params@ == (PostMessageParamsView {
                channel: ""@,
                text: ""@,
                as_user: None,
                icon_emoji: None,
                icon_url: None,
                username: None,
                attachments: Seq::empty(),
            }),
    {
        let params = PostMessageParams {
            channel: "",
            text: "",
            as_user: None,
            icon_emoji: None,
            icon_url: None,
            username: None,
            attachments: Vec::new(),
        };
        assert(params@.attachments =~= Seq::empty());
        params
    }
}

/// The JSON text of one attachment: `color`, then `text`, `null` where unset.
pub open spec fn attachment_text(attachment: AttachmentView) -> Seq<char> {
    "{\"color\":"@ + optional_text_literal(attachment.color) + ",\"text\":"@ + optional_text_literal(
        attachment.text,
    ) + "}"@
}

/// The JSON texts of the first `n` attachments, separated by commas.
pub open spec fn attachments_text(attachments: Seq<AttachmentView>, n: int) -> Seq<char>
    decreases n,
{
    if n <= 0 {
        Seq::empty()
    } else if n == 1 {
        attachment_text(attachments[0])
    } else {
        attachments_text(attachments, n - 1) + ","@ + attachment_text(attachments[n - 1])
    }
}

/// The JSON text of a `chat.postMessage` payload: every member in order,
/// `null` for an option that is unset, the attachments as an array.
pub open spec fn post_message_text(params: PostMessageParamsView) -> Seq<char> {
    "{\"channel\":"@ + json_string_text(params.channel) + ",\"text\":"@ + json_string_text(
        params.text,
    ) + ",\"as_user\":"@ + optional_bool_literal(params.as_user) + ",\"icon_emoji\":"@
        + optional_text_literal(params.icon_emoji) + ",\"icon_url\":"@ + optional_text_literal(
        params.icon_url,
    ) + ",\"username\":"@ + optional_text_literal(params.username) + ",\"attachments\":["@
        + attachments_text(params.attachments, params.attachments.len() as int) + "]}"@
}

impl<'s> Attachment<'s> {
    /// The JSON text of this attachment.
    pub fn to_json(&self) -> (text: String)
        ensures
            text@ == attachment_text(self@),
    {
        let mut out = String::from_str("{\"color\":");
        push_optional_text(&mut out, self.color);
        out.append(",\"text\":");
        push_optional_text(&mut out, self.text);
        out.append("}");
        out
    }
}

/// The JSON texts of `attachments`, separated by commas.
pub fn attachments_to_json<'s>(attachments: &Vec<Attachment<'s>>) -> (text: String)
    ensures
        text@ == attachments_text(
            Seq::new(attachments@.len(), |i: int| attachments@[i]@),
            attachments@.len() as int,
        ),
{
    let ghost views = Seq::new(attachments@.len(), |i: int| attachments@[i]@);
    let mut out = String::new();
    let mut i: usize = 0;
    while i < attachments.len()
        invariant
            i <= attachments.len(),
            views == Seq::new(attachments@.len(), |i: int| attachments@[i]@),
            out@ == attachments_text(views, i as int),
        decreases attachments.len() - i,
    {
        let item = attachments[i].to_json();
        if i > 0 {
            out.append(",");
            out.append(item.as_str());
        } else {
            out.append(item.as_str());
            assert(out@ =~= attachment_text(views[0]));
        }
        i += 1;
    }
    out
}

impl<'s> SlackWebAPI for PostMessageParams<'s> {
    open spec fn endpoint_text(&self) -> Seq<char> {
        "https://slack.com/api/chat.postMessage"@
    }

    open spec fn body_text(&self) -> Seq<char> {
        post_message_text(self@)
    }

    fn endpoint(&self) -> (endpoint: &'static str) {
        "https://slack.com/api/chat.postMessage"
    }

    fn body(&self) -> (body: String) {
        let mut out = String::from_str("{\"channel\":");
        push_text(&mut out, self.channel);
        out.append(",\"text\":");
        push_text(&mut out, self.text);
        out.append(",\"as_user\":");
        push_optional_bool(&mut out, self.as_user);
        out.append(",\"icon_emoji\":");
        push_optional_text(&mut out, self.icon_emoji);
        out.append(",\"icon_url\":");
        push_optional_text(&mut out, self.icon_url);
        out.append(",\"username\":");
        push_optional_text(&mut out, self.username);
        out.append(",\"attachments\":[");
        let items = attachments_to_json(&self.attachments);
        out.append(items.as_str());
        out.append("]}");
        out
    }
}

/// A message with only its channel and text set.
pub open spec fn plain_message(channel: Seq<char>, text: Seq<char>) -> PostMessageParamsView {
    PostMessageParamsView {
        channel,
        text,
        as_user: None,
        icon_emoji: None,
        icon_url: None,
        username: None,
        attachments: Seq::empty(),
    }
}

/// Where channel and text hold nothing that a string literal escapes, the
/// body of a message with only these two set is the two between quotes, then
/// `null` for every option and an empty list of attachments.
pub proof fn lemma_plain_message_body(channel: Seq<char>, text: Seq<char>)
    requires
        forall|i: int| 0 <= i < channel.len() ==> !needs_escape(#[trigger] channel[i]),
        forall|i: int| 0 <= i < text.len() ==> !needs_escape(#[trigger] text[i]),
    ensures
        post_message_text(plain_message(channel, text)) == "{\"channel\":\""@ + channel
            + "\",\"text\":\""@ + text
            + "\",\"as_user\":null,\"icon_emoji\":null,\"icon_url\":null,\"username\":null,\"attachments\":[]}"@,
{
    lemma_plain_text_is_quoted_as_it_is(channel);
    lemma_plain_text_is_quoted_as_it_is(text);
    reveal_strlit("{\"channel\":");
    reveal_strlit(",\"text\":");
    reveal_strlit(",\"as_user\":");
    reveal_strlit(",\"icon_emoji\":");
    reveal_strlit(",\"icon_url\":");
    reveal_strlit(",\"username\":");
    reveal_strlit(",\"attachments\":[");
    reveal_strlit("]}");
    reveal_strlit("null");
    reveal_strlit("{\"channel\":\"");
    reveal_strlit("\",\"text\":\"");
    reveal_strlit(
        "\",\"as_user\":null,\"icon_emoji\":null,\"icon_url\":null,\"username\":null,\"attachments\":[]}",
    );
    let quote = seq!['"'];
    let tail = ",\"as_user\":"@ + "null"@ + ",\"icon_emoji\":"@ + "null"@ + ",\"icon_url\":"@ + "null"@
        + ",\"username\":"@ + "null"@ + ",\"attachments\":["@ + Seq::<char>::empty() + "]}"@;
    assert("{\"channel\":"@ + quote =~= "{\"channel\":\""@);
    assert(quote + ",\"text\":"@ + quote =~= "\",\"text\":\""@);
    assert(quote + tail
        =~= "\",\"as_user\":null,\"icon_emoji\":null,\"icon_url\":null,\"username\":null,\"attachments\":[]}"@);
    assert(post_message_text(plain_message(channel, text)) =~= "{\"channel\":"@ + (quote + channel
        + quote) + ",\"text\":"@ + (quote + text + quote) + tail);
    assert("{\"channel\":"@ + (quote + channel + quote) + ",\"text\":"@ + (quote + text + quote) + tail
        =~= ("{\"channel\":"@ + quote) + channel + (quote + ",\"text\":"@ + quote) + text + (quote
        + tail));
}

} // verus!
