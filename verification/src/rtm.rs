//! The handshake: one `rtm.connect` call that trades the token for a one-time
//! socket URL and the identities of the account and its workspace.
//!
//! The HTTP round trip itself is the caller's: this module says which URL to
//! fetch and what the reply means.

use vstd::prelude::*;
use vstd::string::StringExecFns;
use crate::json::{
    bool_member, json_object_of_text, object_member, parse_object, text_member, JsonObject, Members,
};
use crate::types::{
    account_of_leaves, team_of_leaves, ConnectionAccountInfo, ConnectionAccountInfoView, TeamInfo,
    TeamInfoView,
};

verus! {

/// A session that the platform granted.
#[derive(Debug, Clone, PartialEq, Eq)]
pub struct ConnectResponse {
    pub ok: bool,
    /// The socket URL. It is good for one connection attempt.
    pub url: String,
    pub team: TeamInfo,
    pub self_: ConnectionAccountInfo,
}

pub struct ConnectResponseView {
    pub ok: bool,
    pub url: Seq<char>,
    pub team: TeamInfoView,
    pub self_: ConnectionAccountInfoView,
}

impl View for ConnectResponse {
    type V = ConnectResponseView;

    open spec fn view(&self) -> ConnectResponseView {
        ConnectResponseView { ok: self.ok, url: self.url@, team: self.team@, self_: self.self_@ }
    }
}

/// The two well-formed replies to `rtm.connect`.
#[derive(Debug, Clone, PartialEq, Eq)]
pub enum ConnectResponseResult {
    /// The success shape: `ok`, `url`, `team` and `self`.
    Granted { ok: bool, url: String, team: TeamInfo, self_: ConnectionAccountInfo },
    /// The failure shape: `ok` and `error`.
    Refused { ok: bool, error: String },
}

pub enum ConnectResponseResultView {
    Granted { ok: bool, url: Seq<char>, team: TeamInfoView, self_: ConnectionAccountInfoView },
    Refused { ok: bool, error: Seq<char> },
}

impl View for ConnectResponseResult {
    type V = ConnectResponseResultView;

    open spec fn view(&self) -> ConnectResponseResultView {
        match self {
            ConnectResponseResult::Granted { ok, url, team, self_ } => ConnectResponseResultView::Granted {
                ok: *ok,
                url: url@,
                team: team@,
                self_: self_@,
            },
            ConnectResponseResult::Refused { ok, error } => ConnectResponseResultView::Refused {
                ok: *ok,
                error: error@,
            },
        }
    }
}

/// Why no session came of the handshake.
#[derive(Debug, Clone, PartialEq, Eq)]
pub enum HandshakeError {
    /// The platform refused, with its own error string.
    HandshakeFailure(String),
    /// No well-formed reply arrived; the text says what went wrong.
    TransportFailure(String),
}

pub enum HandshakeErrorView {
    HandshakeFailure(Seq<char>),
    TransportFailure(Seq<char>),
}

impl View for HandshakeError {
    type V = HandshakeErrorView;

    open spec fn view(&self) -> HandshakeErrorView {
        match self {
            HandshakeError::HandshakeFailure(error) => HandshakeErrorView::HandshakeFailure(error@),
            HandshakeError::TransportFailure(cause) => HandshakeErrorView::TransportFailure(cause@),
        }
    }
}

/// The view of a handshake's outcome.
pub open spec fn handshake_view(outcome: Result<ConnectResponse, HandshakeError>) -> Result<
    ConnectResponseView,
    HandshakeErrorView,
> {
    match outcome {
        Ok(session) => Ok(session@),
        Err(error) => Err(error@),
    }
}

/// The view of a decoded reply.
pub open spec fn reply_view(reply: Option<ConnectResponseResult>) -> Option<ConnectResponseResultView> {
    match reply {
        Some(r) => Some(r@),
        None => None,
    }
}

/// The reply an object spells. `ok` decides: with `true` the object must
/// carry `url`, `team` and `self`; with `false` it must carry `error`.
pub open spec fn reply_of_members(members: Members) -> Option<ConnectResponseResultView> {
    match bool_member(members, "ok"@) {
        Some(true) => match (
            text_member(members, "url"@),
            object_member(members, "team"@),
            object_member(members, "self"@),
        ) {
            (Some(url), Some(team_members), Some(self_members)) => match (
                team_of_leaves(team_members),
                account_of_leaves(self_members),
            ) {
                (Some(team), Some(self_)) => Some(
                    ConnectResponseResultView::Granted { ok: true, url, team, self_ },
                ),
                _ => None,
            },
            _ => None,
        },
        Some(false) => match text_member(members, "error"@) {
            Some(error) => Some(ConnectResponseResultView::Refused { ok: false, error }),
            None => None,
        },
        None => None,
    }
}

/// The reply a response body spells.
pub open spec fn reply_of_text(body: Seq<char>) -> Option<ConnectResponseResultView> {
    match json_object_of_text(body) {
        Some(members) => reply_of_members(members),
        None => None,
    }
}

/// What is reported where the body is not a well-formed reply.
pub open spec fn malformed_reply() -> Seq<char> {
    "malformed rtm.connect response"@
}

/// What a decoded reply means for the caller.
pub open spec fn outcome_of_reply(reply: Option<ConnectResponseResultView>) -> Result<
    ConnectResponseView,
    HandshakeErrorView,
> {
    match reply {
        Some(ConnectResponseResultView::Granted { ok, url, team, self_ }) => Ok(
            ConnectResponseView { ok, url, team, self_ },
        ),
        Some(ConnectResponseResultView::Refused { ok, error }) => Err(
            HandshakeErrorView::HandshakeFailure(error),
        ),
        None => Err(HandshakeErrorView::TransportFailure(malformed_reply())),
    }
}

/// What the round trip means for the caller: a transport error stays one,
/// a body is judged by the reply it spells.
pub open spec fn outcome_of_exchange(exchange: Result<Seq<char>, Seq<char>>) -> Result<
    ConnectResponseView,
    HandshakeErrorView,
> {
    match exchange {
        Ok(body) => outcome_of_reply(reply_of_text(body)),
        Err(cause) => Err(HandshakeErrorView::TransportFailure(cause)),
    }
}

/// The view of a round trip: the body that came back, or what went wrong.
pub open spec fn exchange_view(exchange: Result<String, String>) -> Result<Seq<char>, Seq<char>> {
    match exchange {
        Ok(body) => Ok(body@),
        Err(cause) => Err(cause@),
    }
}

/// The URL of the handshake for `token`.
pub fn connect_url(token: &str) -> (url: String)
    ensures
        url@ == "https://slack.com/api/rtm.connect?token="@ + token@,
{
    String::from_str("https://slack.com/api/rtm.connect?token=").concat(token)
}

impl ConnectResponseResult {
    /// Reads a reply out of a JSON object.
    pub fn from_object(object: &JsonObject) -> (reply: Option<ConnectResponseResult>)
        ensures
            reply_view(reply) == reply_of_members(object@),
    {
        match object.get_bool("ok") {
            Some(true) => {
                let url = object.get_text("url");
                let team_members = object.get_object("team");
                let self_members = object.get_object("self");
                match (url, team_members, self_members) {
                    (Some(url), Some(team_members), Some(self_members)) => {
                        let team = TeamInfo::from_object(team_members);
                        let self_ = ConnectionAccountInfo::from_object(self_members);
                        match (team, self_) {
                            (Some(team), Some(self_)) => Some(
                                ConnectResponseResult::Granted { ok: true, url, team, self_ },
                            ),
                            _ => None,
                        }
                    },
                    _ => None,
                }
            },
            Some(false) => match object.get_text("error") {
                Some(error) => Some(ConnectResponseResult::Refused { ok: false, error }),
                None => None,
            },
            None => None,
        }
    }

    /// Reads a reply out of a response body.
    pub fn decode(body: &str) -> (reply: Option<ConnectResponseResult>)
        ensures
            reply_view(reply) == reply_of_text(body@),
    {
        match parse_object(body) {
            Some(object) => ConnectResponseResult::from_object(&object),
            None => None,
        }
    }

    /// What a decoded reply means: a session, or the platform's refusal.
    /// No reply at all is a transport failure.
    pub fn into_outcome(reply: Option<ConnectResponseResult>) -> (outcome: Result<
        ConnectResponse,
        HandshakeError,
    >)
        ensures
            handshake_view(outcome) == outcome_of_reply(reply_view(reply)),
    {
        match reply {
            Some(ConnectResponseResult::Granted { ok, url, team, self_ }) => Ok(
                ConnectResponse { ok, url, team, self_ },
            ),
            Some(ConnectResponseResult::Refused { ok: _, error }) => Err(
                HandshakeError::HandshakeFailure(error),
            ),
            None => Err(
                HandshakeError::TransportFailure(String::from_str("malformed rtm.connect response")),
            ),
        }
    }
}

/// Judges the round trip of the handshake: `exchange` is the body of the
/// reply to a GET of `connect_url`, or what kept it from arriving.
pub fn connect(exchange: Result<String, String>) -> (outcome: Result<ConnectResponse, HandshakeError>)
    ensures
        handshake_view(outcome) == outcome_of_exchange(exchange_view(exchange)),
{
    match exchange {
        Ok(body) => ConnectResponseResult::into_outcome(ConnectResponseResult::decode(body.as_str())),
        Err(cause) => Err(HandshakeError::TransportFailure(cause)),
    }
}

/// A failure envelope, `ok: false` with an error string, always comes out as
/// a handshake failure that carries exactly that string, never as a transport
/// failure.
pub proof fn lemma_failure_envelope_is_handshake_failure(members: Members, error: Seq<char>)
    requires
        bool_member(members, "ok"@) == Some(false),
        text_member(members, "error"@) == Some(error),
    ensures
        outcome_of_reply(reply_of_members(members)) == Err::<ConnectResponseView, HandshakeErrorView>(
            HandshakeErrorView::HandshakeFailure(error),
        ),
{
}

/// A body that spells a failure envelope gives a handshake failure with the
/// platform's error string, whatever else the body holds.
pub proof fn lemma_failure_body_is_handshake_failure(
    body: Seq<char>,
    members: Members,
    error: Seq<char>,
)
    requires
        json_object_of_text(body) == Some(members),
        bool_member(members, "ok"@) == Some(false),
        text_member(members, "error"@) == Some(error),
    ensures
        outcome_of_exchange(Ok(body)) == Err::<ConnectResponseView, HandshakeErrorView>(
            HandshakeErrorView::HandshakeFailure(error),
        ),
{
}

} // verus!
