//! Inbound events: what a text frame of the session socket decodes to.

use vstd::prelude::*;
use vstd::string::StringExecFns;
use crate::json::{
    json_object_of_text, optional_text_member, parse_object, text_member, JsonObject, Members,
};

verus! {

/// A message posted to a channel.
#[derive(Debug, Clone, PartialEq, Eq)]
pub struct MessageEvent {
    pub user: String,
    pub text: String,
    pub ts: String,
    pub channel: String,
    /// Set on system-generated messages such as edits.
    pub subtype: Option<String>,
}

pub struct MessageEventView {
    pub user: Seq<char>,
    pub text: Seq<char>,
    pub ts: Seq<char>,
    pub channel: Seq<char>,
    pub subtype: Option<Seq<char>>,
}

impl View for MessageEvent {
    type V = MessageEventView;

    open spec fn view(&self) -> MessageEventView {
        MessageEventView {
            user: self.user@,
            text: self.text@,
            ts: self.ts@,
            channel: self.channel@,
            subtype: match self.subtype {
                Some(s) => Some(s@),
                None => None,
            },
        }
    }
}

/// An event of the session socket.
#[derive(Debug, Clone, PartialEq, Eq)]
pub enum Event {
    /// The session is live.
    Hello,
    Message { data: MessageEvent },
}

pub enum EventView {
    Hello,
    Message { data: MessageEventView },
}

impl View for Event {
    type V = EventView;

    open spec fn view(&self) -> EventView {
        match self {
            Event::Hello => EventView::Hello,
            Event::Message { data } => EventView::Message { data: data@ },
        }
    }
}

/// Why a frame decodes to no event.
#[derive(Debug, Clone, Copy, PartialEq, Eq)]
pub enum DecodeFailure {
    /// The text is not one JSON object.
    NotAnObject,
    /// There is no `type` member, or it is not a string.
    MissingTag,
    /// The `type` member names no event this client knows.
    UnknownTag,
    /// A member the event needs is absent or of the wrong kind.
    MissingField,
}

/// The view of a decoding result.
pub open spec fn decoded_view(result: Result<Event, DecodeFailure>) -> Result<EventView, DecodeFailure> {
    match result {
        Ok(event) => Ok(event@),
        Err(failure) => Err(failure),
    }
}

/// The message an object describes: `user`, `text`, `ts` and `channel` must
/// be strings; `subtype` may be absent, `null` or a string.
pub open spec fn message_of_members(members: Members) -> Option<MessageEventView> {
    match (
        text_member(members, "user"@),
        text_member(members, "text"@),
        text_member(members, "ts"@),
        text_member(members, "channel"@),
        optional_text_member(members, "subtype"@),
    ) {
        (Some(user), Some(text), Some(ts), Some(channel), Some(subtype)) => Some(
            MessageEventView { user, text, ts, channel, subtype },
        ),
        _ => None,
    }
}

/// The event an object describes, by its `type` member.
pub open spec fn event_of_members(members: Members) -> Result<EventView, DecodeFailure> {
    match text_member(members, "type"@) {
        None => Err(DecodeFailure::MissingTag),
        Some(tag) => if tag == "hello"@ {
            Ok(EventView::Hello)
        } else if tag == "message"@ {
            match message_of_members(members) {
                Some(data) => Ok(EventView::Message { data }),
                None => Err(DecodeFailure::MissingField),
            }
        } else {
            Err(DecodeFailure::UnknownTag)
        },
    }
}

/// The event a text frame describes.
pub open spec fn event_of_text(text: Seq<char>) -> Result<EventView, DecodeFailure> {
    match json_object_of_text(text) {
        Some(members) => event_of_members(members),
        None => Err(DecodeFailure::NotAnObject),
    }
}

impl MessageEvent {
    /// Reads a message out of a JSON object.
    pub fn from_object(object: &JsonObject) -> (message: Option<MessageEvent>)
        ensures
            match message {
                Some(m) => message_of_members(object@) == Some(m@),
                None => message_of_members(object@) is None,
            },
    {
        let user = object.get_text("user");
        let text = object.get_text("text");
        let ts = object.get_text("ts");
        let channel = object.get_text("channel");
        let subtype = object.get_optional_text("subtype");
        match (user, text, ts, channel, subtype) {
            (Some(user), Some(text), Some(ts), Some(channel), Ok(subtype)) => Some(
                MessageEvent { user, text, ts, channel, subtype },
            ),
            _ => None,
        }
    }
}

impl Event {
    /// Decodes the event a JSON object describes.
    pub fn from_object(object: &JsonObject) -> (decoded: Result<Event, DecodeFailure>)
        ensures
            decoded_view(decoded) == event_of_members(object@),
    {
        match object.get_text("type") {
            None => Err(DecodeFailure::MissingTag),
            Some(tag) => {
                if tag == String::from_str("hello") {
                    Ok(Event::Hello)
                } else if tag == String::from_str("message") {
                    match MessageEvent::from_object(object) {
                        Some(data) => Ok(Event::Message { data }),
                        None => Err(DecodeFailure::MissingField),
                    }
                } else {
                    Err(DecodeFailure::UnknownTag)
                }
            },
        }
    }

    /// Decodes a text frame.
    pub fn decode(text: &str) -> (decoded: Result<Event, DecodeFailure>)
        ensures
            decoded_view(decoded) == event_of_text(text@),
    {
        match parse_object(text) {
            Some(object) => Event::from_object(&object),
            None => Err(DecodeFailure::NotAnObject),
        }
    }
}

/// Decoding is a function of the frame: two decodings of one text frame agree
/// in every field.
pub proof fn lemma_decode_is_repeatable(
    text: Seq<char>,
    first: Result<Event, DecodeFailure>,
    second: Result<Event, DecodeFailure>,
)
    requires
        decoded_view(first) == event_of_text(text),
        decoded_view(second) == event_of_text(text),
    ensures
        decoded_view(first) == decoded_view(second),
        first matches Ok(Event::Message { data: a }) ==> second matches Ok(Event::Message { data: b })
            && a@ == b@,
{
}

/// An object without a string `type`, or with one that names no known event,
/// decodes to a failure, and what it decodes to does not depend on any other
/// frame.
pub proof fn lemma_unrecognised_frames_fail(members: Members)
    ensures
        text_member(members, "type"@) is None ==> event_of_members(members) == Err::<
            EventView,
            DecodeFailure,
        >(DecodeFailure::MissingTag),
        (text_member(members, "type"@) matches Some(tag) && tag != "hello"@ && tag != "message"@)
            ==> event_of_members(members) == Err::<EventView, DecodeFailure>(
            DecodeFailure::UnknownTag,
        ),
{
}

} // verus!
