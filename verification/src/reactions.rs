//! `reactions.add`: put an emoji on a message.

use vstd::prelude::*;
use vstd::string::StringExecFns;
use crate::api::SlackWebAPI;
use crate::json::{json_string_text, push_text};

verus! {

/// The payload of `reactions.add`.
#[derive(Debug, Clone)]
pub struct AddRequestParams<'s> {
    pub name: &'s str,
    pub channel: &'s str,
    pub timestamp: &'s str,
}

pub struct AddRequestParamsView {
    pub name: Seq<char>,
    pub channel: Seq<char>,
    pub timestamp: Seq<char>,
}

impl<'s> View for AddRequestParams<'s> {
    type V = AddRequestParamsView;

    open spec fn view(&self) -> AddRequestParamsView {
        AddRequestParamsView { name: self.name@, channel: self.channel@, timestamp: self.timestamp@ }
    }
}

/// The JSON text of a `reactions.add` payload: its three members in order.
pub open spec fn add_request_text(params: AddRequestParamsView) -> Seq<char> {
    "{\"name\":"@ + json_string_text(params.name) + ",\"channel\":"@ + json_string_text(
        params.channel,
    ) + ",\"timestamp\":"@ + json_string_text(params.timestamp) + "}"@
}

impl<'s> SlackWebAPI for AddRequestParams<'s> {
    open spec fn endpoint_text(&self) -> Seq<char> {
        "https://slack.com/api/reactions.add"@
    }

    open spec fn body_text(&self) -> Seq<char> {
        add_request_text(self@)
    }

    fn endpoint(&self) -> (endpoint: &'static str) {
        "https://slack.com/api/reactions.add"
    }

    fn body(&self) -> (body: String) {
        let mut out = String::from_str("{\"name\":");
        push_text(&mut out, self.name);
        out.append(",\"channel\":");
        push_text(&mut out, self.channel);
        out.append(",\"timestamp\":");
        push_text(&mut out, self.timestamp);
        out.append("}");
        out
    }
}

} // verus!
