//! `conversations.history`: list the messages of a channel.

use vstd::prelude::*;
use vstd::string::StringExecFns;
use crate::api::SlackWebAPI;
use crate::json::{
    bool_literal, decimal_text, json_string_text, optional_str_view, optional_text_literal,
    push_bool, push_decimal, push_optional_text, push_text,
};

verus! {

/// The payload of `conversations.history`.
#[derive(Debug, Clone)]
pub struct HistoryParams<'s> {
    pub channel: &'s str,
    pub limit: usize,
    pub inclusive: bool,
    pub latest: Option<&'s str>,
    pub oldest: Option<&'s str>,
    pub unreads: bool,
}

pub struct HistoryParamsView {
    pub channel: Seq<char>,
    pub limit: nat,
    pub inclusive: bool,
    pub latest: Option<Seq<char>>,
    pub oldest: Option<Seq<char>>,
    pub unreads: bool,
}

impl<'s> View for HistoryParams<'s> {
    type V = HistoryParamsView;

    open spec fn view(&self) -> HistoryParamsView {
        HistoryParamsView {
            channel: self.channel@,
            limit: self.limit as nat,
            inclusive: self.inclusive,
            latest: optional_str_view(self.latest),
            oldest: optional_str_view(self.oldest),
            unreads: self.unreads,
        }
    }
}

impl<'s> Default for HistoryParams<'s> {
    /// A request for no channel: pages of 100, bounds exclusive and unset,
    /// unread counts off.
    fn default() -> (params: Self)
        ensures
            params@ == (HistoryParamsView {
                channel: ""@,
                limit: 100,
                inclusive: false,
                latest: None,
                oldest: None,
                unreads: false,
            }),
    {
        HistoryParams {
            channel: "",
            limit: 100,
            inclusive: false,
            latest: None,
            oldest: None,
            unreads: false,
        }
    }
}

/// The JSON text of a `conversations.history` payload: every member in
/// order, `null` for a bound that is unset.
pub open spec fn history_text(params: HistoryParamsView) -> Seq<char> {
    "{\"channel\":"@ + json_string_text(params.channel) + ",\"limit\":"@ + decimal_text(params.limit)
        + ",\"inclusive\":"@ + bool_literal(params.inclusive) + ",\"latest\":"@
        + optional_text_literal(params.latest) + ",\"oldest\":"@ + optional_text_literal(
        params.oldest,
    ) + ",\"unreads\":"@ + bool_literal(params.unreads) + "}"@
}

impl<'s> SlackWebAPI for HistoryParams<'s> {
    open spec fn endpoint_text(&self) -> Seq<char> {
        "https://slack.com/api/conversations.history"@
    }

    open spec fn body_text(&self) -> Seq<char> {
        history_text(self@)
    }

    fn endpoint(&self) -> (endpoint: &'static str) {
        "https://slack.com/api/conversations.history"
    }

    fn body(&self) -> (body: String) {
        let mut out = String::from_str("{\"channel\":");
        push_text(&mut out, self.channel);
        out.append(",\"limit\":");
        push_decimal(&mut out, self.limit as u64);
        out.append(",\"inclusive\":");
        push_bool(&mut out, self.inclusive);
        out.append(",\"latest\":");
        push_optional_text(&mut out, self.latest);
        out.append(",\"oldest\":");
        push_optional_text(&mut out, self.oldest);
        out.append(",\"unreads\":");
        push_bool(&mut out, self.unreads);
        out.append("}");
        out
    }
}

} // verus!
