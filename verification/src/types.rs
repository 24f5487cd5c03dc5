//! Who the session belongs to: the workspace and the account the bot runs as.

use vstd::prelude::*;
use crate::json::{leaf_text, JsonLeaves, Leaves};

verus! {

/// The workspace a session is attached to.
#[derive(Debug, Clone, PartialEq, Eq)]
pub struct TeamInfo {
    pub id: String,
    pub name: String,
    pub domain: String,
}

pub struct TeamInfoView {
    pub id: Seq<char>,
    pub name: Seq<char>,
    pub domain: Seq<char>,
}

impl View for TeamInfo {
    type V = TeamInfoView;

    open spec fn view(&self) -> TeamInfoView {
        TeamInfoView { id: self.id@, name: self.name@, domain: self.domain@ }
    }
}

/// The account the session runs as.
#[derive(Debug, Clone, PartialEq, Eq)]
pub struct ConnectionAccountInfo {
    pub id: String,
    pub name: String,
}

pub struct ConnectionAccountInfoView {
    pub id: Seq<char>,
    pub name: Seq<char>,
}

impl View for ConnectionAccountInfo {
    type V = ConnectionAccountInfoView;

    open spec fn view(&self) -> ConnectionAccountInfoView {
        ConnectionAccountInfoView { id: self.id@, name: self.name@ }
    }
}

/// The workspace an object describes: `id`, `name` and `domain` must all be
/// strings.
pub open spec fn team_of_leaves(leaves: Leaves) -> Option<TeamInfoView> {
    match (leaf_text(leaves, "id"@), leaf_text(leaves, "name"@), leaf_text(leaves, "domain"@)) {
        (Some(id), Some(name), Some(domain)) => Some(TeamInfoView { id, name, domain }),
        _ => None,
    }
}

/// The account an object describes: `id` and `name` must both be strings.
pub open spec fn account_of_leaves(leaves: Leaves) -> Option<ConnectionAccountInfoView> {
    match (leaf_text(leaves, "id"@), leaf_text(leaves, "name"@)) {
        (Some(id), Some(name)) => Some(ConnectionAccountInfoView { id, name }),
        _ => None,
    }
}

impl TeamInfo {
    /// Reads a workspace out of a JSON object.
    pub fn from_object(object: &JsonLeaves) -> (team: Option<TeamInfo>)
        ensures
            match team {
                Some(t) => team_of_leaves(object@) == Some(t@),
                None => team_of_leaves(object@) is None,
            },
    {
        let id = object.get_text("id");
        let name = object.get_text("name");
        let domain = object.get_text("domain");
        match (id, name, domain) {
            (Some(id), Some(name), Some(domain)) => Some(TeamInfo { id, name, domain }),
            _ => None,
        }
    }
}

impl ConnectionAccountInfo {
    /// Reads an account out of a JSON object.
    pub fn from_object(object: &JsonLeaves) -> (account: Option<ConnectionAccountInfo>)
        ensures
            match account {
                Some(a) => account_of_leaves(object@) == Some(a@),
                None => account_of_leaves(object@) is None,
            },
    {
        let id = object.get_text("id");
        let name = object.get_text("name");
        match (id, name) {
            (Some(id), Some(name)) => Some(ConnectionAccountInfo { id, name }),
            _ => None,
        }
    }
}

} // verus!
