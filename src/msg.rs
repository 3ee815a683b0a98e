//! The command and answer types of the registry.

use vstd::prelude::*;

verus! {

/// What a created alias or a search reports: the alias, its avatar URL and its owner.
#[derive(Clone, Debug, PartialEq, Eq)]
pub struct AliasAttributes {
    pub alias: String,
    pub avatar_url: Option<String>,
    pub address: String,
}

/// The message that sets the registry up; it carries nothing.
#[derive(Clone, Debug, PartialEq, Eq)]
pub struct InitMsg {}

/// The answer to a search: which kind of search matched, and what it found.
#[derive(Clone, Debug, PartialEq, Eq)]
pub struct SearchResponse {
    pub kind: String,
    pub attributes: AliasAttributes,
}

/// The answer to a command.
#[derive(Clone, Debug, PartialEq, Eq)]
pub enum HandleAnswer {
    Create { alias: AliasAttributes },
    Destroy { status: ResponseStatus },
}

/// A command from an authenticated caller.
#[derive(Clone, Debug, PartialEq, Eq)]
pub enum HandleMsg {
    Create { alias: String, avatar_url: Option<String> },
    Destroy { alias: String },
}

/// A read-only request.
#[derive(Clone, Debug, PartialEq, Eq)]
pub enum QueryMsg {
    Search { search_type: String, search_value: String },
}

#[derive(Clone, Copy, Debug, PartialEq, Eq, Structural)]
pub enum ResponseStatus {
    Success,
    Failure,
}

} // verus!
