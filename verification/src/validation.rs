//! The data handed to validation callbacks: the chain context of the entry
//! under validation, and the lifecycle and action tags.

use vstd::prelude::*;

use crate::storage::HashString;

verus! {

/// Where the entry under validation lives.
#[derive(Clone, Copy, Debug, PartialEq, Eq, Structural)]
pub enum EntryLifecycle {
    Chain,
    Dht,
    Meta,
}

/// What is being done to the entry under validation.
#[derive(Clone, Copy, Debug, PartialEq, Eq, Structural)]
pub enum EntryAction {
    Commit,
    Modify,
    Delete,
}

/// What is being done to the link under validation.
#[derive(Clone, Copy, Debug, PartialEq, Eq, Structural)]
pub enum LinkAction {
    Commit,
    Delete,
}

/// A JSON value.
#[verifier::external_type_specification]
#[verifier::external_body]
pub struct ExJsonValue(serde_json::Value);

/// What a validation callback is told about the entry it validates. Chain
/// headers are held in their JSON form.
#[derive(Clone)]
pub struct ValidationData {
    pub chain_header: Option<serde_json::Value>,
    pub sources: Vec<HashString>,
    pub source_chain_entries: Option<Vec<serde_json::Value>>,
    pub source_chain_headers: Option<Vec<serde_json::Value>>,
    pub custom: Option<serde_json::Value>,
    pub lifecycle: EntryLifecycle,
    pub action: EntryAction,
}

} // verus!
