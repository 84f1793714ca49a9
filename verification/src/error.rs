//! The error type of the storage operations.

use vstd::prelude::*;

verus! {

/// An error reported by a storage operation, with a description.
#[derive(Clone, Debug, PartialEq, Eq)]
pub enum HolochainError {
    ErrorGeneric(String),
}

} // verus!
