//! The service's error taxonomy and the classification of store failures.

use vstd::prelude::*;
use crate::text::{contains_seq, str_contains};

verus! {

/// Everything that can go wrong between a request and the store.
#[derive(PartialEq, Eq, Structural, Clone, Copy, Debug)]
pub enum RepoError {
    /// The pool yielded no connection, or the store is unreachable.
    Connection,
    /// The statement failed for any other reason.
    Query,
    /// A uniqueness violation on the customer id.
    Conflict,
    /// No row exists for the given id.
    NotFound,
    /// A partial update supplied no field.
    InvalidRequest,
}

/// The store's server-error code for a duplicate key: a uniqueness violation
/// on an insert or update.
pub const DUPLICATE_KEY_CODE: u16 = 1062;

/// Classifies a store failure by the driver's structured server-error code:
/// the duplicate-key code is a conflict, anything else a query failure.
pub fn classify_server_code(code: u16) -> (e: RepoError)
    ensures
        e == RepoError::Conflict <==> code == DUPLICATE_KEY_CODE,
        e == RepoError::Conflict || e == RepoError::Query,
{
    if code == DUPLICATE_KEY_CODE {
        RepoError::Conflict
    } else {
        RepoError::Query
    }
}

/// The marker the store puts in the message of a uniqueness violation; a
/// fallback for failures that reach the service without a server-error code.
pub open spec fn duplicate_marker() -> Seq<char> {
    "Duplicate entry"@
}

/// Classifies a store failure by its message: a uniqueness violation on the
/// customer id is a conflict, anything else a query failure.
pub fn classify_store_failure(msg: &str) -> (e: RepoError)
    ensures
        e == RepoError::Conflict <==> contains_seq(msg@, duplicate_marker()),
        e == RepoError::Conflict || e == RepoError::Query,
{
    if str_contains(msg, "Duplicate entry") {
        RepoError::Conflict
    } else {
        RepoError::Query
    }
}

} // verus!
