use vstd::prelude::*;

verus! {

/// Errors reported to API clients, each with a human-readable message.
#[derive(Debug, Clone)]
pub enum ApiError {
    DatabaseError(String),
    NotFound(String),
    BadRequest(String),
    NotImplemented(String),
}

} // verus!
