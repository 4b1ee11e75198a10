//! The library's error type: what a request handler answers when a rule
//! refuses its input.
use vstd::prelude::*;

verus! {

/// Why a request was refused.
#[derive(Debug)]
pub enum AppError {
    /// The addressed record does not exist (HTTP 404).
    NotFound(String),
    /// The request breaks a business rule (HTTP 400).
    BadRequest(String),
    /// The caller is not signed in (HTTP 401).
    Unauthorized,
    /// The database failed; the text describes the failure.
    Database(String),
    /// An internal step failed; the text describes the failure.
    Internal(String),
}

/// The refusal is a `BadRequest` whose text is `message`.
pub open spec fn is_bad_request(e: AppError, message: Seq<char>) -> bool {
    e matches AppError::BadRequest(m) && m@ == message
}

/// The refusal is a `NotFound` whose text is `message`.
pub open spec fn is_not_found(e: AppError, message: Seq<char>) -> bool {
    e matches AppError::NotFound(m) && m@ == message
}

/// A `BadRequest` carrying `message`.
pub fn bad_request(message: &str) -> (e: AppError)
    ensures
        is_bad_request(e, message@),
{
    AppError::BadRequest(crate::text::owned(message))
}

/// A `NotFound` carrying `message`.
pub fn not_found(message: &str) -> (e: AppError)
    ensures
        is_not_found(e, message@),
{
    AppError::NotFound(crate::text::owned(message))
}

} // verus!
