use vstd::prelude::*;

verus! {

/// Errors that the gateway's request handling reports to clients.
#[derive(Debug, Clone)]
pub enum ApiError {
    BadRequest(String),
    Unauthorized(String),
    Forbidden(String),
    NotFound(String),
    Internal(String),
    RateLimitExceeded { retry_after_seconds: u64 },
}

} // verus!

verus! {

/// The kinds of client-visible errors that carry a message.
#[derive(Debug, Clone, Copy, PartialEq, Eq, Structural)]
pub enum ErrorKind {
    BadRequest,
    Unauthorized,
    Forbidden,
    NotFound,
    Internal,
}

/// Whether `e` is an error of `kind` with exactly `message`.
pub open spec fn is_error(e: ApiError, kind: ErrorKind, message: Seq<char>) -> bool {
    match e {
        ApiError::BadRequest(m) => kind == ErrorKind::BadRequest && m@ == message,
        ApiError::Unauthorized(m) => kind == ErrorKind::Unauthorized && m@ == message,
        ApiError::Forbidden(m) => kind == ErrorKind::Forbidden && m@ == message,
        ApiError::NotFound(m) => kind == ErrorKind::NotFound && m@ == message,
        ApiError::Internal(m) => kind == ErrorKind::Internal && m@ == message,
        ApiError::RateLimitExceeded { .. } => false,
    }
}

} // verus!
