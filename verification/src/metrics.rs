//! Request metrics: request identifiers, paths and the classification of
//! completed requests.

use vstd::prelude::*;

verus! {

/// Header that carries the request identifier.
pub open spec fn request_id_header() -> Seq<char> {
    "x-request-id"@
}

/// Requests slower than this many milliseconds are reported.
pub const SLOW_REQUEST_MS: u128 = 1000;

/// The identifier of a request: the one it carries, else a fresh one.
pub fn extract_or_generate_request_id(header_value: Option<&str>, fresh: String) -> (id: String)
    ensures id@ == match header_value { Some(h) => h@, None => fresh@ },
{
    match header_value {
        Some(h) => String::from_str(h),
        None => fresh,
    }
}

/// The path of a request target (`"/"` when the target has no path).
pub fn extract_path_from_uri(path: Option<&str>) -> (p: String)
    ensures p@ == match path { Some(x) => x@, None => "/"@ },
{
    match path {
        Some(x) => String::from_str(x),
        None => String::from_str("/"),
    }
}

/// What is worth reporting about a completed request.
#[derive(Debug, Clone, Copy, PartialEq, Eq, Structural)]
pub struct RequestReport {
    /// Took longer than a second.
    pub slow: bool,
    /// Answered with an error status.
    pub error: bool,
}

/// Classifies a completed request by its duration and status code.
pub fn classify_request(duration_ms: u128, status_code: u16) -> (r: RequestReport)
    ensures
        r.slow == (duration_ms > SLOW_REQUEST_MS),
        r.error == (status_code >= 400),
{
    RequestReport { slow: duration_ms > SLOW_REQUEST_MS, error: status_code >= 400 }
}

} // verus!
