//! Database connection settings read from connection URLs.

use vstd::prelude::*;
use crate::text::{contains, seq_contains, seq_starts_with, starts_with};

verus! {

/// Whether a connection URL requires TLS.
pub open spec fn enforces_ssl(url: Seq<char>) -> bool {
    seq_contains(url, "sslmode=require"@) || seq_contains(url, "sslmode=verify-ca"@)
        || seq_contains(url, "sslmode=verify-full"@)
}

/// The TLS mode reported for a connection URL.
pub fn ssl_mode(database_url: &str) -> (m: &'static str)
    ensures m@ == (if enforces_ssl(database_url@) { "SSL enabled"@ } else { "SSL not enforced"@ }),
{
    if contains(database_url, "sslmode=require") || contains(database_url, "sslmode=verify-ca")
        || contains(database_url, "sslmode=verify-full") {
        "SSL enabled"
    } else {
        "SSL not enforced"
    }
}

/// Whether the time-series URL is an HTTP endpoint, for which no database
/// connection is made.
pub fn is_http_endpoint(url: &str) -> (b: bool)
    ensures b == (seq_starts_with(url@, "http://"@) || seq_starts_with(url@, "https://"@)),
{
    starts_with(url, "http://") || starts_with(url, "https://")
}

} // verus!
