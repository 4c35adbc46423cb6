//! Access to the wall clock.

use vstd::prelude::*;

verus! {

/// Reads the system clock: whole seconds since the Unix epoch according to
/// `std::time::SystemTime::now().duration_since(UNIX_EPOCH)`. Nothing is
/// promised of the value (the clock may move in either direction); a clock set
/// before the epoch reads as 0.
#[verifier::external_body]
pub(crate) fn unix_time_now() -> u64 {
    match std::time::SystemTime::now().duration_since(std::time::UNIX_EPOCH) {
        Ok(elapsed) => elapsed.as_secs(),
        Err(_) => 0,
    }
}

/// Reads the system clock as a chrono `DateTime<Utc>` (through
/// `From<SystemTime>`, which also accepts a clock set before 1970) and gives
/// its `timestamp_millis`: milliseconds since the Unix epoch. Nothing is
/// promised of the value.
#[verifier::external_body]
pub(crate) fn utc_now_millis() -> i64 {
    chrono::DateTime::<chrono::Utc>::from(std::time::SystemTime::now()).timestamp_millis()
}

#[verifier::external_type_specification]
#[verifier::external_body]
pub struct ExInstant(std::time::Instant);

/// Reads the monotonic clock: `std::time::Instant::now()`. Nothing is
/// promised of the value.
#[verifier::external_body]
pub(crate) fn monotonic_now() -> std::time::Instant {
    std::time::Instant::now()
}

/// Whole seconds elapsed since `start` by the monotonic clock:
/// `Instant::elapsed` (zero for a start in the future), then `as_secs`.
/// Nothing is promised of the value.
#[verifier::external_body]
pub(crate) fn whole_seconds_since(start: &std::time::Instant) -> u64 {
    start.elapsed().as_secs()
}

} // verus!
