//! Wall-clock instants, held as milliseconds since the Unix epoch (UTC).

use vstd::prelude::*;

verus! {

/// An instant in UTC, as whole milliseconds since 1970-01-01T00:00:00Z.
#[derive(Clone, Copy, Debug, PartialEq, Eq, Structural, Hash)]
pub struct Timestamp {
    pub millis: i64,
}

impl Timestamp {
    /// The current time read from the system clock.
    pub fn now() -> (r: Timestamp)
        ensures
            r.millis >= 0,
    {
        Timestamp { millis: utc_now_millis() }
    }
}

/// Relies on chrono's `Utc::now` and `DateTime::timestamp_millis`: the system
/// clock as milliseconds since the Unix epoch. `Utc::now` measures the time
/// elapsed since the epoch, so the count is never negative.
#[verifier::external_body]
fn utc_now_millis() -> (r: i64)
    ensures
        r >= 0,
{
    chrono::Utc::now().timestamp_millis()
}

} // verus!
