//! The wall clock, as the board sees it.

use chrono::DateTime;
use chrono::Utc;
use std::time::SystemTime;
use vstd::prelude::*;

verus! {

/// A point in time: seconds since the start of 1970 in UTC (negative before it), and the
/// nanoseconds into that second. Cards and boards carry such stamps from the clock; nothing the board does reads one.
#[derive(Debug, Clone, Copy, PartialEq, Eq)]
pub struct Timestamp {
    /// Whole seconds since 1970-01-01 00:00:00 UTC.
    pub seconds: i64,
    /// Nanoseconds since the start of that second.
    pub nanos: u32,
}

/// Reads the clock: the time of `std::time::SystemTime::now`, made a `chrono::DateTime<Utc>`
/// by chrono's conversion from `SystemTime`, and taken apart with `DateTime::timestamp` and
/// `DateTime::timestamp_subsec_nanos`.
///
/// Nothing is claimed of the value: two readings may be equal, and a later one may be earlier
/// if the system clock was set back. A clock that reads a time before 1970 is read like any
/// other: the conversion gives it negative seconds. The conversion gives up only on a time
/// that chrono has no date for, more than 262,000 years from 1970.
#[verifier::external_body]
pub(crate) fn now() -> Timestamp {
    let reading: DateTime<Utc> = DateTime::from(SystemTime::now());
    Timestamp { seconds: reading.timestamp(), nanos: reading.timestamp_subsec_nanos() }
}

} // verus!
