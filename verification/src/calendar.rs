//! The calendar, which `chrono` keeps: its range, its date and time type,
//! and the one call that makes a date and time of an instant. What this
//! module says of `chrono` is taken on trust, not proved.

use chrono::{NaiveDateTime, TimeZone, Utc};
use vstd::prelude::*;

verus! {

/// The earliest second `chrono` can hold, in whole seconds since the epoch:
/// the first second of the year -262143.
pub const MIN_TIMESTAMP: i64 = -8_334_601_228_800;

/// The latest second `chrono` can hold, in whole seconds since the epoch:
/// the last second of the year 262142.
pub const MAX_TIMESTAMP: i64 = 8_210_266_876_799;

/// `chrono::NaiveDateTime`, a calendar date with a time of day. Nothing of
/// its contents is visible to the verifier.
#[verifier::external_type_specification]
#[verifier::external_body]
pub struct ExNaiveDateTime(NaiveDateTime);

/// The calendar date and time of day, in UTC, of the instant that lies
/// `secs` whole seconds and then `nanos` nanoseconds after
/// 1970-01-01T00:00:00Z. It is what `chrono::TimeZone::timestamp_opt` yields
/// on `Utc` for these two numbers, with the time zone taken off.
pub uninterp spec fn utc_instant(secs: int, nanos: int) -> NaiveDateTime;

/// Calls `chrono::TimeZone::timestamp_opt` on `Utc` and takes the UTC date
/// and time out of the result with `chrono::DateTime::naive_utc`.
///
/// Taken on trust: for a count of seconds from [`MIN_TIMESTAMP`] to
/// [`MAX_TIMESTAMP`] and less than a second's worth of nanoseconds, `chrono`
/// yields a single date and time, and that value depends on the two numbers
/// alone.
#[verifier::external_body]
pub(crate) fn utc_timestamp(secs: i64, nanos: u32) -> (dt: NaiveDateTime)
    requires
        MIN_TIMESTAMP <= secs <= MAX_TIMESTAMP,
        nanos < 1_000_000_000,
    ensures
        dt == utc_instant(secs as int, nanos as int),
{
    Utc.timestamp_opt(secs, nanos).unwrap().naive_utc()
}

} // verus!
