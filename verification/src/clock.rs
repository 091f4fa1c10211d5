//! Time: the present, the instants a calendar can name, and the window in
//! which a request counts as fresh.

use chrono::{DateTime, Utc};
use vstd::prelude::*;

verus! {

/// A request is fresh for this many seconds before and after it was sent.
pub const FRESHNESS_WINDOW: i64 = 300;

/// The first second of the year -262143, counted from 1970-01-01T00:00:00Z.
pub const FIRST_INSTANT: i64 = -8_334_601_228_800;

/// The last second of the year 262142, counted from 1970-01-01T00:00:00Z.
pub const LAST_INSTANT: i64 = 8_210_266_876_799;

/// Whether `seconds` after 1970-01-01T00:00:00Z is an instant of the
/// proleptic Gregorian calendar in the years -262143 to 262142.
pub open spec fn is_calendar_instant(seconds: int) -> bool {
    FIRST_INSTANT <= seconds <= LAST_INSTANT
}

/// Whether two instants lie no more than the window apart, either way round.
pub open spec fn is_fresh(now: int, timestamp: int) -> bool {
    -FRESHNESS_WINDOW <= now - timestamp <= FRESHNESS_WINDOW
}

/// Asks `chrono::DateTime::from_timestamp`, with no nanoseconds, whether it
/// has a date and time for `seconds`.
///
/// Trusted, not proved: that it has one exactly for the seconds of the years
/// -262143 to 262142, the years a `chrono::NaiveDate` can hold.
#[verifier::external_body]
pub(crate) fn names_instant(seconds: i64) -> (named: bool)
    ensures
        named == is_calendar_instant(seconds as int),
{
    match DateTime::from_timestamp(seconds, 0) {
        Some(_) => true,
        None => false,
    }
}

/// Reads the clock with `chrono::Utc::now` and gives the whole seconds since
/// 1970-01-01T00:00:00Z with `chrono::DateTime::timestamp`.
///
/// The value is what the machine's clock says. Trusted, not proved: that it
/// names an instant of the calendar, as every `chrono::DateTime` does. The
/// call panics on a machine whose clock is set before 1970.
#[verifier::external_body]
pub(crate) fn unix_now() -> (now: i64)
    ensures
        is_calendar_instant(now as int),
{
    Utc::now().timestamp()
}

/// Tells whether `timestamp` lies within the window around `now`.
pub fn within_window(now: i64, timestamp: i64) -> (fresh: bool)
    ensures
        fresh == is_fresh(now as int, timestamp as int),
{
    match now.checked_sub(timestamp) {
        Some(elapsed) => -FRESHNESS_WINDOW <= elapsed && elapsed <= FRESHNESS_WINDOW,
        None => false,
    }
}

} // verus!
