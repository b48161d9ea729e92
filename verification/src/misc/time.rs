//! Points in time, as `chrono` represents them.
//!
//! A [`NaiveDateTime`] is carried through unopened. The computations the
//! crate needs on it are done by `chrono` and named here.

use chrono::NaiveDateTime;
use vstd::prelude::*;

verus! {

#[verifier::external_type_specification]
#[verifier::external_body]
pub struct ExNaiveDateTime(NaiveDateTime);

/// The whole seconds from `earlier` to `later`, rounded towards zero.
pub uninterp spec fn seconds_between(later: NaiveDateTime, earlier: NaiveDateTime) -> i64;

/// What is left of the time from `earlier` to `later` beyond the whole
/// seconds, in nanoseconds; negative where `later` is the earlier of the two.
pub uninterp spec fn subsecond_nanos_between(later: NaiveDateTime, earlier: NaiveDateTime) -> i32;

/// The UTC date and time that lies `seconds` after 1970-01-01 00:00:00, or
/// `None` where `chrono` cannot represent it.
pub uninterp spec fn utc_datetime(seconds: i64) -> Option<NaiveDateTime>;

/// Calls `NaiveDateTime::signed_duration_since` and `TimeDelta::num_seconds`.
/// Trusted: the outcome is a function of the two instants, named
/// [`seconds_between`].
#[verifier::external_body]
pub(crate) fn elapsed_seconds(later: &NaiveDateTime, earlier: &NaiveDateTime) -> (seconds: i64)
    ensures
        seconds == seconds_between(*later, *earlier),
{
    later.signed_duration_since(*earlier).num_seconds()
}

/// Calls `NaiveDateTime::signed_duration_since` and `TimeDelta::subsec_nanos`.
/// Trusted: the outcome is a function of the two instants, named
/// [`subsecond_nanos_between`].
#[verifier::external_body]
pub(crate) fn elapsed_subsecond_nanos(later: &NaiveDateTime, earlier: &NaiveDateTime) -> (nanos:
    i32)
    ensures
        nanos == subsecond_nanos_between(*later, *earlier),
{
    later.signed_duration_since(*earlier).subsec_nanos()
}

/// A span of time: its whole seconds, rounded towards zero, and the
/// nanoseconds beyond them.
#[derive(Debug, Clone, Copy, PartialEq, Eq, Structural)]
pub struct Elapsed {
    pub seconds: i64,
    pub nanos: i32,
}

impl Elapsed {
    /// Whether the span is longer than `seconds` seconds, by however little.
    pub open spec fn exceeds(self, seconds: i64) -> bool {
        self.seconds > seconds || (self.seconds == seconds && self.nanos > 0)
    }

    /// Whether the span is longer than `seconds` seconds, by however little.
    pub fn longer_than(&self, seconds: i64) -> (longer: bool)
        ensures
            longer == self.exceeds(seconds),
    {
        self.seconds > seconds || (self.seconds == seconds && self.nanos > 0)
    }
}

/// The span from `earlier` to `later`, as `chrono` measures it.
pub open spec fn span_between(later: NaiveDateTime, earlier: NaiveDateTime) -> Elapsed {
    Elapsed {
        seconds: seconds_between(later, earlier),
        nanos: subsecond_nanos_between(later, earlier),
    }
}

/// The span from `earlier` to `later`.
pub fn elapsed_between(later: &NaiveDateTime, earlier: &NaiveDateTime) -> (elapsed: Elapsed)
    ensures
        elapsed == span_between(*later, *earlier),
{
    Elapsed {
        seconds: elapsed_seconds(later, earlier),
        nanos: elapsed_subsecond_nanos(later, earlier),
    }
}

/// Calls `DateTime::from_timestamp` with no nanoseconds and drops the zone.
/// Trusted: the outcome is a function of the number of seconds, named
/// [`utc_datetime`].
#[verifier::external_body]
pub(crate) fn datetime_from_seconds(seconds: i64) -> (instant: Option<NaiveDateTime>)
    ensures
        instant == utc_datetime(seconds),
{
    match chrono::DateTime::from_timestamp(seconds, 0) {
        Some(instant) => Some(instant.naive_utc()),
        None => None,
    }
}

} // verus!
