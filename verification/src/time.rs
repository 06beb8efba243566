//! Instants and spans of time as plain integers.

use vstd::prelude::*;

verus! {

/// Milliseconds in one minute.
pub const MILLIS_PER_MINUTE: i64 = 60_000;

/// Milliseconds in one hour.
pub const MILLIS_PER_HOUR: i64 = 3_600_000;

/// The quotient of `a` by a positive `b`, rounded toward zero.
pub open spec fn div_toward_zero(a: int, b: int) -> int
    recommends
        b > 0,
{
    if a >= 0 {
        a / b
    } else {
        -((-a) / b)
    }
}

/// An instant on the UTC time line: whole seconds since the Unix epoch, and the
/// nanoseconds that have passed since that second began.
#[derive(Clone, Copy, Debug, PartialEq, Eq, Structural)]
pub struct Timestamp {
    /// Whole seconds since the epoch; negative before it.
    pub secs: i64,
    /// Nanoseconds since that second began.
    pub nanos: u32,
}

impl Timestamp {
    /// Whether `self` lies strictly after `other`: the seconds decide, the
    /// nanoseconds break a tie.
    pub open spec fn later_than(self, other: Timestamp) -> bool {
        self.secs > other.secs || (self.secs == other.secs && self.nanos > other.nanos)
    }

    /// `self` with the part below one second dropped.
    pub open spec fn whole_seconds(self) -> Timestamp {
        Timestamp { secs: self.secs, nanos: 0 }
    }

    /// The instant `secs` whole seconds after the epoch, or before it if
    /// `secs` is negative.
    pub fn from_secs(secs: i64) -> (t: Timestamp)
        ensures
            t == (Timestamp { secs, nanos: 0 }),
    {
        Timestamp { secs, nanos: 0 }
    }

    /// The whole seconds since the epoch.
    pub fn timestamp(&self) -> (secs: i64)
        ensures
            secs == self.secs,
    {
        self.secs
    }

    /// Whether `self` lies strictly after `other`.
    pub fn is_after(&self, other: &Timestamp) -> (after: bool)
        ensures
            after == self.later_than(*other),
    {
        self.secs > other.secs || (self.secs == other.secs && self.nanos > other.nanos)
    }
}

/// A signed length of time in whole milliseconds.
#[derive(Clone, Copy, Debug, PartialEq, Eq, Structural)]
pub struct Span {
    /// The length in milliseconds; negative for a span that runs backward.
    pub millis: i64,
}

impl Span {
    /// The span of `millis` milliseconds.
    pub fn milliseconds(millis: i64) -> (span: Span)
        ensures
            span == (Span { millis }),
    {
        Span { millis }
    }

    /// The span of `minutes` minutes, which must fit in the milliseconds a
    /// span can count.
    pub fn minutes(minutes: i64) -> (span: Span)
        requires
            i64::MIN <= minutes * MILLIS_PER_MINUTE <= i64::MAX,
        ensures
            span.millis == minutes * MILLIS_PER_MINUTE,
    {
        Span { millis: minutes * MILLIS_PER_MINUTE }
    }

    /// The span in milliseconds.
    pub fn num_milliseconds(&self) -> (millis: i64)
        ensures
            millis == self.millis,
    {
        self.millis
    }

    /// The whole minutes in the span, rounded toward zero.
    pub fn num_minutes(&self) -> (minutes: i64)
        ensures
            minutes == div_toward_zero(self.millis as int, MILLIS_PER_MINUTE as int),
    {
        self.millis / MILLIS_PER_MINUTE
    }

    /// The whole hours in the span, rounded toward zero.
    pub fn num_hours(&self) -> (hours: i64)
        ensures
            hours == div_toward_zero(self.millis as int, MILLIS_PER_HOUR as int),
    {
        self.millis / MILLIS_PER_HOUR
    }
}

/// The instant that the system clock shows: the reading of
/// `std::time::SystemTime::now`, turned into a `chrono::DateTime<chrono::Utc>`
/// by chrono's `From<SystemTime>`, and of that the seconds and the
/// nanoseconds. A clock set before the epoch gives a negative count of
/// seconds. Nothing is claimed of the instant, which is different at every
/// call.
#[verifier::external_body]
pub(crate) fn current_time() -> (now: Timestamp) {
    let now = chrono::DateTime::<chrono::Utc>::from(std::time::SystemTime::now());
    Timestamp { secs: now.timestamp(), nanos: now.timestamp_subsec_nanos() }
}

} // verus!
