//! A point on the monotonic clock of the host.

use crate::time::{duration_nanos, max_nanos, zero};
use std::time::Duration;
use vstd::prelude::*;

verus! {

/// A measurement of a clock that never goes backwards, kept as the time
/// that has passed since the origin of that clock. It is useful only
/// together with `Duration`: two instants can be compared and subtracted.
#[derive(Debug, Clone, Copy, PartialEq, Eq, PartialOrd, Ord, Hash)]
pub struct Instant(pub(crate) Duration);

impl View for Instant {
    type V = nat;

    /// The nanoseconds between the origin of the clock and the instant.
    closed spec fn view(&self) -> nat {
        duration_nanos(self.0)
    }
}

impl Instant {
    /// The instant that lies `since_origin` after the origin of the clock.
    pub fn new(since_origin: Duration) -> (instant: Instant)
        ensures
            instant@ == duration_nanos(since_origin),
    {
        Instant(since_origin)
    }

    /// The time between the origin of the clock and the instant.
    pub fn since_origin(&self) -> (d: Duration)
        ensures
            duration_nanos(d) == self@,
    {
        self.0
    }

    /// The time that has passed from `earlier` to this instant, and no time
    /// at all if `earlier` is the later of the two.
    pub fn duration_since(&self, earlier: Instant) -> (d: Duration)
        ensures
            duration_nanos(d) == if self@ >= earlier@ {
                self@ - earlier@
            } else {
                0
            },
    {
        self.saturating_duration_since(earlier)
    }

    /// The time that has passed from `earlier` to this instant, and nothing
    /// if `earlier` is the later of the two.
    pub fn checked_duration_since(&self, earlier: Instant) -> (d: Option<Duration>)
        ensures
            d is Some <==> self@ >= earlier@,
            d matches Some(span) ==> duration_nanos(span) == self@ - earlier@,
    {
        self.0.checked_sub(earlier.0)
    }

    /// The time that has passed from `earlier` to this instant, and no time
    /// at all if `earlier` is the later of the two.
    pub fn saturating_duration_since(&self, earlier: Instant) -> (d: Duration)
        ensures
            duration_nanos(d) == if self@ >= earlier@ {
                self@ - earlier@
            } else {
                0
            },
    {
        match self.checked_duration_since(earlier) {
            Some(span) => span,
            None => zero(),
        }
    }

    /// The time that has passed from this instant to `now`, and no time at
    /// all if `now` is the earlier of the two.
    pub fn elapsed(&self, now: Instant) -> (d: Duration)
        ensures
            duration_nanos(d) == if now@ >= self@ {
                now@ - self@
            } else {
                0
            },
    {
        now.duration_since(*self)
    }

    /// The instant that lies `rhs` after this one, unless it is too far from
    /// the origin to be held.
    pub fn checked_add(&self, rhs: Duration) -> (sum: Option<Instant>)
        ensures
            sum is Some <==> self@ + duration_nanos(rhs) <= max_nanos(),
            sum matches Some(t) ==> t@ == self@ + duration_nanos(rhs),
    {
        match self.0.checked_add(rhs) {
            Some(d) => Some(Instant(d)),
            None => None,
        }
    }

    /// The instant that lies `rhs` before this one, unless that is before
    /// the origin of the clock.
    pub fn checked_sub(&self, rhs: Duration) -> (difference: Option<Instant>)
        ensures
            difference is Some <==> self@ >= duration_nanos(rhs),
            difference matches Some(t) ==> t@ == self@ - duration_nanos(rhs),
    {
        match self.0.checked_sub(rhs) {
            Some(d) => Some(Instant(d)),
            None => None,
        }
    }
}

} // verus!
