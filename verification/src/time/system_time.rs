//! A point on the wall clock of the host.

use crate::time::{duration_nanos, max_nanos, zero};
use std::time::Duration;
use vstd::prelude::*;

verus! {

/// A measurement of the system clock, kept as the time that has passed since
/// the beginning of 1970 in UTC. Unlike an `Instant` it may go backwards:
/// the clock can be set.
#[derive(Debug, Clone, Copy, PartialEq, Eq, PartialOrd, Ord, Hash)]
pub struct SystemTime(pub(crate) Duration);

/// What comparing two system times reports when the second is the later one:
/// how far the second lies after the first.
#[derive(Debug, Clone, Copy)]
pub struct SystemTimeError(Duration);

impl View for SystemTime {
    type V = nat;

    /// The nanoseconds between the beginning of 1970 and the system time.
    closed spec fn view(&self) -> nat {
        duration_nanos(self.0)
    }
}

impl View for SystemTimeError {
    type V = nat;

    /// The nanoseconds by which the second time lies after the first.
    closed spec fn view(&self) -> nat {
        duration_nanos(self.0)
    }
}

impl SystemTimeError {
    /// How far the second time lies after the first.
    pub fn duration(&self) -> (d: Duration)
        ensures
            duration_nanos(d) == self@,
    {
        self.0
    }
}

/// The beginning of 1970 in UTC, the anchor of all system times.
pub fn unix_epoch() -> (epoch: SystemTime)
    ensures
        epoch@ == 0,
{
    SystemTime(zero())
}

impl SystemTime {
    /// The system time that lies `since_epoch` after the beginning of 1970.
    pub fn new(since_epoch: Duration) -> (time: SystemTime)
        ensures
            time@ == duration_nanos(since_epoch),
    {
        SystemTime(since_epoch)
    }

    /// The time between the beginning of 1970 and the system time.
    pub fn since_epoch(&self) -> (d: Duration)
        ensures
            duration_nanos(d) == self@,
    {
        self.0
    }

    /// The time that has passed from `earlier` to this system time. If
    /// `earlier` is the later of the two, the error says by how much.
    pub fn duration_since(&self, earlier: SystemTime) -> (result: Result<Duration, SystemTimeError>)
        ensures
            result is Ok <==> self@ >= earlier@,
            result matches Ok(d) ==> duration_nanos(d) == self@ - earlier@,
            result matches Err(e) ==> e@ == earlier@ - self@,
    {
        match self.0.checked_sub(earlier.0) {
            Some(d) => Ok(d),
            None => {
                let behind = earlier.0.checked_sub(self.0);
                Err(SystemTimeError(behind.unwrap()))
            },
        }
    }

    /// The time that has passed from this system time to `now`. If `now` is
    /// the earlier of the two, the error says by how much.
    pub fn elapsed(&self, now: SystemTime) -> (result: Result<Duration, SystemTimeError>)
        ensures
            result is Ok <==> now@ >= self@,
            result matches Ok(d) ==> duration_nanos(d) == now@ - self@,
            result matches Err(e) ==> e@ == self@ - now@,
    {
        now.duration_since(*self)
    }

    /// The system time that lies `duration` after this one, unless it is too
    /// far from the beginning of 1970 to be held.
    pub fn checked_add(&self, duration: Duration) -> (sum: Option<SystemTime>)
        ensures
            sum is Some <==> self@ + duration_nanos(duration) <= max_nanos(),
            sum matches Some(t) ==> t@ == self@ + duration_nanos(duration),
    {
        match self.0.checked_add(duration) {
            Some(d) => Some(SystemTime(d)),
            None => None,
        }
    }

    /// The system time that lies `duration` before this one, unless that is
    /// before the beginning of 1970.
    pub fn checked_sub(&self, duration: Duration) -> (difference: Option<SystemTime>)
        ensures
            difference is Some <==> self@ >= duration_nanos(duration),
            difference matches Some(t) ==> t@ == self@ - duration_nanos(duration),
    {
        match self.0.checked_sub(duration) {
            Some(d) => Some(SystemTime(d)),
            None => None,
        }
    }
}

} // verus!
