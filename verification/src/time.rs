//! Points in time, and the limits of the timers of the host.

pub mod instant;
pub mod system_time;

pub use instant::Instant;
pub use system_time::{SystemTime, SystemTimeError};

use std::time::Duration;
use vstd::prelude::*;

verus! {

/// The number of nanoseconds in a millisecond.
pub const NANOS_PER_MILLI: u32 = 1_000_000;

/// The number of nanoseconds in a second.
pub const NANOS_PER_SEC: u32 = 1_000_000_000;

/// The length of a span of time in nanoseconds: the number that
/// `Duration::as_nanos` reports for it. Whatever is said of a `Duration` in
/// this crate is said of this number.
pub uninterp spec fn duration_nanos(d: Duration) -> nat;

/// The longest span of time, in nanoseconds, that a `Duration` can hold:
/// `u64::MAX` seconds and one nanosecond less than another second.
pub open spec fn max_nanos() -> nat {
    (u64::MAX as nat) * (NANOS_PER_SEC as nat) + (NANOS_PER_SEC as nat - 1) as nat
}

/// `Duration::as_millis`: the number of whole milliseconds in the span.
pub assume_specification[ Duration::as_millis ](d: &Duration) -> (millis: u128)
    ensures
        millis == duration_nanos(*d) / (NANOS_PER_MILLI as nat),
;

/// `Duration::from_millis`: the span of that many milliseconds.
pub assume_specification[ Duration::from_millis ](millis: u64) -> (d: Duration)
    ensures
        duration_nanos(d) == millis * NANOS_PER_MILLI,
;

/// `Duration::checked_add`: the sum of two spans, unless it is longer than
/// a `Duration` can hold.
pub assume_specification[ Duration::checked_add ](d: Duration, rhs: Duration) -> (sum: Option<
    Duration,
>)
    ensures
        sum matches Some(s) ==> duration_nanos(s) == duration_nanos(d) + duration_nanos(rhs),
        sum is Some <==> duration_nanos(d) + duration_nanos(rhs) <= max_nanos(),
;

/// `Duration::checked_sub`: the difference of two spans, unless the second
/// is the longer one.
pub assume_specification[ Duration::checked_sub ](d: Duration, rhs: Duration) -> (difference:
    Option<Duration>)
    ensures
        difference matches Some(s) ==> duration_nanos(s) == duration_nanos(d) - duration_nanos(
            rhs,
        ),
        difference is Some <==> duration_nanos(d) >= duration_nanos(rhs),
;

/// `Duration::ZERO`: the span that lasts no time.
#[verifier::external_body]
pub(crate) fn zero() -> (d: Duration)
    ensures
        duration_nanos(d) == 0,
{
    Duration::ZERO
}

/// The longest delay that a timer of the host accepts. A longer span handed
/// to a timer is cut down to this one.
pub fn max_duration() -> (d: Duration)
    ensures
        duration_nanos(d) == (i32::MAX as nat) * (NANOS_PER_MILLI as nat),
{
    Duration::from_millis(0x7fff_ffff)
}

/// The delay, in whole milliseconds, that a timer of the host is given for
/// `dur`: the milliseconds of `dur`, and `i32::MAX` when there are more.
pub fn timeout2millis(dur: Duration) -> (millis: i32)
    ensures
        millis == if duration_nanos(dur) / (NANOS_PER_MILLI as nat) <= i32::MAX {
            (duration_nanos(dur) / (NANOS_PER_MILLI as nat)) as int
        } else {
            i32::MAX as int
        },
{
    let whole: u128 = dur.as_millis();
    if whole <= 0x7fff_ffff {
        whole as i32
    } else {
        i32::MAX
    }
}

/// How a sleep of `dur` is cut into delays that a timer of the host accepts:
/// `rounds` delays of `i32::MAX` milliseconds each, and one of `rest`
/// milliseconds, which together last the whole milliseconds of `dur`.
pub fn sleep_plan(dur: Duration) -> (plan: (u128, i32))
    ensures
        0 <= plan.1 < i32::MAX,
        plan.0 * (i32::MAX as int) + plan.1 == duration_nanos(dur) / (NANOS_PER_MILLI as nat),
{
    let whole: u128 = dur.as_millis();
    let limit: u128 = 0x7fff_ffff;
    let rounds: u128 = whole / limit;
    let rest: u128 = whole % limit;
    assert(whole == limit * rounds + rest) by (nonlinear_arith)
        requires
            rounds == whole / limit,
            rest == whole % limit,
            limit > 0,
    ;
    assert(limit * rounds == rounds * limit) by (nonlinear_arith);
    (rounds, rest as i32)
}

} // verus!
