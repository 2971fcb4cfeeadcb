//! The vocabulary shared by every suspendable operation: the outcome of a
//! poll, and the wake capability handed in by the scheduler.

use std::task::Waker;
use vstd::prelude::*;

verus! {

/// The outcome of polling a suspendable operation once.
#[derive(Debug, PartialEq, Eq)]
pub enum Poll<T> {
    /// The operation has finished with this value.
    Ready(T),
    /// The operation is not finished; a wake capability has been stored and
    /// will be invoked when polling again may make progress.
    Pending,
}

impl<T> Poll<T> {
    /// Whether the operation has finished.
    pub fn is_ready(&self) -> (b: bool)
        ensures
            b == (*self is Ready),
    {
        match self {
            Poll::Ready(_) => true,
            Poll::Pending => false,
        }
    }

    /// Whether the operation is still suspended.
    pub fn is_pending(&self) -> (b: bool)
        ensures
            b == (*self is Pending),
    {
        match self {
            Poll::Ready(_) => false,
            Poll::Pending => true,
        }
    }
}

/// `std::task::Waker`, the wake capability of the scheduler. Nothing is known
/// of what is inside one: it is stored, copied and invoked, never inspected.
#[verifier::external_type_specification]
#[verifier::external_body]
pub struct ExWaker(Waker);

/// `Waker::wake`: tells the scheduler that the task behind the capability may
/// be polled again. It returns nothing, and nothing is claimed of it.
pub assume_specification[ Waker::wake ](waker: Waker)
;

/// `Waker::will_wake`: a best-effort test whether two capabilities wake the
/// same task. The answer depends on where the capabilities live in memory, so
/// nothing is claimed of it.
pub assume_specification[ Waker::will_wake ](waker: &Waker, other: &Waker) -> (same: bool)
;

/// `Waker::clone`: a second capability for the same task. Nothing is claimed
/// beyond what holds of every call of `clone`.
pub assume_specification[ <Waker as Clone>::clone ](waker: &Waker) -> (copy: Waker)
;

} // verus!
