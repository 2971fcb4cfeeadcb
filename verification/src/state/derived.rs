//! Derived cells: cells that follow another cell through a function.
//!
//! A derived cell is a cell of its own, seeded with what the function makes
//! of the source's value. The source holds a weak subscriber that refreshes
//! the derived cell on every change, and that leaves once the derived cell
//! is gone. Who shares the derived cell between its owner and that
//! subscriber is up to the caller.

use crate::state::cell::{State, StateView};
use crate::state::subscriber::Listener;
use vstd::prelude::*;

verus! {

/// Seeds a derived cell: a new cell without subscribers whose value is what
/// `f` makes of the value of `source`.
pub fn seed<T, F, W, L: ?Sized, U, F2, W2, L2: ?Sized, G>(
    source: &State<T, F, W, L>,
    f: &mut G,
) -> (derived: State<U, F2, W2, L2>) where
    F: FnMut(&T),
    W: FnMut(&T) -> bool,
    L: Listener<T>,
    F2: FnMut(&U),
    W2: FnMut(&U) -> bool,
    L2: Listener<U>,
    G: FnMut(&T) -> U,

    requires
        call_requires(*old(f), (&source@.value,)),
    ensures
        derived.wf(),
        derived@ == StateView::<U, F2, W2, L2>::fresh(derived@.value),
        call_ensures(*old(f), (&source@.value,), derived@.value),
        *final(f) == *old(f),
{
    State::new(f(source.value()))
}

/// What the weak subscriber of a derived cell does when its source has
/// taken the value `v`. While the derived cell is alive, it is set to what
/// `f` makes of `v`, which notifies its own subscribers, and the subscriber
/// stays; once the derived cell is gone, the subscriber leaves.
pub fn refresh<T, U, F2, W2, L2: ?Sized, G>(
    derived: Option<&mut State<U, F2, W2, L2>>,
    f: &mut G,
    v: &T,
) -> (keep: bool) where F2: FnMut(&U), W2: FnMut(&U) -> bool, L2: Listener<U>, G: FnMut(&T) -> U
    requires
        derived matches Some(cell) ==> cell.wf(),
        derived is Some ==> call_requires(*old(f), (v,)),
    ensures
        keep == (derived is Some),
        *final(f) == *old(f),
        derived matches Some(cell) ==> {
            &&& final(cell).wf()
            &&& call_ensures(*old(f), (v,), final(cell)@.value)
            &&& cell@.with_value(final(cell)@.value).notified(final(cell)@)
        },
{
    match derived {
        Some(cell) => {
            cell.set(f(v));
            true
        },
        None => false,
    }
}

} // verus!
