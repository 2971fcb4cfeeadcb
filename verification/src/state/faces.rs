//! The two faces of a cell: one for those who watch it, one for its owner.

use crate::state::cell::{State, StateView};
use crate::state::subscriber::{Listener, Strong, Weak};
use vstd::prelude::*;

verus! {

/// The face of a cell that is handed to those who may watch it but not
/// change it: they can read the value and subscribe to it.
#[verifier::reject_recursive_types(L)]
pub struct Readable<T, F, W, L: ?Sized> {
    cell: State<T, F, W, L>,
}

/// The face of a cell that is kept by its owner, who may also change the
/// value.
#[verifier::reject_recursive_types(L)]
pub struct Writeable<T, F, W, L: ?Sized> {
    inner: Readable<T, F, W, L>,
}

impl<T, F, W, L: ?Sized> View for Readable<T, F, W, L> {
    type V = StateView<T, F, W, L>;

    closed spec fn view(&self) -> StateView<T, F, W, L> {
        self.cell@
    }
}

impl<T, F, W, L: ?Sized> View for Writeable<T, F, W, L> {
    type V = StateView<T, F, W, L>;

    closed spec fn view(&self) -> StateView<T, F, W, L> {
        self.inner@
    }
}

impl<T, F: FnMut(&T), W: FnMut(&T) -> bool, L: ?Sized + Listener<T>> Readable<T, F, W, L> {
    /// Every subscriber of the cell can be handed any value.
    pub open spec fn wf(&self) -> bool {
        self@.wf()
    }

    /// Creates a cell with `t` and without subscribers.
    pub fn new(t: T) -> (cell: Self)
        ensures
            cell.wf(),
            cell@ == StateView::<T, F, W, L>::fresh(t),
    {
        Readable { cell: State::new(t) }
    }

    /// A copy of the value.
    pub fn get(&self) -> (value: T) where T: Copy
        ensures
            value == self@.value,
    {
        self.cell.get()
    }

    /// What `f` makes of the value.
    pub fn with<U, G: FnOnce(&T) -> U>(&self, f: G) -> (result: U)
        requires
            call_requires(f, (&self@.value,)),
        ensures
            call_ensures(f, (&self@.value,), result),
    {
        self.cell.with(f)
    }

    /// Adds a callback that the cell owns.
    pub fn subscribe(&mut self, f: F)
        requires
            old(self).wf(),
            forall|v: T| call_requires(f, (&v,)),
        ensures
            final(self).wf(),
            final(self)@ == old(self)@.with_strong(Strong::Callback(f)),
    {
        self.cell.register(f);
    }

    /// Adds a callback that stays only as long as it answers `true`.
    pub fn subscribe_weak(&mut self, f: W)
        requires
            old(self).wf(),
            forall|v: T| call_requires(f, (&v,)),
        ensures
            final(self).wf(),
            final(self)@ == old(self)@.with_weak(Weak::Callback(f)),
    {
        self.cell.register_weak(f);
    }
}

impl<T, F: FnMut(&T), W: FnMut(&T) -> bool, L: ?Sized + Listener<T>> Writeable<T, F, W, L> {
    /// Every subscriber of the cell can be handed any value.
    pub open spec fn wf(&self) -> bool {
        self@.wf()
    }

    /// Creates a cell with `t` and without subscribers.
    pub fn new(t: T) -> (cell: Self)
        ensures
            cell.wf(),
            cell@ == StateView::<T, F, W, L>::fresh(t),
    {
        Writeable { inner: Readable::new(t) }
    }

    /// The face of the cell for those who may only watch it.
    pub fn readable(&self) -> (face: &Readable<T, F, W, L>)
        ensures
            face@ == self@,
    {
        &self.inner
    }

    /// The face of the cell for those who may only watch it, to subscribe
    /// through.
    pub fn readable_mut(&mut self) -> (face: &mut Readable<T, F, W, L>)
        ensures
            face@ == old(self)@,
            final(self)@ == final(face)@,
    {
        &mut self.inner
    }

    /// Replaces the value by `v` and runs one notify pass.
    pub fn set(&mut self, v: T)
        requires
            old(self).wf(),
        ensures
            final(self).wf(),
            old(self)@.with_value(v).notified(final(self)@),
    {
        self.inner.cell.set(v);
    }

    /// Replaces the value by `v`, runs one notify pass and returns the value
    /// that was replaced.
    pub fn replace(&mut self, v: T) -> (previous: T)
        requires
            old(self).wf(),
        ensures
            final(self).wf(),
            previous == old(self)@.value,
            old(self)@.with_value(v).notified(final(self)@),
    {
        self.inner.cell.replace(v)
    }

    /// Replaces the value by the default of its type, runs one notify pass
    /// and returns the value that was replaced.
    pub fn take(&mut self) -> (previous: T) where T: Default
        requires
            old(self).wf(),
            call_requires(T::default, ()),
        ensures
            final(self).wf(),
            previous == old(self)@.value,
            call_ensures(T::default, (), final(self)@.value),
            old(self)@.with_value(final(self)@.value).notified(final(self)@),
    {
        self.inner.cell.take()
    }

    /// Lets `f` change the value in place, then runs one notify pass, and
    /// returns what `f` returned.
    pub fn update<U, G: FnOnce(&mut T) -> U>(&mut self, f: G) -> (result: U)
        requires
            old(self).wf(),
            forall|x: &mut T| *x == old(self)@.value ==> call_requires(f, (x,)),
        ensures
            final(self).wf(),
            exists|x: &mut T|
                *x == old(self)@.value && *final(x) == final(self)@.value && call_ensures(
                    f,
                    (x,),
                    result,
                ),
            old(self)@.with_value(final(self)@.value).notified(final(self)@),
    {
        self.inner.cell.update(f)
    }
}

} // verus!
