//! The subscribers of a cell: callbacks and listener objects, held strongly
//! or weakly.

use std::rc::Rc;
use vstd::prelude::*;

verus! {

/// An object that wants to hear of the values of a cell.
pub trait Listener<T> {
    /// Hears of the value that a cell has just taken.
    fn receive(&self, v: &T);
}

impl<V, T: ?Sized + Listener<V>> Listener<V> for &T {
    /// A reference to a listener listens for it.
    fn receive(&self, v: &V) {
        (**self).receive(v)
    }
}

impl<V, T: ?Sized + Listener<V>> Listener<V> for Box<T> {
    /// A boxed listener listens for what is in the box.
    fn receive(&self, v: &V) {
        (**self).receive(v)
    }
}

impl<V, T: ?Sized + Listener<V>> Listener<V> for Rc<T> {
    /// A shared listener listens for what it shares.
    fn receive(&self, v: &V) {
        (**self).receive(v)
    }
}

/// A reference to a listener of type `L` that does not keep the listener
/// alive. It holds a `std::rc::Weak`.
#[verifier::external_body]
#[verifier::reject_recursive_types(L)]
pub struct WeakListener<L: ?Sized> {
    inner: std::rc::Weak<L>,
}

/// `Rc::downgrade`: a reference to `listener` that does not own it.
#[verifier::external_body]
fn rc_downgrade<L: ?Sized>(listener: &Rc<L>) -> (weak: WeakListener<L>) {
    WeakListener { inner: Rc::downgrade(listener) }
}

/// `Weak::upgrade`: the listener behind `weak`, unless its last owner has
/// dropped it. Whether it has is not known here, so nothing is claimed.
#[verifier::external_body]
fn weak_upgrade<L: ?Sized>(weak: &WeakListener<L>) -> (listener: Option<Rc<L>>) {
    weak.inner.upgrade()
}

impl<L: ?Sized> WeakListener<L> {
    /// A weak reference to `listener`; what it holds lies outside what is proved here.
    pub fn downgrade(listener: &Rc<L>) -> (weak: WeakListener<L>) {
        rc_downgrade(listener)
    }

    /// The listener, if an owner still lives: the owners decide, [`offer`] takes either answer.
    pub fn upgrade(&self) -> (listener: Option<Rc<L>>) {
        weak_upgrade(self)
    }
}

/// A subscriber that the cell owns: a callback of type `F` or a listener
/// object of type `L`.
pub enum Strong<F, L: ?Sized> {
    /// A plain callback.
    Callback(F),
    /// A listener object, shared with whoever else owns it.
    Listener(Rc<L>),
}

/// A subscriber that the cell does not keep alive: a callback of type `W`
/// or a listener object of type `L`.
#[verifier::reject_recursive_types(L)]
pub enum Weak<W, L: ?Sized> {
    /// A callback whose answer says whether it wants to hear more.
    Callback(W),
    /// A listener object owned by somebody else.
    Listener(WeakListener<L>),
}

impl<F, L: ?Sized> Strong<F, L> {
    /// The subscriber can be handed any value of type `T`.
    pub open spec fn accepts_all<T>(self) -> bool where F: FnMut(&T) {
        self matches Strong::Callback(f) ==> forall|v: T| call_requires(f, (&v,))
    }

    /// Whether the subscriber may have been handed `value`: a callback has
    /// returned from a call with it. Of a listener object nothing is known.
    pub open spec fn served<T>(self, value: T) -> bool where F: FnMut(&T) {
        match self {
            Strong::Callback(f) => call_ensures(f, (&value,), ()),
            Strong::Listener(_) => true,
        }
    }

    /// Hands `v` to the subscriber.
    pub fn receive<T>(&mut self, v: &T) where F: FnMut(&T), L: Listener<T>
        requires
            old(self).accepts_all::<T>(),
        ensures
            old(self).served(*v),
            *final(self) == *old(self),
    {
        match self {
            Strong::Callback(f) => f(v),
            Strong::Listener(l) => l.receive(v),
        }
    }
}

impl<W, L: ?Sized> Weak<W, L> {
    /// The subscriber can be handed any value of type `T`.
    pub open spec fn accepts_all<T>(self) -> bool where W: FnMut(&T) -> bool {
        self matches Weak::Callback(f) ==> forall|v: T| call_requires(f, (&v,))
    }

    /// Whether `keep` is an answer that the subscriber may give when it is
    /// offered `value`. A callback answers for itself; a listener object
    /// stays exactly if it is still alive, which cannot be told from here.
    pub open spec fn may_answer<T>(self, value: T, keep: bool) -> bool where W: FnMut(&T) -> bool {
        match self {
            Weak::Callback(f) => call_ensures(f, (&value,), keep),
            Weak::Listener(_) => true,
        }
    }

    /// Offers `v` to the subscriber and returns whether it stays. A callback
    /// is invoked and decides; a listener object is looked up first, hears of
    /// `v` if it is still alive, and leaves otherwise.
    pub fn deliver<T>(&mut self, v: &T) -> (keep: bool) where W: FnMut(&T) -> bool, L: Listener<T>
        requires
            old(self).accepts_all::<T>(),
        ensures
            old(self).may_answer(*v, keep),
            *final(self) == *old(self),
    {
        match self {
            Weak::Callback(f) => f(v),
            Weak::Listener(weak) => offer(weak.upgrade(), v),
        }
    }
}

/// Hands `v` to a listener object that has been looked up, if the lookup
/// found it alive, and returns whether it did.
pub fn offer<T, L: ?Sized + Listener<T>>(listener: Option<Rc<L>>, v: &T) -> (alive: bool)
    ensures
        alive == (listener is Some),
{
    match listener {
        Some(l) => {
            l.receive(v);
            true
        },
        None => false,
    }
}

} // verus!
