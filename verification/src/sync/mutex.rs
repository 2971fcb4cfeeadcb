//! An asynchronous mutual-exclusion lock for cooperatively scheduled tasks.
//!
//! The lock never blocks. A task that finds it taken parks its wake
//! capability in a slot of the lock's table and suspends; releasing the lock
//! wakes one parked task, which polls again and races with everybody else.

use crate::sync::slots::{SlotTable, Slots, WakerCell};
use crate::task::Poll;
use std::task::Waker;
use vstd::prelude::*;

verus! {

/// The mathematical content of a lock: the flag, the slot table of the
/// waiters, and the protected value.
pub struct MutexState<T> {
    pub locked: bool,
    pub slots: Slots,
    pub value: T,
}

impl<T> MutexState<T> {
    /// A lock that nobody holds and nobody waits for.
    pub open spec fn fresh(value: T) -> MutexState<T> {
        MutexState { locked: false, slots: Slots::empty(), value }
    }

    /// The slot table is well formed.
    pub open spec fn wf(self) -> bool {
        self.slots.wf()
    }

    /// An acquire operation with this key belongs to the lock: it has no key
    /// yet, or its key is borrowed from the lock's table.
    pub open spec fn holds(self, key: Option<usize>) -> bool {
        key matches Some(k) ==> self.slots.in_use(k)
    }

    /// The lock after it has been claimed by an operation that suspended
    /// with `key`: the flag is set and the key, if any, is returned.
    pub open spec fn acquired(self, key: Option<usize>) -> MutexState<T> {
        MutexState {
            locked: true,
            slots: match key {
                Some(k) => self.slots.released(k),
                None => self.slots,
            },
            value: self.value,
        }
    }

    /// The key under which an operation that arrives with `key` suspends:
    /// the one it has, or the next key of the table.
    pub open spec fn parked_key(self, key: Option<usize>) -> usize {
        match key {
            Some(k) => k,
            None => self.slots.next_key(),
        }
    }

    /// The slot table once an operation that arrives with `key` is sure to
    /// have a slot.
    pub open spec fn seated(self, key: Option<usize>) -> Slots {
        match key {
            Some(_) => self.slots,
            None => self.slots.assigned(),
        }
    }

    /// The lock after an operation that arrived with `key` has suspended,
    /// leaving `held` in its slot.
    pub open spec fn parked(self, key: Option<usize>, held: Waker) -> MutexState<T> {
        MutexState {
            locked: self.locked,
            slots: self.seated(key).stored(self.parked_key(key), held),
            value: self.value,
        }
    }

    /// `after` is the lock after an operation that arrived with `key` has
    /// suspended with `waker`: it has a slot, and a capability for the task
    /// behind `waker` is registered there.
    pub open spec fn suspended(self, key: Option<usize>, waker: Waker, after: MutexState<T>) -> bool {
        &&& after.locked == self.locked
        &&& after.value == self.value
        &&& self.seated(key).registered(self.parked_key(key), waker, after.slots)
    }

    /// The lock after an operation with `key` has been abandoned before it
    /// resolved: its key, if any, is returned.
    pub open spec fn abandoned(self, key: Option<usize>) -> MutexState<T> {
        MutexState {
            locked: self.locked,
            slots: match key {
                Some(k) => self.slots.released(k),
                None => self.slots,
            },
            value: self.value,
        }
    }

    /// The lock after its guard has been given up: the flag is clear and one
    /// waiter, the first in index order, has been woken.
    pub open spec fn unlocked(self) -> MutexState<T> {
        MutexState { locked: false, slots: self.slots.woken(), value: self.value }
    }

    /// The lock with another protected value.
    pub open spec fn with_value(self, value: T) -> MutexState<T> {
        MutexState { locked: self.locked, slots: self.slots, value }
    }
}

/// A mutual-exclusion lock around a value of type `T`.
pub struct Mutex<T> {
    locked: bool,
    waiters: SlotTable,
    inner: T,
}

/// One attempt to acquire a [`Mutex`]: a suspendable operation that resolves
/// to a [`MutexGuard`].
pub struct MutexLockFuture {
    key: Option<usize>,
    terminated: bool,
}

/// The proof of having acquired a [`Mutex`]. Giving it up releases the lock.
pub struct MutexGuard {
    token: (),
}

impl<T> View for Mutex<T> {
    type V = MutexState<T>;

    closed spec fn view(&self) -> MutexState<T> {
        MutexState { locked: self.locked, slots: self.waiters@, value: self.inner }
    }
}

impl<T> Mutex<T> {
    /// The table of waiters lists no index as vacant twice.
    pub closed spec fn listed_once(&self) -> bool {
        self.waiters.listed_once()
    }

    /// The lock is well formed: its content is, and so is the way the table
    /// of waiters is stored.
    pub open spec fn wf(&self) -> bool {
        &&& self@.wf()
        &&& self.listed_once()
    }

    /// Creates an unlocked lock around `t`.
    pub fn new(t: T) -> (mutex: Mutex<T>)
        ensures
            mutex.wf(),
            mutex@ == MutexState::fresh(t),
    {
        Mutex { locked: false, waiters: SlotTable::new(), inner: t }
    }

    /// Exclusive access to the protected value. Whoever has the lock itself
    /// exclusively needs no guard.
    pub fn get_mut(&mut self) -> (value: &mut T)
        ensures
            *value == old(self)@.value,
            final(self)@ == old(self)@.with_value(*final(value)),
            old(self).wf() ==> final(self).wf(),
    {
        &mut self.inner
    }

    /// Takes the lock apart and returns the protected value.
    pub fn into_inner(self) -> (value: T)
        ensures
            value == self@.value,
    {
        self.inner
    }

    /// Whether the lock is currently held.
    pub fn is_locked(&self) -> (locked: bool)
        ensures
            locked == self@.locked,
    {
        self.locked
    }

    /// The number of slots in the table of waiters, vacant ones included.
    pub fn capacity(&self) -> (n: usize)
        ensures
            n == self@.slots.cells.len(),
    {
        self.waiters.len()
    }

    /// Claims the lock if it is free, without suspending. A lock that is
    /// held refuses at once and is left as it was.
    pub fn try_lock(&mut self) -> (guard: Option<MutexGuard>)
        ensures
            guard is Some <==> !old(self)@.locked,
            final(self)@ == old(self)@.acquired(None),
            old(self).wf() ==> final(self).wf(),
    {
        if self.locked {
            None
        } else {
            self.locked = true;
            Some(MutexGuard { token: () })
        }
    }

    /// Starts an attempt to acquire the lock. The attempt holds no slot
    /// until it is polled while the lock is held.
    pub fn lock(&self) -> (attempt: MutexLockFuture)
        ensures
            attempt.key() is None,
            !attempt.terminated(),
    {
        MutexLockFuture { key: None, terminated: false }
    }
}

impl MutexLockFuture {
    /// The key of the slot that the attempt has borrowed, if any.
    pub closed spec fn key(&self) -> Option<usize> {
        self.key
    }

    /// Whether the attempt has resolved.
    pub closed spec fn terminated(&self) -> bool {
        self.terminated
    }

    /// Whether the attempt has resolved. A resolved attempt must not be
    /// polled again.
    pub fn is_terminated(&self) -> (done: bool)
        ensures
            done == self.terminated(),
    {
        self.terminated
    }

    /// Polls the attempt once. If the lock is free, the attempt claims it,
    /// returns the slot it was holding and resolves with a guard. If the
    /// lock is held, the attempt makes sure it has a slot, parks a
    /// capability for the task behind `waker` there and suspends.
    pub fn poll<T>(&mut self, mutex: &mut Mutex<T>, waker: &Waker) -> (outcome: Poll<MutexGuard>)
        requires
            old(mutex).wf(),
            !old(self).terminated(),
            old(mutex)@.holds(old(self).key()),
        ensures
            final(mutex).wf(),
            final(mutex)@.holds(final(self).key()),
            !old(mutex)@.locked ==> {
                &&& outcome is Ready
                &&& final(self).terminated()
                &&& final(self).key() is None
                &&& final(mutex)@ == old(mutex)@.acquired(old(self).key())
            },
            old(mutex)@.locked ==> {
                &&& outcome is Pending
                &&& !final(self).terminated()
                &&& final(self).key() == Some(old(mutex)@.parked_key(old(self).key()))
                &&& old(mutex)@.suspended(old(self).key(), *waker, final(mutex)@)
                &&& old(self).key() is None && !(old(mutex)@.slots.free =~= Set::empty())
                    ==> old(mutex)@.slots.is_least_free(old(mutex)@.slots.next_key())
                &&& old(self).key() is None && old(mutex)@.slots.free =~= Set::empty()
                    ==> old(mutex)@.slots.next_key() == old(mutex)@.slots.cells.len()
            },
    {
        if !mutex.locked {
            mutex.locked = true;
            match self.key {
                Some(key) => {
                    mutex.waiters.release(key);
                },
                None => {},
            }
            self.key = None;
            self.terminated = true;
            Poll::Ready(MutexGuard { token: () })
        } else {
            let key = match self.key {
                Some(key) => key,
                None => mutex.waiters.assign(),
            };
            mutex.waiters.register(key, waker);
            self.key = Some(key);
            Poll::Pending
        }
    }

    /// Abandons the attempt before it has resolved: the slot it was holding,
    /// if any, is emptied and returned to the table.
    pub fn cancel<T>(self, mutex: &mut Mutex<T>)
        requires
            old(mutex).wf(),
            old(mutex)@.holds(self.key()),
        ensures
            final(mutex).wf(),
            final(mutex)@ == old(mutex)@.abandoned(self.key()),
    {
        match self.key {
            Some(key) => {
                mutex.waiters.release(key);
            },
            None => {},
        }
    }
}

impl MutexGuard {
    /// Gives the guard up: the lock is free again, and the first waiter in
    /// index order, if there is one, is woken and its slot emptied. Returns
    /// whether a waiter was woken.
    pub fn unlock<T>(self, mutex: &mut Mutex<T>) -> (woken: bool)
        requires
            old(mutex).wf(),
            old(mutex)@.locked,
        ensures
            final(mutex).wf(),
            final(mutex)@ == old(mutex)@.unlocked(),
            woken == (old(mutex)@.slots.first_populated() is Some),
    {
        mutex.locked = false;
        mutex.waiters.wake_first()
    }

    /// The protected value of the lock that the guard was obtained from.
    pub fn get<'a, T>(&self, mutex: &'a Mutex<T>) -> (value: &'a T)
        requires
            mutex@.locked,
        ensures
            *value == mutex@.value,
    {
        &mutex.inner
    }

    /// Mutable access to the protected value of the lock that the guard was
    /// obtained from.
    pub fn get_mut<'a, T>(&mut self, mutex: &'a mut Mutex<T>) -> (value: &'a mut T)
        requires
            old(mutex)@.locked,
        ensures
            *value == old(mutex)@.value,
            final(mutex)@ == old(mutex)@.with_value(*final(value)),
            old(mutex).wf() ==> final(mutex).wf(),
    {
        &mut mutex.inner
    }
}


/// A lock after an operation has suspended is the lock with what the
/// operation left in its slot `parked` there.
pub proof fn lemma_suspended_is_parked<T>(
    before: MutexState<T>,
    key: Option<usize>,
    waker: Waker,
    after: MutexState<T>,
)
    requires
        before.suspended(key, waker, after),
    ensures
        after.slots.cells[before.parked_key(key) as int] matches WakerCell::Init(held) && after
            == before.parked(key, held),
{
}

/// The lock after one attempt has been started, has suspended leaving `held`
/// in its slot, and has then been abandoned.
pub open spec fn churned_once<T>(state: MutexState<T>, held: Waker) -> MutexState<T> {
    state.parked(None, held).abandoned(Some(state.parked_key(None)))
}

/// The lock after as many such abandoned attempts as `helds` has entries, one
/// after the other.
pub open spec fn churned<T>(state: MutexState<T>, helds: Seq<Waker>) -> MutexState<T>
    decreases helds.len(),
{
    if helds.len() == 0 {
        state
    } else {
        churned_once(churned(state, helds.drop_last()), helds.last())
    }
}

/// An attempt that is started and abandoned before it resolves leaves the
/// table with the same keys in use and with a vacant slot, and the table has
/// grown by one slot only if it had no vacant slot before.
pub proof fn lemma_abandoned_attempt_returns_slot<T>(state: MutexState<T>, held: Waker)
    requires
        state.wf(),
        state.slots.free =~= Set::empty() ==> state.slots.cells.len() < usize::MAX,
    ensures
        churned_once(state, held).wf(),
        churned_once(state, held).locked == state.locked,
        churned_once(state, held).value == state.value,
        forall|k: usize| churned_once(state, held).slots.in_use(k) <==> state.slots.in_use(k),
        !(churned_once(state, held).slots.free =~= Set::empty()),
        churned_once(state, held).slots.cells.len() == if state.slots.free =~= Set::empty() {
            state.slots.cells.len() + 1
        } else {
            state.slots.cells.len()
        },
{
    let key = state.parked_key(None);
    let after = churned_once(state, held);
    if !(state.slots.free =~= Set::empty()) {
        crate::sync::slots::lemma_least_free_exists(state.slots);
    }
    assert(after.slots.free.contains(key));
    assert(after.slots.free =~= state.slots.free.insert(key));
    assert(!state.slots.in_use(key));
    assert forall|k: usize| after.slots.in_use(k) <==> state.slots.in_use(k) by {
        if k != key {
            assert(after.slots.free.contains(k) <==> state.slots.free.contains(k));
        }
    }
}

/// Starting and abandoning any number of attempts does not leak slots: the
/// keys in use stay the same and the table grows by one slot at most, so the
/// flag alone decides whether the next attempt acquires the lock.
pub proof fn lemma_abandoned_attempts_do_not_leak<T>(state: MutexState<T>, helds: Seq<Waker>)
    requires
        state.wf(),
        state.slots.free =~= Set::empty() ==> state.slots.cells.len() < usize::MAX,
    ensures
        churned(state, helds).wf(),
        churned(state, helds).locked == state.locked,
        churned(state, helds).value == state.value,
        forall|k: usize| churned(state, helds).slots.in_use(k) <==> state.slots.in_use(k),
        state.slots.cells.len() <= churned(state, helds).slots.cells.len()
            <= state.slots.cells.len() + 1,
        !(state.slots.free =~= Set::empty()) ==> churned(state, helds).slots.cells.len()
            == state.slots.cells.len(),
        helds.len() > 0 ==> !(churned(state, helds).slots.free =~= Set::empty()),
        !churned(state, helds).unlocked().locked,
    decreases helds.len(),
{
    if helds.len() > 0 {
        let before = churned(state, helds.drop_last());
        lemma_abandoned_attempts_do_not_leak(state, helds.drop_last());
        lemma_abandoned_attempt_returns_slot(before, helds.last());
    }
}

} // verus!
