//! The slot table: a reusable, indexed registry of pending wake capabilities.
//!
//! Every suspended acquire operation of a lock borrows one slot, identified by
//! a stable integer key, and parks its wake capability there. A key that has
//! been handed out is never handed out again until its borrower returns it.

use std::task::Waker;
use vstd::prelude::*;

verus! {

/// One slot of the table: empty, or holding the wake capability of a waiter.
pub enum WakerCell {
    /// No capability is stored.
    Uninit,
    /// The capability of a suspended task.
    Init(Waker),
}

impl WakerCell {
    /// Stores a capability for the task behind `waker`. An empty cell receives
    /// a copy of `waker`; a populated one keeps what it has when that already
    /// wakes the same task, and receives a copy otherwise.
    pub fn register(&mut self, waker: &Waker)
        ensures
            *final(self) is Init,
            *old(self) is Uninit ==> cloned(*waker, final(self)->Init_0),
            *old(self) is Init ==> *final(self) == *old(self) || cloned(
                *waker,
                final(self)->Init_0,
            ),
    {
        let replace = match self {
            WakerCell::Uninit => true,
            WakerCell::Init(current) => !current.will_wake(waker),
        };
        if replace {
            *self = WakerCell::Init(waker.clone());
        }
    }

    /// Empties the cell and invokes the capability that was in it, if any.
    /// Returns whether there was one.
    pub fn wake(&mut self) -> (woken: bool)
        ensures
            *final(self) == WakerCell::Uninit,
            woken == (*old(self) is Init),
    {
        let mut taken = WakerCell::Uninit;
        core::mem::swap(self, &mut taken);
        match taken {
            WakerCell::Init(waker) => {
                waker.wake();
                true
            },
            WakerCell::Uninit => false,
        }
    }
}

/// The mathematical content of a slot table: the cells in index order, and
/// the set of indices that are currently vacant.
pub struct Slots {
    pub cells: Seq<WakerCell>,
    pub free: Set<usize>,
}

impl Slots {
    /// The table without any slot.
    pub open spec fn empty() -> Slots {
        Slots { cells: Seq::empty(), free: Set::empty() }
    }

    /// The table has no more slots than can be counted, and every vacant
    /// index lies inside the table and its cell is empty.
    pub open spec fn wf(self) -> bool {
        &&& self.cells.len() <= usize::MAX
        &&& self.free.finite()
        &&& forall|k: usize| #[trigger]
            self.free.contains(k) ==> k < self.cells.len() && self.cells[k as int] is Uninit
    }

    /// Whether `key` is currently borrowed by a waiter.
    pub open spec fn in_use(self, key: usize) -> bool {
        key < self.cells.len() && !self.free.contains(key)
    }

    /// Whether the cell at `index` holds a capability.
    pub open spec fn populated(self, index: int) -> bool {
        0 <= index < self.cells.len() && self.cells[index] is Init
    }

    /// Whether `key` is the smallest vacant index.
    pub open spec fn is_least_free(self, key: usize) -> bool {
        self.free.contains(key) && forall|j: usize| self.free.contains(j) ==> key <= j
    }

    /// The key that the next borrower receives: the smallest vacant index,
    /// and the index just past the end when no index is vacant.
    pub open spec fn next_key(self) -> usize {
        if self.free =~= Set::empty() {
            self.cells.len() as usize
        } else {
            choose|key: usize| self.is_least_free(key)
        }
    }

    /// The table after `next_key()` has been handed out: the key leaves the
    /// vacant set or, when nothing was vacant, the table grows by one empty
    /// cell.
    pub open spec fn assigned(self) -> Slots {
        if self.free =~= Set::empty() {
            Slots { cells: self.cells.push(WakerCell::Uninit), free: self.free }
        } else {
            Slots { cells: self.cells, free: self.free.remove(self.next_key()) }
        }
    }

    /// The table after the cell at `key` has been set to hold `waker`.
    pub open spec fn stored(self, key: usize, waker: Waker) -> Slots {
        Slots { cells: self.cells.update(key as int, WakerCell::Init(waker)), free: self.free }
    }

    /// `after` is the table after a capability for the task behind `waker`
    /// has been registered under `key`: the cell holds a copy of `waker`, or
    /// still what it held before, and nothing else has changed.
    pub open spec fn registered(self, key: usize, waker: Waker, after: Slots) -> bool {
        after.cells[key as int] matches WakerCell::Init(held) && after == self.stored(key, held)
            && (cloned(waker, held) || self.cells[key as int] == WakerCell::Init(held))
    }

    /// The table after the borrower of `key` has returned it: the cell is
    /// emptied and the index is vacant again.
    pub open spec fn released(self, key: usize) -> Slots {
        Slots {
            cells: self.cells.update(key as int, WakerCell::Uninit),
            free: self.free.insert(key),
        }
    }

    /// Whether `index` is the first populated cell in index order.
    pub open spec fn is_first_populated(self, index: int) -> bool {
        self.populated(index) && forall|j: int| 0 <= j < index ==> !self.populated(j)
    }

    /// The first populated cell in index order, if any cell is populated.
    pub open spec fn first_populated(self) -> Option<int> {
        if exists|i: int| self.populated(i) {
            Some(choose|i: int| self.is_first_populated(i))
        } else {
            None
        }
    }

    /// The table after one waiter has been woken: the first populated cell
    /// is emptied, and a table without a populated cell stays as it is.
    pub open spec fn woken(self) -> Slots {
        match self.first_populated() {
            Some(i) => Slots { cells: self.cells.update(i, WakerCell::Uninit), free: self.free },
            None => self,
        }
    }
}

/// A key that `is_least_free` is the one that `next_key` names.
pub proof fn lemma_next_key_is_least(slots: Slots, key: usize)
    requires
        slots.is_least_free(key),
    ensures
        slots.next_key() == key,
        !(slots.free =~= Set::empty()),
{
    assert(slots.free.contains(key));
    let chosen = choose|k: usize| slots.is_least_free(k);
    assert(slots.is_least_free(chosen));
    assert(chosen <= key && key <= chosen);
}

/// Among the vacant indices of a well-formed table there is a smallest one.
pub proof fn lemma_least_free_exists(slots: Slots)
    requires
        slots.wf(),
        !(slots.free =~= Set::empty()),
    ensures
        slots.is_least_free(slots.next_key()),
        slots.next_key() < slots.cells.len(),
{
    let witness = choose|k: usize| slots.free.contains(k);
    assert(slots.free.contains(witness)) by {
        if forall|k: usize| !slots.free.contains(k) {
            assert(slots.free =~= Set::empty());
        }
    }
    lemma_least_below(slots, witness, witness as nat);
    let least = choose|k: usize| slots.is_least_free(k);
    assert(slots.is_least_free(least));
}

/// Searching downwards from a vacant index `from` finds the smallest vacant
/// index.
proof fn lemma_least_below(slots: Slots, from: usize, fuel: nat)
    requires
        slots.free.contains(from),
        fuel == from,
    ensures
        exists|k: usize| slots.is_least_free(k),
    decreases fuel,
{
    if forall|j: usize| slots.free.contains(j) ==> from <= j {
        assert(slots.is_least_free(from));
    } else {
        let smaller = choose|j: usize| slots.free.contains(j) && !(from <= j);
        lemma_least_below(slots, smaller, smaller as nat);
    }
}

/// An index that `is_first_populated` is the one that `first_populated` names.
pub proof fn lemma_first_populated_is(slots: Slots, index: int)
    requires
        slots.is_first_populated(index),
    ensures
        slots.first_populated() == Some(index),
{
    assert(slots.populated(index));
    let chosen = choose|i: int| slots.is_first_populated(i);
    assert(slots.is_first_populated(chosen));
    assert(!(chosen < index));
    assert(!(index < chosen));
}

/// A table without a populated cell has no first populated cell.
pub proof fn lemma_first_populated_none(slots: Slots)
    requires
        forall|i: int| 0 <= i < slots.cells.len() ==> slots.cells[i] is Uninit,
    ensures
        slots.first_populated() is None,
        slots.woken() == slots,
{
    assert(forall|i: int| !slots.populated(i));
}


/// Searching downwards from a populated cell finds the first populated cell.
proof fn lemma_first_below(slots: Slots, from: int)
    requires
        slots.populated(from),
    ensures
        exists|i: int| slots.is_first_populated(i),
    decreases from,
{
    if forall|j: int| 0 <= j < from ==> !slots.populated(j) {
        assert(slots.is_first_populated(from));
    } else {
        let earlier = choose|j: int| 0 <= j < from && slots.populated(j);
        lemma_first_below(slots, earlier);
    }
}

/// What `first_populated` names is the first populated cell, and it names
/// one whenever a cell is populated.
pub proof fn lemma_first_populated(slots: Slots)
    ensures
        slots.first_populated() matches Some(i) ==> slots.is_first_populated(i),
        slots.first_populated() is None ==> forall|i: int| !slots.populated(i),
{
    if exists|i: int| slots.populated(i) {
        let some = choose|i: int| slots.populated(i);
        lemma_first_below(slots, some);
    }
}

/// Waking a waiter changes neither the size of the table nor which indices
/// are vacant, and leaves the table well formed. It empties one cell at
/// most: the first populated one; every other cell is as before.
pub proof fn lemma_woken_keeps_keys(slots: Slots)
    requires
        slots.wf(),
    ensures
        slots.woken().wf(),
        slots.woken().free == slots.free,
        slots.woken().cells.len() == slots.cells.len(),
        forall|k: usize| slots.woken().in_use(k) <==> slots.in_use(k),
        forall|j: int|
            0 <= j < slots.cells.len() && slots.first_populated() != Some(j)
                ==> #[trigger] slots.woken().cells[j] == slots.cells[j],
        slots.first_populated() matches Some(i) ==> slots.woken().cells[i] is Uninit,
{
    lemma_first_populated(slots);
}

/// The key that is handed out next is not in use, and handing it out
/// changes nothing for the keys that are: no key is handed out again before
/// its borrower has returned it.
pub proof fn lemma_assigned_key_is_fresh(slots: Slots)
    requires
        slots.wf(),
        slots.free =~= Set::empty() ==> slots.cells.len() < usize::MAX,
    ensures
        !slots.in_use(slots.next_key()),
        slots.assigned().wf(),
        slots.assigned().in_use(slots.next_key()),
        slots.assigned().cells[slots.next_key() as int] is Uninit,
        forall|k: usize| slots.in_use(k) ==> slots.assigned().in_use(k),
        forall|k: usize| slots.assigned().in_use(k) ==> k == slots.next_key() || slots.in_use(k),
{
    if !(slots.free =~= Set::empty()) {
        lemma_least_free_exists(slots);
    }
}

/// Returning a key makes that key vacant and changes nothing for the other
/// keys: a key comes back to the table exactly when its borrower returns
/// it.
pub proof fn lemma_released_key_is_vacant(slots: Slots, key: usize)
    requires
        slots.wf(),
        slots.in_use(key),
    ensures
        slots.released(key).wf(),
        !slots.released(key).in_use(key),
        slots.released(key).free.contains(key),
        slots.released(key).cells.len() == slots.cells.len(),
        forall|k: usize| k != key ==> (slots.released(key).in_use(k) <==> slots.in_use(k)),
{
}

/// Removing the element at position `i` of a duplicate-free sequence by
/// moving the last element into its place removes exactly that element.
proof fn lemma_swap_remove_set(s: Seq<usize>, i: int)
    requires
        s.no_duplicates(),
        0 <= i < s.len(),
    ensures
        s.update(i, s.last()).drop_last().no_duplicates(),
        s.update(i, s.last()).drop_last().to_set() =~= s.to_set().remove(s[i]),
{
    let t = s.update(i, s.last()).drop_last();
    assert forall|x: usize| t.to_set().contains(x) <==> s.to_set().remove(s[i]).contains(x) by {
        if t.to_set().contains(x) {
            let j = choose|j: int| 0 <= j < t.len() && t[j] == x;
            if j == i {
                assert(s[s.len() - 1] == x);
            } else {
                assert(s[j] == x);
            }
        }
        if s.to_set().remove(s[i]).contains(x) {
            let j = choose|j: int| 0 <= j < s.len() && s[j] == x;
            if j < s.len() - 1 {
                assert(t[j] == x);
            } else {
                assert(t[i] == x);
            }
        }
    }
}

/// A slot table: the cells in index order, and the list of vacated indices.
pub struct SlotTable {
    wakers: Vec<WakerCell>,
    empty_wakers: Vec<usize>,
}

impl View for SlotTable {
    type V = Slots;

    closed spec fn view(&self) -> Slots {
        Slots { cells: self.wakers@, free: self.empty_wakers@.to_set() }
    }
}

impl SlotTable {
    /// No index is listed as vacant twice.
    pub closed spec fn listed_once(&self) -> bool {
        self.empty_wakers@.no_duplicates()
    }

    /// The table is well formed: its content is, and no index is listed as
    /// vacant twice.
    pub open spec fn wf(&self) -> bool {
        &&& self@.wf()
        &&& self.listed_once()
    }

    /// Creates a table without any slot.
    pub fn new() -> (table: SlotTable)
        ensures
            table.wf(),
            table@ == Slots::empty(),
    {
        let table = SlotTable { wakers: Vec::new(), empty_wakers: Vec::new() };
        assert(table.empty_wakers@.to_set() =~= Set::empty());
        table
    }

    /// The number of slots, vacant ones included.
    pub fn len(&self) -> (n: usize)
        ensures
            n == self@.cells.len(),
    {
        self.wakers.len()
    }

    /// Hands out a key: the smallest vacant index, or a new slot at the end
    /// when no index is vacant. The slot behind the key is empty.
    pub fn assign(&mut self) -> (key: usize)
        requires
            old(self).wf(),
        ensures
            final(self).wf(),
            key == old(self)@.next_key(),
            final(self)@ == old(self)@.assigned(),
            old(self)@.free =~= Set::empty() ==> key == old(self)@.cells.len(),
            !(old(self)@.free =~= Set::empty()) ==> old(self)@.is_least_free(key),
            !old(self)@.in_use(key),
            final(self)@.in_use(key),
            final(self)@.cells[key as int] is Uninit,
    {
        if self.empty_wakers.len() == 0 {
            let key = self.wakers.len();
            assert(self.empty_wakers@.to_set() =~= Set::empty());
            self.wakers.push(WakerCell::Uninit);
            assert(self.wakers@.len() == self.wakers.len());
            key
        } else {
            let mut best: usize = 0;
            let mut i: usize = 1;
            while i < self.empty_wakers.len()
                invariant
                    best < i <= self.empty_wakers.len(),
                    forall|j: int| 0 <= j < i ==> self.empty_wakers[best as int] <= self.empty_wakers[j],
                decreases self.empty_wakers.len() - i,
            {
                if self.empty_wakers[i] < self.empty_wakers[best] {
                    best = i;
                }
                i += 1;
            }
            proof {
                let listed = self.empty_wakers@;
                assert(listed.to_set().contains(listed[best as int]));
                lemma_next_key_is_least(self@, listed[best as int]);
                lemma_swap_remove_set(listed, best as int);
                assert(self@.cells[listed[best as int] as int] is Uninit);
            }
            let key = self.empty_wakers.swap_remove(best);
            key
        }
    }

    /// Stores a capability for the task behind `waker` in the slot of `key`.
    /// An empty slot receives a copy of `waker`; a populated one keeps what
    /// it has when that already wakes the same task.
    pub fn register(&mut self, key: usize, waker: &Waker)
        requires
            old(self).wf(),
            old(self)@.in_use(key),
        ensures
            final(self).wf(),
            old(self)@.registered(key, *waker, final(self)@),
    {
        self.wakers[key].register(waker);
        proof {
            let held = self.wakers@[key as int]->Init_0;
            assert(self.wakers@ =~= old(self).wakers@.update(key as int, WakerCell::Init(held)));
        }
    }

    /// Returns `key` to the table: its slot is emptied without waking, and
    /// the index is vacant again.
    pub fn release(&mut self, key: usize)
        requires
            old(self).wf(),
            old(self)@.in_use(key),
        ensures
            final(self).wf(),
            final(self)@ == old(self)@.released(key),
            !final(self)@.in_use(key),
    {
        self.wakers[key] = WakerCell::Uninit;
        proof {
            let listed = self.empty_wakers@;
            assert(!listed.to_set().contains(key));
            assert(listed.push(key).no_duplicates());
            assert(listed.push(key).to_set() =~= listed.to_set().insert(key)) by {
                assert forall|x: usize|
                    listed.push(key).to_set().contains(x) <==> listed.to_set().insert(
                        key,
                    ).contains(x) by {
                    if listed.push(key).to_set().contains(x) {
                        let j = choose|j: int| 0 <= j < listed.len() + 1 && listed.push(key)[j] == x;
                        if j < listed.len() {
                            assert(listed[j] == x);
                        }
                    }
                    if listed.to_set().insert(key).contains(x) {
                        if x == key {
                            assert(listed.push(key)[listed.len() as int] == x);
                        } else {
                            let j = choose|j: int| 0 <= j < listed.len() && listed[j] == x;
                            assert(listed.push(key)[j] == x);
                        }
                    }
                }
            }
        }
        self.empty_wakers.push(key);
    }

    /// Wakes one waiter: scans the slots in index order, and empties and
    /// invokes the first capability it finds. Returns whether it found one.
    pub fn wake_first(&mut self) -> (woken: bool)
        requires
            old(self).wf(),
        ensures
            final(self).wf(),
            final(self)@ == old(self)@.woken(),
            woken == (old(self)@.first_populated() is Some),
            old(self)@.first_populated() matches Some(i) ==> old(self)@.is_first_populated(i),
            old(self)@.first_populated() is None ==> forall|i: int| !old(self)@.populated(i),
    {
        let mut i: usize = 0;
        while i < self.wakers.len()
            invariant
                old(self).wf(),
                i <= self.wakers.len(),
                self.wakers@ == old(self).wakers@,
                self.empty_wakers@ == old(self).empty_wakers@,
                forall|j: int| 0 <= j < i ==> self.wakers[j] is Uninit,
            decreases self.wakers.len() - i,
        {
            let woken = self.wakers[i].wake();
            if woken {
                proof {
                    assert(self.wakers@ =~= old(self).wakers@.update(i as int, WakerCell::Uninit));
                    assert(old(self)@.is_first_populated(i as int));
                    lemma_first_populated_is(old(self)@, i as int);
                    lemma_first_populated(old(self)@);
                    assert(!old(self)@.free.contains(i));
                }
                return true;
            }
            assert(self.wakers@ =~= old(self).wakers@);
            i += 1;
        }
        proof {
            lemma_first_populated_none(old(self)@);
            lemma_first_populated(old(self)@);
        }
        false
    }
}

} // verus!
