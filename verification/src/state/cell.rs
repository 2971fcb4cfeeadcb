//! The cell itself: a value, its subscribers, and the notify pass.

use crate::state::pass::{
    examined, lemma_leavers_count, lemma_swept_all_stay, lemma_swept_len, pass, swept,
};
use crate::state::subscriber::{Listener, Strong, Weak, WeakListener};
use std::rc::Rc;
use vstd::prelude::*;

verus! {

/// The mathematical content of a cell: its value and its two lists of
/// subscribers, each in the order of registration.
#[verifier::reject_recursive_types(L)]
pub struct StateView<T, F, W, L: ?Sized> {
    pub value: T,
    pub strong: Seq<Strong<F, L>>,
    pub weak: Seq<Weak<W, L>>,
}

impl<T, F: FnMut(&T), W: FnMut(&T) -> bool, L: ?Sized> StateView<T, F, W, L> {
    /// A cell with `value` and without subscribers.
    pub open spec fn fresh(value: T) -> Self {
        StateView { value, strong: Seq::empty(), weak: Seq::empty() }
    }

    /// Every subscriber can be handed any value.
    pub open spec fn wf(self) -> bool {
        &&& forall|i: int| 0 <= i < self.strong.len() ==> (#[trigger] self.strong[i]).accepts_all::<T>()
        &&& forall|i: int| 0 <= i < self.weak.len() ==> (#[trigger] self.weak[i]).accepts_all::<T>()
    }

    /// The cell with another value.
    pub open spec fn with_value(self, value: T) -> Self {
        StateView { value, strong: self.strong, weak: self.weak }
    }

    /// The cell with one more strong subscriber.
    pub open spec fn with_strong(self, subscriber: Strong<F, L>) -> Self {
        StateView { value: self.value, strong: self.strong.push(subscriber), weak: self.weak }
    }

    /// The cell with one more weak subscriber.
    pub open spec fn with_weak(self, subscriber: Weak<W, L>) -> Self {
        StateView { value: self.value, strong: self.strong, weak: self.weak.push(subscriber) }
    }

    /// `after` is the cell after a notify pass in which the weak
    /// subscribers, in the order in which they were examined, gave
    /// `verdicts`: the value and the strong subscribers are as before, every
    /// strong subscriber has been handed the value, every verdict is an
    /// answer that the subscriber examined may give to the value, and the
    /// weak list is what the pass leaves.
    pub open spec fn notified_with(self, verdicts: Seq<bool>, after: Self) -> bool {
        &&& verdicts.len() == self.weak.len()
        &&& after.value == self.value
        &&& after.strong == self.strong
        &&& forall|i: int| 0 <= i < self.strong.len() ==> (#[trigger] self.strong[i]).served(self.value)
        &&& after.weak == swept(self.weak, verdicts)
        &&& forall|t: int|
            0 <= t < verdicts.len() ==> (#[trigger] examined(self.weak, verdicts, t)).may_answer(
                self.value,
                verdicts[t],
            )
    }

    /// `after` is the cell after one notify pass.
    pub open spec fn notified(self, after: Self) -> bool {
        exists|verdicts: Seq<bool>| self.notified_with(verdicts, after)
    }
}

/// When exactly one weak subscriber is gone or no longer interested at the
/// time of a notify pass, the weak list is shorter by one afterwards, and the
/// strong list and the value are as before.
pub proof fn lemma_one_subscriber_leaves<T, F: FnMut(&T), W: FnMut(&T) -> bool, L: ?Sized>(
    before: StateView<T, F, W, L>,
    verdicts: Seq<bool>,
    t: int,
    after: StateView<T, F, W, L>,
)
    requires
        before.notified_with(verdicts, after),
        0 <= t < verdicts.len(),
        !verdicts[t],
        forall|u: int| 0 <= u < verdicts.len() && u != t ==> verdicts[u],
    ensures
        after.weak.len() == before.weak.len() - 1,
        after.strong == before.strong,
        after.value == before.value,
{
    lemma_swept_len(before.weak, verdicts);
    lemma_leavers_count(verdicts, t);
}

/// When every weak subscriber stays, a notify pass leaves the cell as it
/// was, with the weak subscribers in the order of registration.
pub proof fn lemma_all_subscribers_stay<T, F: FnMut(&T), W: FnMut(&T) -> bool, L: ?Sized>(
    before: StateView<T, F, W, L>,
    verdicts: Seq<bool>,
    after: StateView<T, F, W, L>,
)
    requires
        before.notified_with(verdicts, after),
        forall|u: int| 0 <= u < verdicts.len() ==> verdicts[u],
    ensures
        after == before,
{
    lemma_swept_all_stay(before.weak, verdicts);
}


/// A cell that holds a value of type `T` and notifies its subscribers of
/// every change: callbacks of type `F` and listener objects of type `L`
/// that it owns, and callbacks of type `W` and listener objects of type `L`
/// that it does not keep alive.
#[verifier::reject_recursive_types(L)]
pub struct State<T, F, W, L: ?Sized> {
    inner: T,
    strong: Vec<Strong<F, L>>,
    weak: Vec<Weak<W, L>>,
}

impl<T, F, W, L: ?Sized> View for State<T, F, W, L> {
    type V = StateView<T, F, W, L>;

    closed spec fn view(&self) -> StateView<T, F, W, L> {
        StateView { value: self.inner, strong: self.strong@, weak: self.weak@ }
    }
}

impl<T, F: FnMut(&T), W: FnMut(&T) -> bool, L: ?Sized + Listener<T>> State<T, F, W, L> {
    /// Every subscriber of the cell can be handed any value.
    pub open spec fn wf(&self) -> bool {
        self@.wf()
    }

    /// Creates a cell with `v` and without subscribers.
    pub fn new(v: T) -> (cell: Self)
        ensures
            cell.wf(),
            cell@ == StateView::<T, F, W, L>::fresh(v),
    {
        State { inner: v, strong: Vec::new(), weak: Vec::new() }
    }

    /// A copy of the value.
    pub fn get(&self) -> (value: T) where T: Copy
        ensures
            value == self@.value,
    {
        self.inner
    }

    /// The value, on loan.
    pub fn value(&self) -> (value: &T)
        ensures
            *value == self@.value,
    {
        &self.inner
    }

    /// What `f` makes of the value.
    pub fn with<U, G: FnOnce(&T) -> U>(&self, f: G) -> (result: U)
        requires
            call_requires(f, (&self@.value,)),
        ensures
            call_ensures(f, (&self@.value,), result),
    {
        f(&self.inner)
    }

    /// The number of strong subscribers.
    pub fn strong_count(&self) -> (n: usize)
        ensures
            n == self@.strong.len(),
    {
        self.strong.len()
    }

    /// The number of weak subscribers.
    pub fn weak_count(&self) -> (n: usize)
        ensures
            n == self@.weak.len(),
    {
        self.weak.len()
    }

    /// Replaces the value by `v` and runs one notify pass.
    pub fn set(&mut self, v: T)
        requires
            old(self).wf(),
        ensures
            final(self).wf(),
            old(self)@.with_value(v).notified(final(self)@),
    {
        self.inner = v;
        assert(self@ == old(self)@.with_value(v));
        self.notify();
    }

    /// Replaces the value by `v`, runs one notify pass and returns the value
    /// that was replaced.
    pub fn replace(&mut self, v: T) -> (previous: T)
        requires
            old(self).wf(),
        ensures
            final(self).wf(),
            previous == old(self)@.value,
            old(self)@.with_value(v).notified(final(self)@),
    {
        let mut previous = v;
        core::mem::swap(&mut self.inner, &mut previous);
        assert(self@ == old(self)@.with_value(v));
        self.notify();
        previous
    }

    /// Replaces the value by the default of its type, runs one notify pass
    /// and returns the value that was replaced.
    pub fn take(&mut self) -> (previous: T) where T: Default
        requires
            old(self).wf(),
            call_requires(T::default, ()),
        ensures
            final(self).wf(),
            previous == old(self)@.value,
            call_ensures(T::default, (), final(self)@.value),
            old(self)@.with_value(final(self)@.value).notified(final(self)@),
    {
        self.replace(T::default())
    }

    /// Lets `f` change the value in place, then runs one notify pass, and
    /// returns what `f` returned.
    pub fn update<U, G: FnOnce(&mut T) -> U>(&mut self, f: G) -> (result: U)
        requires
            old(self).wf(),
            forall|x: &mut T| *x == old(self)@.value ==> call_requires(f, (x,)),
        ensures
            final(self).wf(),
            exists|x: &mut T|
                *x == old(self)@.value && *final(x) == final(self)@.value && call_ensures(
                    f,
                    (x,),
                    result,
                ),
            old(self)@.with_value(final(self)@.value).notified(final(self)@),
    {
        let result = f(&mut self.inner);
        assert(self@ == old(self)@.with_value(self.inner));
        self.notify();
        result
    }

    /// Adds a callback that the cell owns. It is served after the strong
    /// subscribers registered before it.
    pub fn register(&mut self, f: F)
        requires
            old(self).wf(),
            forall|v: T| call_requires(f, (&v,)),
        ensures
            final(self).wf(),
            final(self)@ == old(self)@.with_strong(Strong::Callback(f)),
    {
        self.strong.push(Strong::Callback(f));
    }

    /// Adds a callback that stays only as long as it answers `true`. It is
    /// served after the weak subscribers registered before it.
    pub fn register_weak(&mut self, f: W)
        requires
            old(self).wf(),
            forall|v: T| call_requires(f, (&v,)),
        ensures
            final(self).wf(),
            final(self)@ == old(self)@.with_weak(Weak::Callback(f)),
    {
        self.weak.push(Weak::Callback(f));
    }

    /// Adds a listener object that the cell shares in owning.
    pub fn bind(&mut self, sub: Rc<L>)
        requires
            old(self).wf(),
        ensures
            final(self).wf(),
            final(self)@ == old(self)@.with_strong(Strong::Listener(sub)),
    {
        self.strong.push(Strong::Listener(sub));
    }

    /// Adds a listener object that the cell does not keep alive. It leaves
    /// the cell in the first notify pass that finds it gone.
    pub fn bind_weak(&mut self, weak: WeakListener<L>)
        requires
            old(self).wf(),
        ensures
            final(self).wf(),
            final(self)@ == old(self)@.with_weak(Weak::Listener(weak)),
    {
        self.weak.push(Weak::Listener(weak));
    }

    /// One notify pass: every strong subscriber is handed the value, in the
    /// order of registration; then every weak subscriber is offered it, and
    /// one that does not stay is replaced by the last of the list.
    pub fn notify(&mut self)
        requires
            old(self).wf(),
        ensures
            final(self).wf(),
            old(self)@.notified(final(self)@),
    {
        let mut i: usize = 0;
        while i < self.strong.len()
            invariant
                self@ == old(self)@,
                self.wf(),
                i <= self.strong.len(),
                forall|k: int| 0 <= k < i ==> (#[trigger] self@.strong[k]).served(self.inner),
            decreases self.strong.len() - i,
        {
            assert(self@.strong[i as int].accepts_all::<T>());
            self.strong[i].receive(&self.inner);
            assert(self.strong@ =~= old(self).strong@);
            i += 1;
        }
        let ghost mut verdicts: Seq<bool> = Seq::empty();
        let mut j: usize = 0;
        while j < self.weak.len()
            invariant
                self.inner == old(self).inner,
                self.strong@ == old(self).strong@,
                old(self).wf(),
                forall|k: int|
                    0 <= k < old(self)@.strong.len() ==> (#[trigger] old(self)@.strong[k]).served(
                        self.inner,
                    ),
                j <= self.weak.len(),
                (self.weak@, j as int) == pass(old(self).weak@, verdicts),
                verdicts.len() + self.weak.len() - j == old(self).weak.len(),
                forall|k: int|
                    0 <= k < self@.weak.len() ==> (#[trigger] self@.weak[k]).accepts_all::<T>(),
                forall|t: int|
                    0 <= t < verdicts.len() ==> (#[trigger] examined(
                        old(self).weak@,
                        verdicts,
                        t,
                    )).may_answer(self.inner, verdicts[t]),
            decreases self.weak.len() - j,
        {
            let ghost before = self.weak@;
            let ghost prior = verdicts;
            assert(self@.weak[j as int].accepts_all::<T>());
            let keep = self.weak[j].deliver(&self.inner);
            proof {
                assert(self.weak@ =~= before);
                verdicts = prior.push(keep);
                assert(verdicts.drop_last() =~= prior);
                assert(verdicts.take(prior.len() as int) =~= prior);
                assert forall|t: int| 0 <= t < verdicts.len() implies (#[trigger] examined(
                    old(self).weak@,
                    verdicts,
                    t,
                )).may_answer(self.inner, verdicts[t]) by {
                    if t < prior.len() {
                        assert(verdicts.take(t) =~= prior.take(t));
                        assert(examined(old(self).weak@, prior, t).may_answer(
                            self.inner,
                            prior[t],
                        ));
                    }
                }
            }
            if keep {
                j += 1;
            } else {
                self.weak.swap_remove(j);
            }
        }
        assert(old(self)@.notified_with(verdicts, self@));
    }
}

} // verus!
