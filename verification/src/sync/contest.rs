//! Competing tasks on one lock, under every order in which a scheduler may
//! poll them.
//!
//! Each task acquires the lock, adds one to the protected integer and
//! releases the lock. The scheduler picks, step by step, which task moves
//! next. Whatever it picks, no two tasks hold the lock at once and no
//! update is lost.

use crate::sync::mutex::MutexState;
use crate::sync::slots::{lemma_least_free_exists, lemma_woken_keeps_keys};
use std::task::Waker;
use vstd::prelude::*;

verus! {

/// How far a task has come.
pub enum Phase {
    /// The task has not acquired the lock; its attempt has this key.
    Waiting { key: Option<usize> },
    /// The task holds the guard and has not yet updated the value.
    Holding,
    /// The task holds the guard and has updated the value.
    Updated,
    /// The task has given up its guard.
    Done,
}

impl Phase {
    /// Whether the task holds the guard.
    pub open spec fn holds_guard(self) -> bool {
        self is Holding || self is Updated
    }

    /// Whether the task has updated the value.
    pub open spec fn has_updated(self) -> bool {
        self is Updated || self is Done
    }

    /// Whether the task waits with an attempt that has no key yet.
    pub open spec fn is_unseated(self) -> bool {
        self matches Phase::Waiting { key: None }
    }

    /// The key of the task's attempt, if it is waiting with one.
    pub open spec fn key(self) -> Option<usize> {
        match self {
            Phase::Waiting { key } => key,
            _ => None,
        }
    }
}

/// The number of tasks among `tasks` of which `pred` holds.
pub open spec fn count(tasks: Seq<Phase>, pred: spec_fn(Phase) -> bool) -> nat
    decreases tasks.len(),
{
    if tasks.len() == 0 {
        0
    } else {
        count(tasks.drop_last(), pred) + if pred(tasks.last()) {
            1nat
        } else {
            0nat
        }
    }
}

/// A lock around an integer and the tasks that compete for it.
pub struct Contest {
    pub mutex: MutexState<int>,
    pub tasks: Seq<Phase>,
}

impl Contest {
    /// A fresh lock around `value` and `n` tasks that have not polled yet.
    pub open spec fn start(value: int, n: nat) -> Contest {
        Contest {
            mutex: MutexState::fresh(value),
            tasks: Seq::new(n, |i: int| Phase::Waiting { key: None }),
        }
    }

    /// The number of tasks that hold the guard.
    pub open spec fn holders(self) -> nat {
        count(self.tasks, |p: Phase| p.holds_guard())
    }

    /// The number of tasks that have updated the value.
    pub open spec fn updates(self) -> nat {
        count(self.tasks, |p: Phase| p.has_updated())
    }

    /// The number of tasks that wait with an attempt that has no key yet.
    pub open spec fn unseated(self) -> nat {
        count(self.tasks, |p: Phase| p.is_unseated())
    }

    /// One move of task `i`. A waiting task polls its attempt, and `held` is
    /// what a suspending poll leaves in the slot; a task with the guard first
    /// adds one to the value and then gives the guard up.
    pub open spec fn step(self, i: int, held: Waker) -> Contest {
        if 0 <= i < self.tasks.len() {
            match self.tasks[i] {
                Phase::Waiting { key } => if self.mutex.locked {
                    Contest {
                        mutex: self.mutex.parked(key, held),
                        tasks: self.tasks.update(
                            i,
                            Phase::Waiting { key: Some(self.mutex.parked_key(key)) },
                        ),
                    }
                } else {
                    Contest {
                        mutex: self.mutex.acquired(key),
                        tasks: self.tasks.update(i, Phase::Holding),
                    }
                },
                Phase::Holding => Contest {
                    mutex: self.mutex.with_value(self.mutex.value + 1),
                    tasks: self.tasks.update(i, Phase::Updated),
                },
                Phase::Updated => Contest {
                    mutex: self.mutex.unlocked(),
                    tasks: self.tasks.update(i, Phase::Done),
                },
                Phase::Done => self,
            }
        } else {
            self
        }
    }

    /// The moves of `schedule`, one after the other.
    pub open spec fn run(self, schedule: Seq<(int, Waker)>) -> Contest
        decreases schedule.len(),
    {
        if schedule.len() == 0 {
            self
        } else {
            self.run(schedule.drop_last()).step(schedule.last().0, schedule.last().1)
        }
    }

    /// What holds of a contest that started with `value`, after any moves:
    /// the lock is held exactly when one task has the guard, the value counts
    /// the updates, and the waiting attempts hold distinct keys of the table.
    pub open spec fn consistent(self, value: int) -> bool {
        &&& self.mutex.wf()
        &&& self.mutex.slots.cells.len() + self.unseated() <= self.tasks.len() <= usize::MAX
        &&& self.holders() <= 1
        &&& (self.mutex.locked <==> self.holders() == 1)
        &&& self.mutex.value == value + self.updates()
        &&& forall|i: int|
            0 <= i < self.tasks.len() ==> self.mutex.holds((#[trigger] self.tasks[i]).key())
        &&& forall|i: int, j: int|
            0 <= i < j < self.tasks.len() && (#[trigger] self.tasks[i]).key() is Some ==> (
            #[trigger] self.tasks[j]).key() != self.tasks[i].key()
    }

    /// Whether every task has given up its guard.
    pub open spec fn finished(self) -> bool {
        forall|i: int| 0 <= i < self.tasks.len() ==> #[trigger] self.tasks[i] is Done
    }
}

/// Replacing one task changes a count by what the old and the new task
/// contribute.
pub proof fn lemma_count_update(tasks: Seq<Phase>, pred: spec_fn(Phase) -> bool, i: int, p: Phase)
    requires
        0 <= i < tasks.len(),
    ensures
        count(tasks.update(i, p), pred) + (if pred(tasks[i]) {
            1nat
        } else {
            0nat
        }) == count(tasks, pred) + (if pred(p) {
            1nat
        } else {
            0nat
        }),
    decreases tasks.len(),
{
    let updated = tasks.update(i, p);
    if i == tasks.len() - 1 {
        assert(updated.drop_last() =~= tasks.drop_last());
    } else {
        assert(updated.drop_last() =~= tasks.drop_last().update(i, p));
        lemma_count_update(tasks.drop_last(), pred, i, p);
    }
}

/// A count is at most the number of tasks, and reaches it exactly when the
/// predicate holds of every task; it is zero exactly when it holds of none.
pub proof fn lemma_count_bounds(tasks: Seq<Phase>, pred: spec_fn(Phase) -> bool)
    ensures
        count(tasks, pred) <= tasks.len(),
        (forall|i: int| 0 <= i < tasks.len() ==> pred(#[trigger] tasks[i])) ==> count(tasks, pred)
            == tasks.len(),
        (forall|i: int| 0 <= i < tasks.len() ==> !pred(#[trigger] tasks[i])) ==> count(tasks, pred)
            == 0,
        count(tasks, pred) == 0 ==> (forall|i: int|
            0 <= i < tasks.len() ==> !pred(#[trigger] tasks[i])),
    decreases tasks.len(),
{
    if tasks.len() > 0 {
        lemma_count_bounds(tasks.drop_last(), pred);
        assert forall|i: int| 0 <= i < tasks.len() - 1 implies tasks.drop_last()[i]
            == tasks[i] by {}
        if forall|i: int| 0 <= i < tasks.len() ==> pred(#[trigger] tasks[i]) {
            assert forall|i: int| 0 <= i < tasks.drop_last().len() implies pred(
                #[trigger] tasks.drop_last()[i],
            ) by {
                assert(tasks.drop_last()[i] == tasks[i]);
            }
            assert(pred(tasks[tasks.len() - 1]));
        }
        if forall|i: int| 0 <= i < tasks.len() ==> !pred(#[trigger] tasks[i]) {
            assert forall|i: int| 0 <= i < tasks.drop_last().len() implies !pred(
                #[trigger] tasks.drop_last()[i],
            ) by {
                assert(tasks.drop_last()[i] == tasks[i]);
            }
            assert(!pred(tasks[tasks.len() - 1]));
        }
        if count(tasks, pred) == 0 {
            assert forall|i: int| 0 <= i < tasks.len() implies !pred(#[trigger] tasks[i]) by {
                if i < tasks.len() - 1 {
                    assert(tasks.drop_last()[i] == tasks[i]);
                }
            }
        }
    }
}

/// One move keeps a contest consistent.
pub proof fn lemma_step_consistent(contest: Contest, value: int, i: int, held: Waker)
    requires
        contest.consistent(value),
    ensures
        contest.step(i, held).consistent(value),
        contest.step(i, held).tasks.len() == contest.tasks.len(),
{
    let next = contest.step(i, held);
    let holding = |p: Phase| p.holds_guard();
    let updated = |p: Phase| p.has_updated();
    let unseated = |p: Phase| p.is_unseated();
    if 0 <= i < contest.tasks.len() {
        let before = contest.tasks[i];
        let after = next.tasks[i];
        lemma_count_update(contest.tasks, holding, i, after);
        lemma_count_update(contest.tasks, updated, i, after);
        lemma_count_update(contest.tasks, unseated, i, after);
        lemma_count_bounds(contest.tasks, holding);
        assert(next.tasks =~= contest.tasks.update(i, after));
        match before {
            Phase::Waiting { key } => {
                assert(contest.mutex.holds(contest.tasks[i].key()));
                if contest.mutex.locked {
                    let k = contest.mutex.parked_key(key);
                    if key is None {
                        if !(contest.mutex.slots.free =~= Set::empty()) {
                            lemma_least_free_exists(contest.mutex.slots);
                        }
                        assert(!contest.mutex.slots.in_use(k));
                    }
                    assert forall|j: int| 0 <= j < next.tasks.len() implies next.mutex.holds(
                        (#[trigger] next.tasks[j]).key(),
                    ) by {
                        if j != i {
                            assert(contest.mutex.holds(contest.tasks[j].key()));
                        }
                    }
                    assert forall|a: int, b: int|
                        0 <= a < b < next.tasks.len() && (#[trigger] next.tasks[a]).key()
                            is Some implies (#[trigger] next.tasks[b]).key()
                        != next.tasks[a].key() by {
                        if a != i && b != i {
                            assert(contest.tasks[b].key() != contest.tasks[a].key());
                        } else if a == i {
                            assert(contest.mutex.holds(contest.tasks[b].key()));
                            if key is Some {
                                assert(contest.tasks[b].key() != contest.tasks[a].key());
                            }
                        } else {
                            assert(contest.mutex.holds(contest.tasks[a].key()));
                            if key is Some {
                                assert(contest.tasks[b].key() != contest.tasks[a].key());
                            }
                        }
                    }
                } else {
                    assert forall|j: int| 0 <= j < next.tasks.len() implies next.mutex.holds(
                        (#[trigger] next.tasks[j]).key(),
                    ) by {
                        if j != i {
                            assert(contest.mutex.holds(contest.tasks[j].key()));
                            if j < i {
                                assert(contest.tasks[j].key() is Some ==> contest.tasks[i].key()
                                    != contest.tasks[j].key());
                            } else {
                                assert(contest.tasks[i].key() is Some ==> contest.tasks[j].key()
                                    != contest.tasks[i].key());
                            }
                        }
                    }
                    assert forall|a: int, b: int|
                        0 <= a < b < next.tasks.len() && (#[trigger] next.tasks[a]).key()
                            is Some implies (#[trigger] next.tasks[b]).key()
                        != next.tasks[a].key() by {
                        if a != i && b != i {
                            assert(contest.tasks[b].key() != contest.tasks[a].key());
                        }
                    }
                }
            },
            Phase::Holding => {
                lemma_keys_kept(contest, next, i);
            },
            Phase::Updated => {
                lemma_woken_keeps_keys(contest.mutex.slots);
                lemma_keys_kept(contest, next, i);
            },
            Phase::Done => {},
        }
    }
}

/// A move of a task that holds the guard leaves the keys of all tasks in use
/// and distinct.
proof fn lemma_keys_kept(contest: Contest, next: Contest, i: int)
    requires
        0 <= i < contest.tasks.len(),
        contest.tasks[i].key() is None,
        next.tasks.len() == contest.tasks.len(),
        next.tasks[i].key() is None,
        forall|j: int| 0 <= j < contest.tasks.len() && j != i ==> next.tasks[j] == contest.tasks[j],
        forall|k: usize| next.mutex.slots.in_use(k) <==> contest.mutex.slots.in_use(k),
        forall|j: int|
            0 <= j < contest.tasks.len() ==> contest.mutex.holds((#[trigger] contest.tasks[j]).key()),
        forall|a: int, b: int|
            0 <= a < b < contest.tasks.len() && (#[trigger] contest.tasks[a]).key() is Some ==> (
            #[trigger] contest.tasks[b]).key() != contest.tasks[a].key(),
    ensures
        forall|j: int| 0 <= j < next.tasks.len() ==> next.mutex.holds((#[trigger] next.tasks[j]).key()),
        forall|a: int, b: int|
            0 <= a < b < next.tasks.len() && (#[trigger] next.tasks[a]).key() is Some ==> (
            #[trigger] next.tasks[b]).key() != next.tasks[a].key(),
{
    assert forall|j: int| 0 <= j < next.tasks.len() implies next.mutex.holds(
        (#[trigger] next.tasks[j]).key(),
    ) by {
        if j != i {
            assert(contest.mutex.holds(contest.tasks[j].key()));
        }
    }
    assert forall|a: int, b: int|
        0 <= a < b < next.tasks.len() && (#[trigger] next.tasks[a]).key() is Some implies (
    #[trigger] next.tasks[b]).key() != next.tasks[a].key() by {
        if a != i && b != i {
            assert(contest.tasks[b].key() != contest.tasks[a].key());
        }
    }
}

/// Whatever the order in which the scheduler moves the tasks, the contest
/// stays consistent: at most one task holds the guard, the lock is held
/// exactly while one does, the value has been raised by one for every update,
/// and every waiting attempt may be polled again. Once all `n` tasks are
/// done, the lock is free and the value has been raised by `n`.
pub proof fn lemma_no_lost_update(value: int, n: nat, schedule: Seq<(int, Waker)>)
    requires
        n <= usize::MAX,
    ensures
        Contest::start(value, n).run(schedule).consistent(value),
        Contest::start(value, n).run(schedule).tasks.len() == n,
        Contest::start(value, n).run(schedule).finished() ==> {
            &&& !Contest::start(value, n).run(schedule).mutex.locked
            &&& Contest::start(value, n).run(schedule).mutex.value == value + n
        },
    decreases schedule.len(),
{
    let start = Contest::start(value, n);
    let end = start.run(schedule);
    let holding = |p: Phase| p.holds_guard();
    let updated = |p: Phase| p.has_updated();
    let unseated = |p: Phase| p.is_unseated();
    if schedule.len() == 0 {
        lemma_count_bounds(start.tasks, holding);
        lemma_count_bounds(start.tasks, updated);
        lemma_count_bounds(start.tasks, unseated);
    } else {
        lemma_no_lost_update(value, n, schedule.drop_last());
        lemma_step_consistent(
            start.run(schedule.drop_last()),
            value,
            schedule.last().0,
            schedule.last().1,
        );
    }
    lemma_count_bounds(end.tasks, holding);
    lemma_count_bounds(end.tasks, updated);
    if end.finished() {
        assert forall|i: int| 0 <= i < end.tasks.len() implies updated(#[trigger] end.tasks[i]) by {
            assert(end.tasks[i] is Done);
        }
        assert forall|i: int| 0 <= i < end.tasks.len() implies !holding(#[trigger] end.tasks[i]) by {
            assert(end.tasks[i] is Done);
        }
    }
}

} // verus!
