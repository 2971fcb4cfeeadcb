//! The pass over the weak subscribers of a cell, as mathematics.
//!
//! A notify pass examines every weak subscriber once. One that stays is
//! stepped over. One that leaves is removed by moving the last subscriber
//! of the list into its place, so the order of those that remain may change
//! whenever somebody leaves.

use vstd::prelude::*;

verus! {

/// Where a pass over a weak list stands after the subscribers examined so
/// far have given `verdicts`: the list as it is then, and the position of the
/// subscriber to examine next. A subscriber that stays is stepped over; one
/// that leaves is replaced by the last of the list, which is examined next.
pub open spec fn pass<E>(list: Seq<E>, verdicts: Seq<bool>) -> (Seq<E>, int)
    decreases verdicts.len(),
{
    if verdicts.len() == 0 {
        (list, 0)
    } else {
        let (current, at) = pass(list, verdicts.drop_last());
        if verdicts.last() {
            (current, at + 1)
        } else {
            (current.update(at, current.last()).drop_last(), at)
        }
    }
}

/// The subscriber that is examined at step `t` of a pass with `verdicts`.
pub open spec fn examined<E>(list: Seq<E>, verdicts: Seq<bool>, t: int) -> E {
    pass(list, verdicts.take(t)).0[pass(list, verdicts.take(t)).1]
}

/// The weak list after a whole pass with `verdicts`.
pub open spec fn swept<E>(list: Seq<E>, verdicts: Seq<bool>) -> Seq<E> {
    pass(list, verdicts).0
}

/// The number of subscribers that stay under `verdicts`.
pub open spec fn stayers(verdicts: Seq<bool>) -> nat
    decreases verdicts.len(),
{
    if verdicts.len() == 0 {
        0
    } else {
        stayers(verdicts.drop_last()) + if verdicts.last() {
            1nat
        } else {
            0nat
        }
    }
}

/// The number of subscribers that leave under `verdicts`.
pub open spec fn leavers(verdicts: Seq<bool>) -> nat
    decreases verdicts.len(),
{
    if verdicts.len() == 0 {
        0
    } else {
        leavers(verdicts.drop_last()) + if verdicts.last() {
            0nat
        } else {
            1nat
        }
    }
}

/// During a pass over `list`, the subscribers before the position are those
/// that stayed, and the list has lost one subscriber for each that left.
pub proof fn lemma_pass_position<E>(list: Seq<E>, verdicts: Seq<bool>)
    requires
        verdicts.len() <= list.len(),
    ensures
        pass(list, verdicts).1 == stayers(verdicts),
        pass(list, verdicts).0.len() == list.len() - leavers(verdicts),
        stayers(verdicts) + leavers(verdicts) == verdicts.len(),
    decreases verdicts.len(),
{
    if verdicts.len() > 0 {
        lemma_pass_position(list, verdicts.drop_last());
    }
}

/// After a whole pass, the weak list is shorter by exactly the number of
/// subscribers that left: with one subscriber gone or no longer interested,
/// it is shorter by one.
pub proof fn lemma_swept_len<E>(list: Seq<E>, verdicts: Seq<bool>)
    requires
        verdicts.len() == list.len(),
    ensures
        swept(list, verdicts).len() == list.len() - leavers(verdicts),
        swept(list, verdicts).len() == stayers(verdicts),
        leavers(verdicts) <= list.len(),
{
    lemma_pass_position(list, verdicts);
}

/// A subscriber that leaves is counted among the leavers: a pass in which
/// the subscriber examined at step `t` leaves has at least one leaver, and
/// exactly one if every other subscriber stays.
pub proof fn lemma_leavers_count(verdicts: Seq<bool>, t: int)
    requires
        0 <= t < verdicts.len(),
        !verdicts[t],
    ensures
        leavers(verdicts) >= 1,
        (forall|u: int| 0 <= u < verdicts.len() && u != t ==> verdicts[u]) ==> leavers(verdicts)
            == 1,
    decreases verdicts.len(),
{
    let rest = verdicts.drop_last();
    if t < verdicts.len() - 1 {
        lemma_leavers_count(rest, t);
        if forall|u: int| 0 <= u < verdicts.len() && u != t ==> verdicts[u] {
            assert forall|u: int| 0 <= u < rest.len() && u != t implies rest[u] by {
                assert(verdicts[u]);
            }
            assert(verdicts[verdicts.len() - 1]);
        }
    } else {
        if forall|u: int| 0 <= u < verdicts.len() && u != t ==> verdicts[u] {
            assert forall|u: int| 0 <= u < rest.len() implies rest[u] by {
                assert(verdicts[u]);
            }
            lemma_all_stay_no_leavers(rest);
        }
    }
}

/// A pass in which every subscriber stays has no leaver.
pub proof fn lemma_all_stay_no_leavers(verdicts: Seq<bool>)
    requires
        forall|u: int| 0 <= u < verdicts.len() ==> verdicts[u],
    ensures
        leavers(verdicts) == 0,
    decreases verdicts.len(),
{
    if verdicts.len() > 0 {
        assert forall|u: int| 0 <= u < verdicts.drop_last().len() implies verdicts.drop_last()[u] by {
            assert(verdicts[u]);
        }
        lemma_all_stay_no_leavers(verdicts.drop_last());
        assert(verdicts[verdicts.len() - 1]);
    }
}

/// A pass in which every subscriber stays leaves the list as it was, in the
/// order of registration.
pub proof fn lemma_swept_all_stay<E>(list: Seq<E>, verdicts: Seq<bool>)
    requires
        verdicts.len() <= list.len(),
        forall|t: int| 0 <= t < verdicts.len() ==> verdicts[t],
    ensures
        pass(list, verdicts) == (list, verdicts.len() as int),
        forall|t: int| 0 <= t < verdicts.len() ==> examined(list, verdicts, t) == list[t],
    decreases verdicts.len(),
{
    if verdicts.len() > 0 {
        lemma_swept_all_stay(list, verdicts.drop_last());
        assert forall|t: int| 0 <= t < verdicts.len() implies examined(list, verdicts, t)
            == list[t] by {
            if t < verdicts.len() - 1 {
                assert(verdicts.take(t) =~= verdicts.drop_last().take(t));
                assert(examined(list, verdicts.drop_last(), t) == list[t]);
            } else {
                assert(verdicts.take(t) =~= verdicts.drop_last());
            }
        }
    }
}

/// Every subscriber that is left after a pass was in the list before it.
pub proof fn lemma_swept_subset<E>(list: Seq<E>, verdicts: Seq<bool>)
    requires
        verdicts.len() <= list.len(),
    ensures
        forall|i: int|
            0 <= i < pass(list, verdicts).0.len() ==> list.contains(
                #[trigger] pass(list, verdicts).0[i],
            ),
    decreases verdicts.len(),
{
    if verdicts.len() == 0 {
        assert forall|i: int| 0 <= i < list.len() implies list.contains(#[trigger] list[i]) by {}
    } else {
        lemma_swept_subset(list, verdicts.drop_last());
        lemma_pass_position(list, verdicts.drop_last());
        let (current, at) = pass(list, verdicts.drop_last());
        let next = pass(list, verdicts).0;
        assert forall|i: int| 0 <= i < next.len() implies list.contains(#[trigger] next[i]) by {
            if verdicts.last() {
                assert(next[i] == current[i]);
            } else if i == at {
                assert(next[i] == current[current.len() - 1]);
            } else {
                assert(next[i] == current[i]);
            }
        }
    }
}

} // verus!
