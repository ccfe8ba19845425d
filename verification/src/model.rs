//! The two merge rules, stated once over any number of operands. An operand
//! is known here by its position in declared order alone.

use vstd::prelude::*;

verus! {

/// The join rule: a join is ready when every operand has reported its output.
/// `settled[i]` says whether operand `i` has.
pub open spec fn all_settled(settled: Seq<bool>) -> bool {
    forall|i: int| 0 <= i < settled.len() ==> settled[i]
}

/// The join rule position by position: a list is settled throughout exactly
/// when its first position is and the positions after it are.
pub proof fn lemma_all_settled_split(first: bool, rest: Seq<bool>)
    ensures
        all_settled(seq![first] + rest) <==> first && all_settled(rest),
{
    let all = seq![first] + rest;
    assert(all[0] == first);
    if all_settled(all) {
        assert forall|i: int| 0 <= i < rest.len() implies rest[i] by {
            assert(all[i + 1] == rest[i]);
        }
    }
    if first && all_settled(rest) {
        assert forall|i: int| 0 <= i < all.len() implies all[i] by {
            if i > 0 {
                assert(all[i] == rest[i - 1]);
            }
        }
    }
}

/// Whether `w` is a ready position with no ready position before it.
pub open spec fn wins(ready: Seq<bool>, w: int) -> bool {
    &&& 0 <= w < ready.len()
    &&& ready[w]
    &&& forall|j: int| 0 <= j < w ==> !ready[j]
}

/// The race rule: among the operands that are ready in a cycle, the one
/// declared first wins. `ready[i]` says whether operand `i` is ready; the
/// result is the winner's position, or `None` when no operand is ready.
pub open spec fn first_ready(ready: Seq<bool>) -> Option<int>
    decreases ready.len(),
{
    if ready.len() == 0 {
        None
    } else if ready[0] {
        Some(0)
    } else {
        match first_ready(ready.skip(1)) {
            Some(w) => Some(w + 1),
            None => None,
        }
    }
}

/// The race rule scans in declared order: the first position wins if it is
/// ready, and otherwise the winner is that of the positions after it.
pub proof fn lemma_first_ready_split(first: bool, rest: Seq<bool>)
    ensures
        first_ready(seq![first] + rest) == if first {
            Some(0int)
        } else {
            match first_ready(rest) {
                Some(w) => Some(w + 1),
                None => None,
            }
        },
{
    let all = seq![first] + rest;
    assert(all[0] == first);
    assert(all.skip(1) =~= rest);
}

/// `first_ready` names a position exactly when that position wins, and
/// names none exactly when no operand is ready.
pub proof fn lemma_first_ready_wins(ready: Seq<bool>)
    ensures
        match first_ready(ready) {
            Some(w) => wins(ready, w),
            None => forall|i: int| 0 <= i < ready.len() ==> !ready[i],
        },
    decreases ready.len(),
{
    if ready.len() > 0 && !ready[0] {
        let rest = ready.skip(1);
        lemma_first_ready_wins(rest);
        match first_ready(rest) {
            Some(w) => {
                assert(ready[w + 1] == rest[w]);
                assert forall|j: int| 0 <= j < w + 1 implies !ready[j] by {
                    if j > 0 {
                        assert(ready[j] == rest[j - 1]);
                    }
                }
            },
            None => {
                assert forall|i: int| 0 <= i < ready.len() implies !ready[i] by {
                    if i > 0 {
                        assert(ready[i] == rest[i - 1]);
                    }
                }
            },
        }
    }
}

/// A cycle has one winner at most: the position that wins is the one
/// `first_ready` names.
pub proof fn lemma_winner_is_first_ready(ready: Seq<bool>, w: int)
    requires
        wins(ready, w),
    ensures
        first_ready(ready) == Some(w),
{
    lemma_first_ready_wins(ready);
}

/// Tie-break: when two or more operands are ready in the same cycle, the
/// winner is none of the later ones. Whatever position `i` is ready, the
/// winner is ready too and is declared no later than `i`.
pub proof fn lemma_lowest_position_wins(ready: Seq<bool>, i: int)
    requires
        0 <= i < ready.len(),
        ready[i],
    ensures
        first_ready(ready) matches Some(w) && w <= i && wins(ready, w),
{
    lemma_first_ready_wins(ready);
}

/// A race is pending exactly when no operand is ready.
pub proof fn lemma_no_winner_iff_none_ready(ready: Seq<bool>)
    ensures
        first_ready(ready) is None <==> forall|i: int| 0 <= i < ready.len() ==> !ready[i],
{
    lemma_first_ready_wins(ready);
}

/// A join is pending exactly when some operand is still in progress, and an
/// operand that settles never unsettles the join: settling position `i`
/// keeps every other position as it was.
pub proof fn lemma_join_waits_for_all(settled: Seq<bool>, i: int)
    requires
        0 <= i < settled.len(),
    ensures
        !settled[i] ==> !all_settled(settled),
        all_settled(settled.update(i, true)) <==> forall|j: int|
            0 <= j < settled.len() && j != i ==> settled[j],
{
    let after = settled.update(i, true);
    if forall|j: int| 0 <= j < settled.len() && j != i ==> settled[j] {
        assert forall|j: int| 0 <= j < after.len() implies after[j] by {}
    }
    if all_settled(after) {
        assert forall|j: int| 0 <= j < settled.len() && j != i implies settled[j] by {
            assert(after[j]);
        }
    }
}

} // verus!
