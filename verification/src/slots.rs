//! The slots of a join as a list in declared order, and the join rule on a
//! list of any length.

use crate::maybe_done::MaybeDone;
use crate::model::{all_settled, lemma_all_settled_split};
use crate::operation::{Clock, Operation, Poll};
use vstd::prelude::*;

verus! {

/// The slots of a join in declared order: the first slot and those after it.
pub struct Slots<F: Operation, R: SlotList> {
    /// The slot of the operand declared first.
    pub first: MaybeDone<F>,
    /// The slots of the operands declared after it.
    pub rest: R,
}

/// The end of a list of slots.
pub struct NoSlots;

/// A list of join slots of any length.
///
/// The join rule is stated on it once, for every number of operands; the
/// joins of two to sixteen operands are lists of that length.
pub trait SlotList: Sized {
    /// The operands in declared order: the first operation, paired with
    /// those after it.
    type Operations;

    /// The outputs of the operands in declared order: the first output,
    /// paired with those after it.
    type Outputs;

    /// For each position, whether its operand has reported its output, in
    /// this cycle or an earlier one.
    spec fn settled(&self) -> Seq<bool>;

    /// Whether every slot is in progress on the operation that `operations`
    /// holds in its position, and has not polled it yet.
    spec fn fresh(&self, operations: Self::Operations) -> bool;

    /// Whether every slot is well formed and none has given up its output.
    spec fn holding(&self) -> bool;

    /// How many polls one cycle owes the list: one for each slot in progress.
    spec fn due(&self) -> nat;

    /// Whether every slot is completed and `outputs` holds, position by
    /// position, the output that waits in it.
    spec fn completed_with(&self, outputs: Self::Outputs) -> bool;

    /// Whether every slot has given up its output.
    spec fn consumed(&self) -> bool;

    /// Whether `self` is what one poll cycle can make of the slots `before`,
    /// when the clock shows `start` as the cycle begins.
    ///
    /// Each slot has advanced on its own (see [`MaybeDone::advanced_from`]),
    /// and the slots were taken in declared order: the cycle came to a slot
    /// when the clock showed `start` and the number of slots in progress
    /// before it, so that a slot in progress was polled after every such slot
    /// before it and before every one after it.
    spec fn advanced_from(&self, before: &Self, start: nat) -> bool;

    /// Whether `self` is what the finishing cycle makes of the slots
    /// `before`, with `outputs` as its result: every slot has given up its
    /// output, and a slot that was completed before the cycle held the output
    /// that `outputs` holds in its position. Of a slot that completed in the
    /// cycle the relation fixes the position of its output, and no more.
    spec fn finished_from(&self, before: &Self, outputs: Self::Outputs) -> bool;

    /// Takes the operations over, each into a slot in progress, in declared
    /// order. None of them is polled yet.
    fn new(operations: Self::Operations) -> (slots: Self)
        ensures
            slots.fresh(operations),
    ;

    /// Advances every slot by one cycle, in declared order, and returns
    /// whether all of them are settled. No slot is skipped because an earlier
    /// one was found unsettled. The clock advances by one for each slot that
    /// was in progress.
    fn advance(&mut self, cx: &mut core::task::Context<'_>, clock: &mut Clock) -> (done: bool)
        requires
            old(self).holding(),
        ensures
            final(self).holding(),
            final(self).advanced_from(old(self), old(clock).now()),
            final(clock).now() == old(clock).now() + old(self).due(),
            done <==> all_settled(final(self).settled()),
    ;

    /// Takes the output out of every slot, in declared order, and pairs the
    /// outputs up in that same order. Every slot must be completed, and is
    /// consumed.
    fn take_outputs(&mut self) -> (outputs: Self::Outputs)
        requires
            old(self).holding(),
            all_settled(old(self).settled()),
        ensures
            old(self).completed_with(outputs),
            final(self).consumed(),
            all_settled(final(self).settled()),
    ;

    /// Slots that advance to completion and then give their outputs up have
    /// finished with those outputs.
    proof fn lemma_finished(
        &self,
        before: &Self,
        completed: &Self,
        outputs: Self::Outputs,
        start: nat,
    )
        requires
            completed.advanced_from(before, start),
            completed.completed_with(outputs),
            self.consumed(),
        ensures
            self.finished_from(before, outputs),
    ;

    /// An operand that has reported its output has done so for good: a
    /// position that was settled before a cycle is settled after it.
    proof fn lemma_settled_stays(&self, before: &Self, start: nat)
        requires
            self.advanced_from(before, start),
        ensures
            self.settled().len() == before.settled().len(),
            forall|i: int|
                0 <= i < before.settled().len() && before.settled()[i] ==> self.settled()[i],
    ;
}

impl SlotList for NoSlots {
    type Operations = ();

    type Outputs = ();

    open spec fn settled(&self) -> Seq<bool> {
        Seq::empty()
    }

    open spec fn fresh(&self, operations: ()) -> bool {
        true
    }

    open spec fn holding(&self) -> bool {
        true
    }

    open spec fn due(&self) -> nat {
        0
    }

    open spec fn completed_with(&self, outputs: ()) -> bool {
        true
    }

    open spec fn consumed(&self) -> bool {
        true
    }

    open spec fn advanced_from(&self, before: &Self, start: nat) -> bool {
        true
    }

    open spec fn finished_from(&self, before: &Self, outputs: ()) -> bool {
        true
    }

    fn new(operations: ()) -> (slots: Self) {
        NoSlots
    }

    fn advance(&mut self, cx: &mut core::task::Context<'_>, clock: &mut Clock) -> (done: bool) {
        true
    }

    fn take_outputs(&mut self) -> (outputs: ()) {
        ()
    }

    proof fn lemma_finished(
        &self,
        before: &Self,
        completed: &Self,
        outputs: (),
        start: nat,
    ) {
    }

    proof fn lemma_settled_stays(&self, before: &Self, start: nat) {
    }
}

impl<F: Operation, R: SlotList> SlotList for Slots<F, R> {
    type Operations = (F, R::Operations);

    type Outputs = (F::Output, R::Outputs);

    open spec fn settled(&self) -> Seq<bool> {
        seq![self.first.settled()] + self.rest.settled()
    }

    open spec fn fresh(&self, operations: (F, R::Operations)) -> bool {
        self.first.fresh(operations.0) && self.rest.fresh(operations.1)
    }

    open spec fn holding(&self) -> bool {
        self.first.holding() && self.rest.holding()
    }

    open spec fn due(&self) -> nat {
        self.first.due() + self.rest.due()
    }

    open spec fn completed_with(&self, outputs: (F::Output, R::Outputs)) -> bool {
        self.first == MaybeDone::<F>::Done(outputs.0) && self.rest.completed_with(outputs.1)
    }

    open spec fn consumed(&self) -> bool {
        self.first is Gone && self.rest.consumed()
    }

    open spec fn advanced_from(&self, before: &Self, start: nat) -> bool {
        &&& self.first.advanced_from(&before.first, start)
        &&& self.rest.advanced_from(&before.rest, start + before.first.due())
    }

    open spec fn finished_from(&self, before: &Self, outputs: (F::Output, R::Outputs)) -> bool {
        &&& before.first.completes_with(outputs.0)
        &&& self.first is Gone
        &&& self.rest.finished_from(&before.rest, outputs.1)
    }

    fn new(operations: (F, R::Operations)) -> (slots: Self) {
        Slots { first: MaybeDone::new(operations.0), rest: R::new(operations.1) }
    }

    fn advance(&mut self, cx: &mut core::task::Context<'_>, clock: &mut Clock) -> (done: bool) {
        let first = self.first.poll(cx, clock);
        let rest = self.rest.advance(cx, clock);
        proof {
            lemma_all_settled_split(self.first.settled(), self.rest.settled());
        }
        first && rest
    }

    fn take_outputs(&mut self) -> (outputs: (F::Output, R::Outputs)) {
        proof {
            lemma_all_settled_split(self.first.settled(), self.rest.settled());
        }
        let first = self.first.take_output();
        let rest = self.rest.take_outputs();
        proof {
            lemma_all_settled_split(self.first.settled(), self.rest.settled());
        }
        (first, rest)
    }

    proof fn lemma_finished(
        &self,
        before: &Self,
        completed: &Self,
        outputs: (F::Output, R::Outputs),
        start: nat,
    ) {
        self.rest.lemma_finished(
            &before.rest,
            &completed.rest,
            outputs.1,
            start + before.first.due(),
        );
    }

    proof fn lemma_settled_stays(&self, before: &Self, start: nat) {
        self.rest.lemma_settled_stays(&before.rest, start + before.first.due());
        let was = before.settled();
        let now = self.settled();
        assert forall|i: int| 0 <= i < was.len() && was[i] implies now[i] by {
            if i > 0 {
                assert(was[i] == before.rest.settled()[i - 1]);
                assert(now[i] == self.rest.settled()[i - 1]);
            }
        }
    }
}

/// One cycle of a join over the slots `slots`, whose polls are counted on
/// `clock`.
///
/// Every slot is advanced, in declared order. The join finishes in the cycle
/// that leaves every slot settled, and then yields the outputs in declared
/// order; until then it is pending.
pub fn join_cycle<L: SlotList>(
    slots: &mut L,
    cx: &mut core::task::Context<'_>,
    clock: &mut Clock,
) -> (polled: Poll<L::Outputs>)
    requires
        old(slots).holding(),
    ensures
        polled is Ready <==> all_settled(final(slots).settled()),
        final(clock).now() == old(clock).now() + old(slots).due(),
        match polled {
            Poll::Ready(outputs) => {
                &&& final(slots).finished_from(old(slots), outputs)
                &&& final(slots).consumed()
            },
            Poll::Pending => {
                &&& final(slots).advanced_from(old(slots), old(clock).now())
                &&& final(slots).holding()
            },
        },
{
    if slots.advance(cx, clock) {
        let ghost completed = *slots;
        let outputs = slots.take_outputs();
        proof {
            slots.lemma_finished(old(slots), &completed, outputs, old(clock).now());
        }
        Poll::Ready(outputs)
    } else {
        Poll::Pending
    }
}

} // verus!
