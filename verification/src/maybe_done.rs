//! The slot a join keeps for each operand: the operation while it is in
//! progress, then its output until the joined tuple is assembled.

use crate::operation::{Clock, Operand, Operation, Poll};
use vstd::prelude::*;

verus! {

/// One operand of a join and how far it has come.
///
/// A slot moves from `Future` to `Done` to `Gone`, never back, and visits each
/// state at most once.
pub enum MaybeDone<F: Operation> {
    /// The operation is still in progress.
    Future(Operand<F>),
    /// The operation has finished; its output waits here to be taken.
    Done(F::Output),
    /// The output has been taken.
    Gone,
}

impl<F: Operation> MaybeDone<F> {
    /// A slot in progress holds an operation that may still be polled.
    pub open spec fn wf(&self) -> bool {
        self matches MaybeDone::Future(operand) ==> operand.live()
    }

    /// Whether the slot is well formed and its output has not been taken.
    pub open spec fn holding(&self) -> bool {
        self.wf() && !(self is Gone)
    }

    /// Whether the operand has reported its output, now or in an earlier
    /// cycle: the slot needs no further polling.
    pub open spec fn settled(&self) -> bool {
        !(self is Future)
    }

    /// The position of the slot in its lifecycle: 0 in progress, 1 completed,
    /// 2 consumed.
    pub open spec fn stage(&self) -> nat {
        match self {
            MaybeDone::Future(_) => 0,
            MaybeDone::Done(_) => 1,
            MaybeDone::Gone => 2,
        }
    }

    /// How many polls one cycle owes the slot: one while it is in progress,
    /// none once it is settled.
    pub open spec fn due(&self) -> nat {
        if self is Future {
            1
        } else {
            0
        }
    }

    /// Whether the slot, advanced by one cycle, can be completed with
    /// `output`: it is in progress, or completed with just that output.
    pub open spec fn completes_with(&self, output: F::Output) -> bool {
        match *self {
            MaybeDone::Future(_) => true,
            MaybeDone::Done(waiting) => waiting == output,
            MaybeDone::Gone => false,
        }
    }

    /// Whether the slot is in progress on `fut`, which it has not polled yet.
    pub open spec fn fresh(&self, fut: F) -> bool {
        self matches MaybeDone::Future(operand) && operand.fresh(fut)
    }

    /// Whether `self` is what one poll cycle can make of the slot `before`,
    /// when the clock shows `at` as the cycle comes to the slot.
    ///
    /// A slot in progress either stays in progress, on a live operation that
    /// was polled exactly once, at `at`, or it completes. A slot that
    /// completes drops its operation and the record kept of it: of such a
    /// slot the relation says that it is completed, and not with which
    /// output (see [`MaybeDone::settle`] for that). A slot that is completed
    /// or consumed is left as it is, and its operation, which is gone, is not
    /// polled again.
    pub open spec fn advanced_from(&self, before: &Self, at: nat) -> bool {
        match *before {
            MaybeDone::Future(operand) => match *self {
                MaybeDone::Future(now) => now.deferred_from(&operand, at),
                MaybeDone::Done(_) => true,
                MaybeDone::Gone => false,
            },
            _ => *self == *before,
        }
    }

    /// Wraps an operation that has not started: the slot is in progress.
    pub fn new(fut: F) -> (slot: Self)
        ensures
            slot.fresh(fut),
            fut.live() ==> slot.holding(),
    {
        MaybeDone::Future(Operand::new(fut))
    }

    /// Records what a poll of the slot's operation reported. On an output the
    /// slot completes with it, and the operation is dropped; on
    /// [`Poll::Pending`] the slot stays as it is. Returns whether the slot is
    /// settled.
    pub fn settle(&mut self, polled: Poll<F::Output>) -> (done: bool)
        requires
            *old(self) is Future,
        ensures
            match polled {
                Poll::Ready(output) => done && *final(self) == MaybeDone::<F>::Done(output),
                Poll::Pending => !done && *final(self) == *old(self),
            },
    {
        match polled {
            Poll::Ready(output) => {
                *self = MaybeDone::Done(output);
                true
            },
            Poll::Pending => false,
        }
    }

    /// Advances the slot by one cycle and returns whether it is settled.
    ///
    /// The operation is polled if the slot is in progress, and only then: a
    /// completed or consumed slot answers `true` at once, and the clock of
    /// the join stands still.
    pub fn poll(&mut self, cx: &mut core::task::Context<'_>, clock: &mut Clock) -> (done: bool)
        requires
            old(self).wf(),
        ensures
            final(self).advanced_from(old(self), old(clock).now()),
            final(clock).now() == old(clock).now() + old(self).due(),
            final(self).wf(),
            done == final(self).settled(),
    {
        match self {
            MaybeDone::Future(operand) => {
                let polled = operand.poll(cx, clock);
                self.settle(polled)
            },
            _ => true,
        }
    }

    /// Moves the output out of a completed slot, which is consumed by it. The
    /// slot must be completed: an output can be taken once only.
    pub fn take_output(&mut self) -> (output: F::Output)
        requires
            *old(self) is Done,
        ensures
            *old(self) == MaybeDone::<F>::Done(output),
            *final(self) is Gone,
    {
        let mut slot = MaybeDone::Gone;
        core::mem::swap(self, &mut slot);
        match slot {
            MaybeDone::Done(output) => output,
            _ => vstd::pervasive::unreached(),
        }
    }

    /// The lifecycle runs forward only. A poll cycle never moves a slot back,
    /// never by more than one stage, and never consumes it; a slot that is
    /// settled stays exactly as it is, so that a consumed slot is never
    /// completed again and its output cannot be taken a second time.
    pub proof fn lemma_advance_is_forward(before: Self, after: Self, at: nat)
        requires
            after.advanced_from(&before, at),
        ensures
            before.stage() <= after.stage() <= before.stage() + 1,
            after is Gone <==> before is Gone,
            before.settled() ==> after == before,
            before.wf() ==> after.wf(),
    {
    }
}

} // verus!
