//! Join: wait for every operand, and yield all the outputs as one tuple in
//! declared order.

use crate::model::all_settled;
use crate::operation::{Clock, Operation, Poll};
use crate::slots::{join_cycle, NoSlots, SlotList, Slots};
use vstd::prelude::*;

verus! {

/// Combine several operations into one that finishes when all of them have.
///
/// Implemented for tuples of two to sixteen operations. The output is the
/// tuple of their outputs, each in the position of its operation, whatever
/// the order in which they finished.
pub trait Join {
    /// The output of the combined operation.
    type Output;

    /// The combined operation.
    type Combined: Operation<Output = Self::Output>;

    /// Combine several operations into one that finishes when all of them
    /// have.
    fn join(self) -> Self::Combined;
}

/// The join of the operands whose slots are the list `L`.
pub struct Joined<L: SlotList> {
    slots: L,
    clock: Clock,
}

impl<L: SlotList> View for Joined<L> {
    type V = L;

    /// The slots in declared order.
    closed spec fn view(&self) -> L {
        self.slots
    }
}

impl<L: SlotList> Joined<L> {
    /// The number of polls that the join has made of its operands.
    pub closed spec fn now(&self) -> nat {
        self.clock.now()
    }
}

/// The join of two operations.
impl<F0: Operation, F1: Operation> Operation for Joined<Slots<F0, Slots<F1, NoSlots>>> {
    type Output = (F0::Output, F1::Output);

    /// A join may be polled while every slot is well formed and none has
    /// given up its output.
    open spec fn live(&self) -> bool {
        self@.holding()
    }

    /// One cycle of the join (see [`join_cycle`]): the slots in progress are
    /// polled in declared order. The tuple holds in each position the output
    /// of the operand declared in that position.
    fn poll(&mut self, cx: &mut core::task::Context<'_>) -> (polled: Poll<Self::Output>)
        ensures
            polled is Ready <==> all_settled(final(self)@.settled()),
            final(self).now() == old(self).now() + old(self)@.due(),
            match polled {
                Poll::Ready(output) => final(self)@.finished_from(
                    &old(self)@,
                    (output.0, (output.1, ())),
                ),
                Poll::Pending => final(self)@.advanced_from(&old(self)@, old(self).now()),
            },
    {
        match join_cycle(&mut self.slots, cx, &mut self.clock) {
            Poll::Ready((o0, (o1, ()))) => Poll::Ready((o0, o1)),
            Poll::Pending => Poll::Pending,
        }
    }
}

impl<F0: Operation, F1: Operation> Join for (F0, F1) {
    type Output = (F0::Output, F1::Output);

    type Combined = Joined<Slots<F0, Slots<F1, NoSlots>>>;

    /// Takes the operations over, each into a slot in progress, in declared
    /// order. None of them is polled yet, and the join may be polled if all of
    /// them may.
    fn join(self) -> (joined: Self::Combined)
        ensures
            joined@.fresh((self.0, (self.1, ()))),
            joined.now() == 0,
            joined.live() <==> (self.0.live() && self.1.live()),
    {
        Joined {
            slots: Slots::new((self.0, (self.1, ()))),
            clock: Clock::new(),
        }
    }
}

/// The join of three operations.
impl<F0: Operation, F1: Operation, F2: Operation> Operation for Joined<
    Slots<F0, Slots<F1, Slots<F2, NoSlots>>>,
> {
    type Output = (F0::Output, F1::Output, F2::Output);

    /// A join may be polled while every slot is well formed and none has
    /// given up its output.
    open spec fn live(&self) -> bool {
        self@.holding()
    }

    /// One cycle of the join (see [`join_cycle`]): the slots in progress are
    /// polled in declared order. The tuple holds in each position the output
    /// of the operand declared in that position.
    fn poll(&mut self, cx: &mut core::task::Context<'_>) -> (polled: Poll<Self::Output>)
        ensures
            polled is Ready <==> all_settled(final(self)@.settled()),
            final(self).now() == old(self).now() + old(self)@.due(),
            match polled {
                Poll::Ready(output) => final(self)@.finished_from(
                    &old(self)@,
                    (output.0, (output.1, (output.2, ()))),
                ),
                Poll::Pending => final(self)@.advanced_from(&old(self)@, old(self).now()),
            },
    {
        match join_cycle(&mut self.slots, cx, &mut self.clock) {
            Poll::Ready((o0, (o1, (o2, ())))) => Poll::Ready((o0, o1, o2)),
            Poll::Pending => Poll::Pending,
        }
    }
}

impl<F0: Operation, F1: Operation, F2: Operation> Join for (F0, F1, F2) {
    type Output = (F0::Output, F1::Output, F2::Output);

    type Combined = Joined<Slots<F0, Slots<F1, Slots<F2, NoSlots>>>>;

    /// Takes the operations over, each into a slot in progress, in declared
    /// order. None of them is polled yet, and the join may be polled if all of
    /// them may.
    fn join(self) -> (joined: Self::Combined)
        ensures
            joined@.fresh((self.0, (self.1, (self.2, ())))),
            joined.now() == 0,
            joined.live() <==> (self.0.live() && self.1.live() && self.2.live()),
    {
        Joined {
            slots: Slots::new((self.0, (self.1, (self.2, ())))),
            clock: Clock::new(),
        }
    }
}

/// The join of four operations.
impl<F0: Operation, F1: Operation, F2: Operation, F3: Operation> Operation for Joined<
    Slots<F0, Slots<F1, Slots<F2, Slots<F3, NoSlots>>>>,
> {
    type Output = (F0::Output, F1::Output, F2::Output, F3::Output);

    /// A join may be polled while every slot is well formed and none has
    /// given up its output.
    open spec fn live(&self) -> bool {
        self@.holding()
    }

    /// One cycle of the join (see [`join_cycle`]): the slots in progress are
    /// polled in declared order. The tuple holds in each position the output
    /// of the operand declared in that position.
    fn poll(&mut self, cx: &mut core::task::Context<'_>) -> (polled: Poll<Self::Output>)
        ensures
            polled is Ready <==> all_settled(final(self)@.settled()),
            final(self).now() == old(self).now() + old(self)@.due(),
            match polled {
                Poll::Ready(output) => final(self)@.finished_from(
                    &old(self)@,
                    (output.0, (output.1, (output.2, (output.3, ())))),
                ),
                Poll::Pending => final(self)@.advanced_from(&old(self)@, old(self).now()),
            },
    {
        match join_cycle(&mut self.slots, cx, &mut self.clock) {
            Poll::Ready((o0, (o1, (o2, (o3, ()))))) => Poll::Ready((o0, o1, o2, o3)),
            Poll::Pending => Poll::Pending,
        }
    }
}

impl<F0: Operation, F1: Operation, F2: Operation, F3: Operation> Join for (F0, F1, F2, F3) {
    type Output = (F0::Output, F1::Output, F2::Output, F3::Output);

    type Combined = Joined<Slots<F0, Slots<F1, Slots<F2, Slots<F3, NoSlots>>>>>;

    /// Takes the operations over, each into a slot in progress, in declared
    /// order. None of them is polled yet, and the join may be polled if all of
    /// them may.
    fn join(self) -> (joined: Self::Combined)
        ensures
            joined@.fresh((self.0, (self.1, (self.2, (self.3, ()))))),
            joined.now() == 0,
            joined.live() <==> (self.0.live() && self.1.live() && self.2.live() && self.3.live()),
    {
        Joined {
            slots: Slots::new((self.0, (self.1, (self.2, (self.3, ()))))),
            clock: Clock::new(),
        }
    }
}

/// The join of five operations.
impl<
    F0: Operation, F1: Operation, F2: Operation, F3: Operation, F4: Operation,
> Operation for Joined<
    Slots<F0, Slots<F1, Slots<F2, Slots<F3, Slots<F4, NoSlots>>>>>,
> {
    type Output = (F0::Output, F1::Output, F2::Output, F3::Output, F4::Output);

    /// A join may be polled while every slot is well formed and none has
    /// given up its output.
    open spec fn live(&self) -> bool {
        self@.holding()
    }

    /// One cycle of the join (see [`join_cycle`]): the slots in progress are
    /// polled in declared order. The tuple holds in each position the output
    /// of the operand declared in that position.
    fn poll(&mut self, cx: &mut core::task::Context<'_>) -> (polled: Poll<Self::Output>)
        ensures
            polled is Ready <==> all_settled(final(self)@.settled()),
            final(self).now() == old(self).now() + old(self)@.due(),
            match polled {
                Poll::Ready(output) => final(self)@.finished_from(
                    &old(self)@,
                    (output.0, (output.1, (output.2, (output.3, (output.4, ()))))),
                ),
                Poll::Pending => final(self)@.advanced_from(&old(self)@, old(self).now()),
            },
    {
        match join_cycle(&mut self.slots, cx, &mut self.clock) {
            Poll::Ready((o0, (o1, (o2, (o3, (o4, ())))))) => Poll::Ready((o0, o1, o2, o3, o4)),
            Poll::Pending => Poll::Pending,
        }
    }
}

impl<
    F0: Operation, F1: Operation, F2: Operation, F3: Operation, F4: Operation,
> Join for (
    F0, F1, F2, F3, F4,
) {
    type Output = (F0::Output, F1::Output, F2::Output, F3::Output, F4::Output);

    type Combined = Joined<Slots<F0, Slots<F1, Slots<F2, Slots<F3, Slots<F4, NoSlots>>>>>>;

    /// Takes the operations over, each into a slot in progress, in declared
    /// order. None of them is polled yet, and the join may be polled if all of
    /// them may.
    fn join(self) -> (joined: Self::Combined)
        ensures
            joined@.fresh((self.0, (self.1, (self.2, (self.3, (self.4, ())))))),
            joined.now() == 0,
            joined.live() <==> (
                self.0.live() && self.1.live() && self.2.live() && self.3.live() &&
                self.4.live()
            ),
    {
        Joined {
            slots: Slots::new((self.0, (self.1, (self.2, (self.3, (self.4, ())))))),
            clock: Clock::new(),
        }
    }
}

/// The join of six operations.
impl<
    F0: Operation, F1: Operation, F2: Operation, F3: Operation, F4: Operation, F5: Operation,
> Operation for Joined<
    Slots<F0, Slots<F1, Slots<F2, Slots<F3, Slots<F4, Slots<F5, NoSlots>>>>>>,
> {
    type Output = (F0::Output, F1::Output, F2::Output, F3::Output, F4::Output, F5::Output);

    /// A join may be polled while every slot is well formed and none has
    /// given up its output.
    open spec fn live(&self) -> bool {
        self@.holding()
    }

    /// One cycle of the join (see [`join_cycle`]): the slots in progress are
    /// polled in declared order. The tuple holds in each position the output
    /// of the operand declared in that position.
    fn poll(&mut self, cx: &mut core::task::Context<'_>) -> (polled: Poll<Self::Output>)
        ensures
            polled is Ready <==> all_settled(final(self)@.settled()),
            final(self).now() == old(self).now() + old(self)@.due(),
            match polled {
                Poll::Ready(output) => final(self)@.finished_from(
                    &old(self)@,
                    (output.0, (output.1, (output.2, (output.3, (output.4, (output.5, ())))))),
                ),
                Poll::Pending => final(self)@.advanced_from(&old(self)@, old(self).now()),
            },
    {
        match join_cycle(&mut self.slots, cx, &mut self.clock) {
            Poll::Ready((o0, (o1, (o2, (o3, (o4, (o5, ()))))))) => {
                Poll::Ready((o0, o1, o2, o3, o4, o5))
            },
            Poll::Pending => Poll::Pending,
        }
    }
}

impl<
    F0: Operation, F1: Operation, F2: Operation, F3: Operation, F4: Operation, F5: Operation,
> Join for (
    F0, F1, F2, F3, F4, F5,
) {
    type Output = (F0::Output, F1::Output, F2::Output, F3::Output, F4::Output, F5::Output);

    type Combined = Joined<Slots<F0, Slots<F1, Slots<F2, Slots<F3, Slots<F4, Slots<F5,
        NoSlots>>>>>>>;

    /// Takes the operations over, each into a slot in progress, in declared
    /// order. None of them is polled yet, and the join may be polled if all of
    /// them may.
    fn join(self) -> (joined: Self::Combined)
        ensures
            joined@.fresh((self.0, (self.1, (self.2, (self.3, (self.4, (self.5, ()))))))),
            joined.now() == 0,
            joined.live() <==> (
                self.0.live() && self.1.live() && self.2.live() && self.3.live() &&
                self.4.live() && self.5.live()
            ),
    {
        Joined {
            slots: Slots::new((self.0, (self.1, (self.2, (self.3, (self.4, (self.5, ()))))))),
            clock: Clock::new(),
        }
    }
}

/// The join of seven operations.
impl<
    F0: Operation, F1: Operation, F2: Operation, F3: Operation, F4: Operation, F5: Operation,
    F6: Operation,
> Operation for Joined<
    Slots<F0, Slots<F1, Slots<F2, Slots<F3, Slots<F4, Slots<F5, Slots<F6, NoSlots>>>>>>>,
> {
    type Output = (
        F0::Output, F1::Output, F2::Output, F3::Output, F4::Output, F5::Output, F6::Output,
    );

    /// A join may be polled while every slot is well formed and none has
    /// given up its output.
    open spec fn live(&self) -> bool {
        self@.holding()
    }

    /// One cycle of the join (see [`join_cycle`]): the slots in progress are
    /// polled in declared order. The tuple holds in each position the output
    /// of the operand declared in that position.
    fn poll(&mut self, cx: &mut core::task::Context<'_>) -> (polled: Poll<Self::Output>)
        ensures
            polled is Ready <==> all_settled(final(self)@.settled()),
            final(self).now() == old(self).now() + old(self)@.due(),
            match polled {
                Poll::Ready(output) => final(self)@.finished_from(
                    &old(self)@,
                    (output.0, (output.1, (output.2, (output.3, (output.4, (output.5, (output.6,
                        ()))))))),
                ),
                Poll::Pending => final(self)@.advanced_from(&old(self)@, old(self).now()),
            },
    {
        match join_cycle(&mut self.slots, cx, &mut self.clock) {
            Poll::Ready((o0, (o1, (o2, (o3, (o4, (o5, (o6, ())))))))) => {
                Poll::Ready((o0, o1, o2, o3, o4, o5, o6))
            },
            Poll::Pending => Poll::Pending,
        }
    }
}

impl<
    F0: Operation, F1: Operation, F2: Operation, F3: Operation, F4: Operation, F5: Operation,
    F6: Operation,
> Join for (
    F0, F1, F2, F3, F4, F5, F6,
) {
    type Output = (
        F0::Output, F1::Output, F2::Output, F3::Output, F4::Output, F5::Output, F6::Output,
    );

    type Combined = Joined<Slots<F0, Slots<F1, Slots<F2, Slots<F3, Slots<F4, Slots<F5, Slots<F6,
        NoSlots>>>>>>>>;

    /// Takes the operations over, each into a slot in progress, in declared
    /// order. None of them is polled yet, and the join may be polled if all of
    /// them may.
    fn join(self) -> (joined: Self::Combined)
        ensures
            joined@.fresh((self.0, (self.1, (self.2, (self.3, (self.4, (self.5, (self.6, ())))))))),
            joined.now() == 0,
            joined.live() <==> (
                self.0.live() && self.1.live() && self.2.live() && self.3.live() &&
                self.4.live() && self.5.live() && self.6.live()
            ),
    {
        Joined {
            slots: Slots::new((self.0, (self.1, (self.2, (self.3, (self.4, (self.5, (self.6,
                ())))))))),
            clock: Clock::new(),
        }
    }
}

/// The join of eight operations.
impl<
    F0: Operation, F1: Operation, F2: Operation, F3: Operation, F4: Operation, F5: Operation,
    F6: Operation, F7: Operation,
> Operation for Joined<
    Slots<F0, Slots<F1, Slots<F2, Slots<F3, Slots<F4, Slots<F5, Slots<F6, Slots<F7, NoSlots>>>>>>>>,
> {
    type Output = (
        F0::Output, F1::Output, F2::Output, F3::Output, F4::Output, F5::Output, F6::Output,
        F7::Output,
    );

    /// A join may be polled while every slot is well formed and none has
    /// given up its output.
    open spec fn live(&self) -> bool {
        self@.holding()
    }

    /// One cycle of the join (see [`join_cycle`]): the slots in progress are
    /// polled in declared order. The tuple holds in each position the output
    /// of the operand declared in that position.
    fn poll(&mut self, cx: &mut core::task::Context<'_>) -> (polled: Poll<Self::Output>)
        ensures
            polled is Ready <==> all_settled(final(self)@.settled()),
            final(self).now() == old(self).now() + old(self)@.due(),
            match polled {
                Poll::Ready(output) => final(self)@.finished_from(
                    &old(self)@,
                    (output.0, (output.1, (output.2, (output.3, (output.4, (output.5, (output.6,
                        (output.7, ())))))))),
                ),
                Poll::Pending => final(self)@.advanced_from(&old(self)@, old(self).now()),
            },
    {
        match join_cycle(&mut self.slots, cx, &mut self.clock) {
            Poll::Ready((o0, (o1, (o2, (o3, (o4, (o5, (o6, (o7, ()))))))))) => {
                Poll::Ready((o0, o1, o2, o3, o4, o5, o6, o7))
            },
            Poll::Pending => Poll::Pending,
        }
    }
}

impl<
    F0: Operation, F1: Operation, F2: Operation, F3: Operation, F4: Operation, F5: Operation,
    F6: Operation, F7: Operation,
> Join for (
    F0, F1, F2, F3, F4, F5, F6, F7,
) {
    type Output = (
        F0::Output, F1::Output, F2::Output, F3::Output, F4::Output, F5::Output, F6::Output,
        F7::Output,
    );

    type Combined = Joined<Slots<F0, Slots<F1, Slots<F2, Slots<F3, Slots<F4, Slots<F5, Slots<F6,
        Slots<F7, NoSlots>>>>>>>>>;

    /// Takes the operations over, each into a slot in progress, in declared
    /// order. None of them is polled yet, and the join may be polled if all of
    /// them may.
    fn join(self) -> (joined: Self::Combined)
        ensures
            joined@.fresh((self.0, (self.1, (self.2, (self.3, (self.4, (self.5, (self.6,
                (self.7, ()))))))))),
            joined.now() == 0,
            joined.live() <==> (
                self.0.live() && self.1.live() && self.2.live() && self.3.live() &&
                self.4.live() && self.5.live() && self.6.live() && self.7.live()
            ),
    {
        Joined {
            slots: Slots::new((self.0, (self.1, (self.2, (self.3, (self.4, (self.5, (self.6,
                (self.7, ()))))))))),
            clock: Clock::new(),
        }
    }
}

/// The join of nine operations.
impl<
    F0: Operation, F1: Operation, F2: Operation, F3: Operation, F4: Operation, F5: Operation,
    F6: Operation, F7: Operation, F8: Operation,
> Operation for Joined<
    Slots<F0, Slots<F1, Slots<F2, Slots<F3, Slots<F4, Slots<F5, Slots<F6, Slots<F7, Slots<F8,
        NoSlots>>>>>>>>>,
> {
    type Output = (
        F0::Output, F1::Output, F2::Output, F3::Output, F4::Output, F5::Output, F6::Output,
        F7::Output, F8::Output,
    );

    /// A join may be polled while every slot is well formed and none has
    /// given up its output.
    open spec fn live(&self) -> bool {
        self@.holding()
    }

    /// One cycle of the join (see [`join_cycle`]): the slots in progress are
    /// polled in declared order. The tuple holds in each position the output
    /// of the operand declared in that position.
    fn poll(&mut self, cx: &mut core::task::Context<'_>) -> (polled: Poll<Self::Output>)
        ensures
            polled is Ready <==> all_settled(final(self)@.settled()),
            final(self).now() == old(self).now() + old(self)@.due(),
            match polled {
                Poll::Ready(output) => final(self)@.finished_from(
                    &old(self)@,
                    (output.0, (output.1, (output.2, (output.3, (output.4, (output.5, (output.6,
                        (output.7, (output.8, ()))))))))),
                ),
                Poll::Pending => final(self)@.advanced_from(&old(self)@, old(self).now()),
            },
    {
        match join_cycle(&mut self.slots, cx, &mut self.clock) {
            Poll::Ready((o0, (o1, (o2, (o3, (o4, (o5, (o6, (o7, (o8, ())))))))))) => {
                Poll::Ready((o0, o1, o2, o3, o4, o5, o6, o7, o8))
            },
            Poll::Pending => Poll::Pending,
        }
    }
}

impl<
    F0: Operation, F1: Operation, F2: Operation, F3: Operation, F4: Operation, F5: Operation,
    F6: Operation, F7: Operation, F8: Operation,
> Join for (
    F0, F1, F2, F3, F4, F5, F6, F7, F8,
) {
    type Output = (
        F0::Output, F1::Output, F2::Output, F3::Output, F4::Output, F5::Output, F6::Output,
        F7::Output, F8::Output,
    );

    type Combined = Joined<Slots<F0, Slots<F1, Slots<F2, Slots<F3, Slots<F4, Slots<F5, Slots<F6,
        Slots<F7, Slots<F8, NoSlots>>>>>>>>>>;

    /// Takes the operations over, each into a slot in progress, in declared
    /// order. None of them is polled yet, and the join may be polled if all of
    /// them may.
    fn join(self) -> (joined: Self::Combined)
        ensures
            joined@.fresh((self.0, (self.1, (self.2, (self.3, (self.4, (self.5, (self.6,
                (self.7, (self.8, ())))))))))),
            joined.now() == 0,
            joined.live() <==> (
                self.0.live() && self.1.live() && self.2.live() && self.3.live() &&
                self.4.live() && self.5.live() && self.6.live() && self.7.live() &&
                self.8.live()
            ),
    {
        Joined {
            slots: Slots::new((self.0, (self.1, (self.2, (self.3, (self.4, (self.5, (self.6,
                (self.7, (self.8, ())))))))))),
            clock: Clock::new(),
        }
    }
}

/// The join of ten operations.
impl<
    F0: Operation, F1: Operation, F2: Operation, F3: Operation, F4: Operation, F5: Operation,
    F6: Operation, F7: Operation, F8: Operation, F9: Operation,
> Operation for Joined<
    Slots<F0, Slots<F1, Slots<F2, Slots<F3, Slots<F4, Slots<F5, Slots<F6, Slots<F7, Slots<F8,
        Slots<F9, NoSlots>>>>>>>>>>,
> {
    type Output = (
        F0::Output, F1::Output, F2::Output, F3::Output, F4::Output, F5::Output, F6::Output,
        F7::Output, F8::Output, F9::Output,
    );

    /// A join may be polled while every slot is well formed and none has
    /// given up its output.
    open spec fn live(&self) -> bool {
        self@.holding()
    }

    /// One cycle of the join (see [`join_cycle`]): the slots in progress are
    /// polled in declared order. The tuple holds in each position the output
    /// of the operand declared in that position.
    fn poll(&mut self, cx: &mut core::task::Context<'_>) -> (polled: Poll<Self::Output>)
        ensures
            polled is Ready <==> all_settled(final(self)@.settled()),
            final(self).now() == old(self).now() + old(self)@.due(),
            match polled {
                Poll::Ready(output) => final(self)@.finished_from(
                    &old(self)@,
                    (output.0, (output.1, (output.2, (output.3, (output.4, (output.5, (output.6,
                        (output.7, (output.8, (output.9, ())))))))))),
                ),
                Poll::Pending => final(self)@.advanced_from(&old(self)@, old(self).now()),
            },
    {
        match join_cycle(&mut self.slots, cx, &mut self.clock) {
            Poll::Ready((o0, (o1, (o2, (o3, (o4, (o5, (o6, (o7, (o8, (o9, ()))))))))))) => {
                Poll::Ready((o0, o1, o2, o3, o4, o5, o6, o7, o8, o9))
            },
            Poll::Pending => Poll::Pending,
        }
    }
}

impl<
    F0: Operation, F1: Operation, F2: Operation, F3: Operation, F4: Operation, F5: Operation,
    F6: Operation, F7: Operation, F8: Operation, F9: Operation,
> Join for (
    F0, F1, F2, F3, F4, F5, F6, F7, F8, F9,
) {
    type Output = (
        F0::Output, F1::Output, F2::Output, F3::Output, F4::Output, F5::Output, F6::Output,
        F7::Output, F8::Output, F9::Output,
    );

    type Combined = Joined<Slots<F0, Slots<F1, Slots<F2, Slots<F3, Slots<F4, Slots<F5, Slots<F6,
        Slots<F7, Slots<F8, Slots<F9, NoSlots>>>>>>>>>>>;

    /// Takes the operations over, each into a slot in progress, in declared
    /// order. None of them is polled yet, and the join may be polled if all of
    /// them may.
    fn join(self) -> (joined: Self::Combined)
        ensures
            joined@.fresh((self.0, (self.1, (self.2, (self.3, (self.4, (self.5, (self.6,
                (self.7, (self.8, (self.9, ()))))))))))),
            joined.now() == 0,
            joined.live() <==> (
                self.0.live() && self.1.live() && self.2.live() && self.3.live() &&
                self.4.live() && self.5.live() && self.6.live() && self.7.live() &&
                self.8.live() && self.9.live()
            ),
    {
        Joined {
            slots: Slots::new((self.0, (self.1, (self.2, (self.3, (self.4, (self.5, (self.6,
                (self.7, (self.8, (self.9, ()))))))))))),
            clock: Clock::new(),
        }
    }
}

/// The join of eleven operations.
impl<
    F0: Operation, F1: Operation, F2: Operation, F3: Operation, F4: Operation, F5: Operation,
    F6: Operation, F7: Operation, F8: Operation, F9: Operation, F10: Operation,
> Operation for Joined<
    Slots<F0, Slots<F1, Slots<F2, Slots<F3, Slots<F4, Slots<F5, Slots<F6, Slots<F7, Slots<F8,
        Slots<F9, Slots<F10, NoSlots>>>>>>>>>>>,
> {
    type Output = (
        F0::Output, F1::Output, F2::Output, F3::Output, F4::Output, F5::Output, F6::Output,
        F7::Output, F8::Output, F9::Output, F10::Output,
    );

    /// A join may be polled while every slot is well formed and none has
    /// given up its output.
    open spec fn live(&self) -> bool {
        self@.holding()
    }

    /// One cycle of the join (see [`join_cycle`]): the slots in progress are
    /// polled in declared order. The tuple holds in each position the output
    /// of the operand declared in that position.
    fn poll(&mut self, cx: &mut core::task::Context<'_>) -> (polled: Poll<Self::Output>)
        ensures
            polled is Ready <==> all_settled(final(self)@.settled()),
            final(self).now() == old(self).now() + old(self)@.due(),
            match polled {
                Poll::Ready(output) => final(self)@.finished_from(
                    &old(self)@,
                    (output.0, (output.1, (output.2, (output.3, (output.4, (output.5, (output.6,
                        (output.7, (output.8, (output.9, (output.10, ()))))))))))),
                ),
                Poll::Pending => final(self)@.advanced_from(&old(self)@, old(self).now()),
            },
    {
        match join_cycle(&mut self.slots, cx, &mut self.clock) {
            Poll::Ready((o0, (o1, (o2, (o3, (o4, (o5, (o6, (o7, (o8, (o9, (o10, ())))))))))))) => {
                Poll::Ready((o0, o1, o2, o3, o4, o5, o6, o7, o8, o9, o10))
            },
            Poll::Pending => Poll::Pending,
        }
    }
}

impl<
    F0: Operation, F1: Operation, F2: Operation, F3: Operation, F4: Operation, F5: Operation,
    F6: Operation, F7: Operation, F8: Operation, F9: Operation, F10: Operation,
> Join for (
    F0, F1, F2, F3, F4, F5, F6, F7, F8, F9, F10,
) {
    type Output = (
        F0::Output, F1::Output, F2::Output, F3::Output, F4::Output, F5::Output, F6::Output,
        F7::Output, F8::Output, F9::Output, F10::Output,
    );

    type Combined = Joined<Slots<F0, Slots<F1, Slots<F2, Slots<F3, Slots<F4, Slots<F5, Slots<F6,
        Slots<F7, Slots<F8, Slots<F9, Slots<F10, NoSlots>>>>>>>>>>>>;

    /// Takes the operations over, each into a slot in progress, in declared
    /// order. None of them is polled yet, and the join may be polled if all of
    /// them may.
    fn join(self) -> (joined: Self::Combined)
        ensures
            joined@.fresh((self.0, (self.1, (self.2, (self.3, (self.4, (self.5, (self.6,
                (self.7, (self.8, (self.9, (self.10, ())))))))))))),
            joined.now() == 0,
            joined.live() <==> (
                self.0.live() && self.1.live() && self.2.live() && self.3.live() &&
                self.4.live() && self.5.live() && self.6.live() && self.7.live() &&
                self.8.live() && self.9.live() && self.10.live()
            ),
    {
        Joined {
            slots: Slots::new((self.0, (self.1, (self.2, (self.3, (self.4, (self.5, (self.6,
                (self.7, (self.8, (self.9, (self.10, ())))))))))))),
            clock: Clock::new(),
        }
    }
}

/// The join of twelve operations.
impl<
    F0: Operation, F1: Operation, F2: Operation, F3: Operation, F4: Operation, F5: Operation,
    F6: Operation, F7: Operation, F8: Operation, F9: Operation, F10: Operation, F11: Operation,
> Operation for Joined<
    Slots<F0, Slots<F1, Slots<F2, Slots<F3, Slots<F4, Slots<F5, Slots<F6, Slots<F7, Slots<F8,
        Slots<F9, Slots<F10, Slots<F11, NoSlots>>>>>>>>>>>>,
> {
    type Output = (
        F0::Output, F1::Output, F2::Output, F3::Output, F4::Output, F5::Output, F6::Output,
        F7::Output, F8::Output, F9::Output, F10::Output, F11::Output,
    );

    /// A join may be polled while every slot is well formed and none has
    /// given up its output.
    open spec fn live(&self) -> bool {
        self@.holding()
    }

    /// One cycle of the join (see [`join_cycle`]): the slots in progress are
    /// polled in declared order. The tuple holds in each position the output
    /// of the operand declared in that position.
    fn poll(&mut self, cx: &mut core::task::Context<'_>) -> (polled: Poll<Self::Output>)
        ensures
            polled is Ready <==> all_settled(final(self)@.settled()),
            final(self).now() == old(self).now() + old(self)@.due(),
            match polled {
                Poll::Ready(output) => final(self)@.finished_from(
                    &old(self)@,
                    (output.0, (output.1, (output.2, (output.3, (output.4, (output.5, (output.6,
                        (output.7, (output.8, (output.9, (output.10, (output.11, ())))))))))))),
                ),
                Poll::Pending => final(self)@.advanced_from(&old(self)@, old(self).now()),
            },
    {
        match join_cycle(&mut self.slots, cx, &mut self.clock) {
            Poll::Ready((o0, (o1, (o2, (o3, (o4, (o5, (o6, (o7, (o8, (o9, (o10, (o11,
                ()))))))))))))) => {
                Poll::Ready((o0, o1, o2, o3, o4, o5, o6, o7, o8, o9, o10, o11))
            },
            Poll::Pending => Poll::Pending,
        }
    }
}

impl<
    F0: Operation, F1: Operation, F2: Operation, F3: Operation, F4: Operation, F5: Operation,
    F6: Operation, F7: Operation, F8: Operation, F9: Operation, F10: Operation, F11: Operation,
> Join for (
    F0, F1, F2, F3, F4, F5, F6, F7, F8, F9, F10, F11,
) {
    type Output = (
        F0::Output, F1::Output, F2::Output, F3::Output, F4::Output, F5::Output, F6::Output,
        F7::Output, F8::Output, F9::Output, F10::Output, F11::Output,
    );

    type Combined = Joined<Slots<F0, Slots<F1, Slots<F2, Slots<F3, Slots<F4, Slots<F5, Slots<F6,
        Slots<F7, Slots<F8, Slots<F9, Slots<F10, Slots<F11, NoSlots>>>>>>>>>>>>>;

    /// Takes the operations over, each into a slot in progress, in declared
    /// order. None of them is polled yet, and the join may be polled if all of
    /// them may.
    fn join(self) -> (joined: Self::Combined)
        ensures
            joined@.fresh((self.0, (self.1, (self.2, (self.3, (self.4, (self.5, (self.6,
                (self.7, (self.8, (self.9, (self.10, (self.11, ()))))))))))))),
            joined.now() == 0,
            joined.live() <==> (
                self.0.live() && self.1.live() && self.2.live() && self.3.live() &&
                self.4.live() && self.5.live() && self.6.live() && self.7.live() &&
                self.8.live() && self.9.live() && self.10.live() && self.11.live()
            ),
    {
        Joined {
            slots: Slots::new((self.0, (self.1, (self.2, (self.3, (self.4, (self.5, (self.6,
                (self.7, (self.8, (self.9, (self.10, (self.11, ()))))))))))))),
            clock: Clock::new(),
        }
    }
}

/// The join of thirteen operations.
impl<
    F0: Operation, F1: Operation, F2: Operation, F3: Operation, F4: Operation, F5: Operation,
    F6: Operation, F7: Operation, F8: Operation, F9: Operation, F10: Operation, F11: Operation,
    F12: Operation,
> Operation for Joined<
    Slots<F0, Slots<F1, Slots<F2, Slots<F3, Slots<F4, Slots<F5, Slots<F6, Slots<F7, Slots<F8,
        Slots<F9, Slots<F10, Slots<F11, Slots<F12, NoSlots>>>>>>>>>>>>>,
> {
    type Output = (
        F0::Output, F1::Output, F2::Output, F3::Output, F4::Output, F5::Output, F6::Output,
        F7::Output, F8::Output, F9::Output, F10::Output, F11::Output, F12::Output,
    );

    /// A join may be polled while every slot is well formed and none has
    /// given up its output.
    open spec fn live(&self) -> bool {
        self@.holding()
    }

    /// One cycle of the join (see [`join_cycle`]): the slots in progress are
    /// polled in declared order. The tuple holds in each position the output
    /// of the operand declared in that position.
    fn poll(&mut self, cx: &mut core::task::Context<'_>) -> (polled: Poll<Self::Output>)
        ensures
            polled is Ready <==> all_settled(final(self)@.settled()),
            final(self).now() == old(self).now() + old(self)@.due(),
            match polled {
                Poll::Ready(output) => final(self)@.finished_from(
                    &old(self)@,
                    (output.0, (output.1, (output.2, (output.3, (output.4, (output.5, (output.6,
                        (output.7, (output.8, (output.9, (output.10, (output.11, (output.12,
                        ()))))))))))))),
                ),
                Poll::Pending => final(self)@.advanced_from(&old(self)@, old(self).now()),
            },
    {
        match join_cycle(&mut self.slots, cx, &mut self.clock) {
            Poll::Ready((o0, (o1, (o2, (o3, (o4, (o5, (o6, (o7, (o8, (o9, (o10, (o11, (o12,
                ())))))))))))))) => {
                Poll::Ready((o0, o1, o2, o3, o4, o5, o6, o7, o8, o9, o10, o11, o12))
            },
            Poll::Pending => Poll::Pending,
        }
    }
}

impl<
    F0: Operation, F1: Operation, F2: Operation, F3: Operation, F4: Operation, F5: Operation,
    F6: Operation, F7: Operation, F8: Operation, F9: Operation, F10: Operation, F11: Operation,
    F12: Operation,
> Join for (
    F0, F1, F2, F3, F4, F5, F6, F7, F8, F9, F10, F11, F12,
) {
    type Output = (
        F0::Output, F1::Output, F2::Output, F3::Output, F4::Output, F5::Output, F6::Output,
        F7::Output, F8::Output, F9::Output, F10::Output, F11::Output, F12::Output,
    );

    type Combined = Joined<Slots<F0, Slots<F1, Slots<F2, Slots<F3, Slots<F4, Slots<F5, Slots<F6,
        Slots<F7, Slots<F8, Slots<F9, Slots<F10, Slots<F11, Slots<F12, NoSlots>>>>>>>>>>>>>>;

    /// Takes the operations over, each into a slot in progress, in declared
    /// order. None of them is polled yet, and the join may be polled if all of
    /// them may.
    fn join(self) -> (joined: Self::Combined)
        ensures
            joined@.fresh((self.0, (self.1, (self.2, (self.3, (self.4, (self.5, (self.6,
                (self.7, (self.8, (self.9, (self.10, (self.11, (self.12, ())))))))))))))),
            joined.now() == 0,
            joined.live() <==> (
                self.0.live() && self.1.live() && self.2.live() && self.3.live() &&
                self.4.live() && self.5.live() && self.6.live() && self.7.live() &&
                self.8.live() && self.9.live() && self.10.live() && self.11.live() &&
                self.12.live()
            ),
    {
        Joined {
            slots: Slots::new((self.0, (self.1, (self.2, (self.3, (self.4, (self.5, (self.6,
                (self.7, (self.8, (self.9, (self.10, (self.11, (self.12, ())))))))))))))),
            clock: Clock::new(),
        }
    }
}

/// The join of fourteen operations.
impl<
    F0: Operation, F1: Operation, F2: Operation, F3: Operation, F4: Operation, F5: Operation,
    F6: Operation, F7: Operation, F8: Operation, F9: Operation, F10: Operation, F11: Operation,
    F12: Operation, F13: Operation,
> Operation for Joined<
    Slots<F0, Slots<F1, Slots<F2, Slots<F3, Slots<F4, Slots<F5, Slots<F6, Slots<F7, Slots<F8,
        Slots<F9, Slots<F10, Slots<F11, Slots<F12, Slots<F13, NoSlots>>>>>>>>>>>>>>,
> {
    type Output = (
        F0::Output, F1::Output, F2::Output, F3::Output, F4::Output, F5::Output, F6::Output,
        F7::Output, F8::Output, F9::Output, F10::Output, F11::Output, F12::Output, F13::Output,
    );

    /// A join may be polled while every slot is well formed and none has
    /// given up its output.
    open spec fn live(&self) -> bool {
        self@.holding()
    }

    /// One cycle of the join (see [`join_cycle`]): the slots in progress are
    /// polled in declared order. The tuple holds in each position the output
    /// of the operand declared in that position.
    fn poll(&mut self, cx: &mut core::task::Context<'_>) -> (polled: Poll<Self::Output>)
        ensures
            polled is Ready <==> all_settled(final(self)@.settled()),
            final(self).now() == old(self).now() + old(self)@.due(),
            match polled {
                Poll::Ready(output) => final(self)@.finished_from(
                    &old(self)@,
                    (output.0, (output.1, (output.2, (output.3, (output.4, (output.5, (output.6,
                        (output.7, (output.8, (output.9, (output.10, (output.11, (output.12,
                        (output.13, ())))))))))))))),
                ),
                Poll::Pending => final(self)@.advanced_from(&old(self)@, old(self).now()),
            },
    {
        match join_cycle(&mut self.slots, cx, &mut self.clock) {
            Poll::Ready((o0, (o1, (o2, (o3, (o4, (o5, (o6, (o7, (o8, (o9, (o10, (o11, (o12,
                (o13, ()))))))))))))))) => {
                Poll::Ready((o0, o1, o2, o3, o4, o5, o6, o7, o8, o9, o10, o11, o12, o13))
            },
            Poll::Pending => Poll::Pending,
        }
    }
}

impl<
    F0: Operation, F1: Operation, F2: Operation, F3: Operation, F4: Operation, F5: Operation,
    F6: Operation, F7: Operation, F8: Operation, F9: Operation, F10: Operation, F11: Operation,
    F12: Operation, F13: Operation,
> Join for (
    F0, F1, F2, F3, F4, F5, F6, F7, F8, F9, F10, F11, F12, F13,
) {
    type Output = (
        F0::Output, F1::Output, F2::Output, F3::Output, F4::Output, F5::Output, F6::Output,
        F7::Output, F8::Output, F9::Output, F10::Output, F11::Output, F12::Output, F13::Output,
    );

    type Combined = Joined<Slots<F0, Slots<F1, Slots<F2, Slots<F3, Slots<F4, Slots<F5, Slots<F6,
        Slots<F7, Slots<F8, Slots<F9, Slots<F10, Slots<F11, Slots<F12, Slots<F13,
        NoSlots>>>>>>>>>>>>>>>;

    /// Takes the operations over, each into a slot in progress, in declared
    /// order. None of them is polled yet, and the join may be polled if all of
    /// them may.
    fn join(self) -> (joined: Self::Combined)
        ensures
            joined@.fresh((self.0, (self.1, (self.2, (self.3, (self.4, (self.5, (self.6,
                (self.7, (self.8, (self.9, (self.10, (self.11, (self.12, (self.13,
                ()))))))))))))))),
            joined.now() == 0,
            joined.live() <==> (
                self.0.live() && self.1.live() && self.2.live() && self.3.live() &&
                self.4.live() && self.5.live() && self.6.live() && self.7.live() &&
                self.8.live() && self.9.live() && self.10.live() && self.11.live() &&
                self.12.live() && self.13.live()
            ),
    {
        Joined {
            slots: Slots::new((self.0, (self.1, (self.2, (self.3, (self.4, (self.5, (self.6,
                (self.7, (self.8, (self.9, (self.10, (self.11, (self.12, (self.13,
                ()))))))))))))))),
            clock: Clock::new(),
        }
    }
}

/// The join of fifteen operations.
impl<
    F0: Operation, F1: Operation, F2: Operation, F3: Operation, F4: Operation, F5: Operation,
    F6: Operation, F7: Operation, F8: Operation, F9: Operation, F10: Operation, F11: Operation,
    F12: Operation, F13: Operation, F14: Operation,
> Operation for Joined<
    Slots<F0, Slots<F1, Slots<F2, Slots<F3, Slots<F4, Slots<F5, Slots<F6, Slots<F7, Slots<F8,
        Slots<F9, Slots<F10, Slots<F11, Slots<F12, Slots<F13, Slots<F14, NoSlots>>>>>>>>>>>>>>>,
> {
    type Output = (
        F0::Output, F1::Output, F2::Output, F3::Output, F4::Output, F5::Output, F6::Output,
        F7::Output, F8::Output, F9::Output, F10::Output, F11::Output, F12::Output, F13::Output,
        F14::Output,
    );

    /// A join may be polled while every slot is well formed and none has
    /// given up its output.
    open spec fn live(&self) -> bool {
        self@.holding()
    }

    /// One cycle of the join (see [`join_cycle`]): the slots in progress are
    /// polled in declared order. The tuple holds in each position the output
    /// of the operand declared in that position.
    fn poll(&mut self, cx: &mut core::task::Context<'_>) -> (polled: Poll<Self::Output>)
        ensures
            polled is Ready <==> all_settled(final(self)@.settled()),
            final(self).now() == old(self).now() + old(self)@.due(),
            match polled {
                Poll::Ready(output) => final(self)@.finished_from(
                    &old(self)@,
                    (output.0, (output.1, (output.2, (output.3, (output.4, (output.5, (output.6,
                        (output.7, (output.8, (output.9, (output.10, (output.11, (output.12,
                        (output.13, (output.14, ()))))))))))))))),
                ),
                Poll::Pending => final(self)@.advanced_from(&old(self)@, old(self).now()),
            },
    {
        match join_cycle(&mut self.slots, cx, &mut self.clock) {
            Poll::Ready((o0, (o1, (o2, (o3, (o4, (o5, (o6, (o7, (o8, (o9, (o10, (o11, (o12,
                (o13, (o14, ())))))))))))))))) => {
                Poll::Ready((o0, o1, o2, o3, o4, o5, o6, o7, o8, o9, o10, o11, o12, o13, o14))
            },
            Poll::Pending => Poll::Pending,
        }
    }
}

impl<
    F0: Operation, F1: Operation, F2: Operation, F3: Operation, F4: Operation, F5: Operation,
    F6: Operation, F7: Operation, F8: Operation, F9: Operation, F10: Operation, F11: Operation,
    F12: Operation, F13: Operation, F14: Operation,
> Join for (
    F0, F1, F2, F3, F4, F5, F6, F7, F8, F9, F10, F11, F12, F13, F14,
) {
    type Output = (
        F0::Output, F1::Output, F2::Output, F3::Output, F4::Output, F5::Output, F6::Output,
        F7::Output, F8::Output, F9::Output, F10::Output, F11::Output, F12::Output, F13::Output,
        F14::Output,
    );

    type Combined = Joined<Slots<F0, Slots<F1, Slots<F2, Slots<F3, Slots<F4, Slots<F5, Slots<F6,
        Slots<F7, Slots<F8, Slots<F9, Slots<F10, Slots<F11, Slots<F12, Slots<F13, Slots<F14,
        NoSlots>>>>>>>>>>>>>>>>;

    /// Takes the operations over, each into a slot in progress, in declared
    /// order. None of them is polled yet, and the join may be polled if all of
    /// them may.
    fn join(self) -> (joined: Self::Combined)
        ensures
            joined@.fresh((self.0, (self.1, (self.2, (self.3, (self.4, (self.5, (self.6,
                (self.7, (self.8, (self.9, (self.10, (self.11, (self.12, (self.13, (self.14,
                ())))))))))))))))),
            joined.now() == 0,
            joined.live() <==> (
                self.0.live() && self.1.live() && self.2.live() && self.3.live() &&
                self.4.live() && self.5.live() && self.6.live() && self.7.live() &&
                self.8.live() && self.9.live() && self.10.live() && self.11.live() &&
                self.12.live() && self.13.live() && self.14.live()
            ),
    {
        Joined {
            slots: Slots::new((self.0, (self.1, (self.2, (self.3, (self.4, (self.5, (self.6,
                (self.7, (self.8, (self.9, (self.10, (self.11, (self.12, (self.13, (self.14,
                ())))))))))))))))),
            clock: Clock::new(),
        }
    }
}

/// The join of sixteen operations.
impl<
    F0: Operation, F1: Operation, F2: Operation, F3: Operation, F4: Operation, F5: Operation,
    F6: Operation, F7: Operation, F8: Operation, F9: Operation, F10: Operation, F11: Operation,
    F12: Operation, F13: Operation, F14: Operation, F15: Operation,
> Operation for Joined<
    Slots<F0, Slots<F1, Slots<F2, Slots<F3, Slots<F4, Slots<F5, Slots<F6, Slots<F7, Slots<F8,
        Slots<F9, Slots<F10, Slots<F11, Slots<F12, Slots<F13, Slots<F14, Slots<F15,
        NoSlots>>>>>>>>>>>>>>>>,
> {
    type Output = (
        F0::Output, F1::Output, F2::Output, F3::Output, F4::Output, F5::Output, F6::Output,
        F7::Output, F8::Output, F9::Output, F10::Output, F11::Output, F12::Output, F13::Output,
        F14::Output, F15::Output,
    );

    /// A join may be polled while every slot is well formed and none has
    /// given up its output.
    open spec fn live(&self) -> bool {
        self@.holding()
    }

    /// One cycle of the join (see [`join_cycle`]): the slots in progress are
    /// polled in declared order. The tuple holds in each position the output
    /// of the operand declared in that position.
    fn poll(&mut self, cx: &mut core::task::Context<'_>) -> (polled: Poll<Self::Output>)
        ensures
            polled is Ready <==> all_settled(final(self)@.settled()),
            final(self).now() == old(self).now() + old(self)@.due(),
            match polled {
                Poll::Ready(output) => final(self)@.finished_from(
                    &old(self)@,
                    (output.0, (output.1, (output.2, (output.3, (output.4, (output.5, (output.6,
                        (output.7, (output.8, (output.9, (output.10, (output.11, (output.12,
                        (output.13, (output.14, (output.15, ())))))))))))))))),
                ),
                Poll::Pending => final(self)@.advanced_from(&old(self)@, old(self).now()),
            },
    {
        match join_cycle(&mut self.slots, cx, &mut self.clock) {
            Poll::Ready((o0, (o1, (o2, (o3, (o4, (o5, (o6, (o7, (o8, (o9, (o10, (o11, (o12,
                (o13, (o14, (o15, ()))))))))))))))))) => {
                Poll::Ready((o0, o1, o2, o3, o4, o5, o6, o7, o8, o9, o10, o11, o12, o13, o14, o15))
            },
            Poll::Pending => Poll::Pending,
        }
    }
}

impl<
    F0: Operation, F1: Operation, F2: Operation, F3: Operation, F4: Operation, F5: Operation,
    F6: Operation, F7: Operation, F8: Operation, F9: Operation, F10: Operation, F11: Operation,
    F12: Operation, F13: Operation, F14: Operation, F15: Operation,
> Join for (
    F0, F1, F2, F3, F4, F5, F6, F7, F8, F9, F10, F11, F12, F13, F14, F15,
) {
    type Output = (
        F0::Output, F1::Output, F2::Output, F3::Output, F4::Output, F5::Output, F6::Output,
        F7::Output, F8::Output, F9::Output, F10::Output, F11::Output, F12::Output, F13::Output,
        F14::Output, F15::Output,
    );

    type Combined = Joined<Slots<F0, Slots<F1, Slots<F2, Slots<F3, Slots<F4, Slots<F5, Slots<F6,
        Slots<F7, Slots<F8, Slots<F9, Slots<F10, Slots<F11, Slots<F12, Slots<F13, Slots<F14,
        Slots<F15, NoSlots>>>>>>>>>>>>>>>>>;

    /// Takes the operations over, each into a slot in progress, in declared
    /// order. None of them is polled yet, and the join may be polled if all of
    /// them may.
    fn join(self) -> (joined: Self::Combined)
        ensures
            joined@.fresh((self.0, (self.1, (self.2, (self.3, (self.4, (self.5, (self.6,
                (self.7, (self.8, (self.9, (self.10, (self.11, (self.12, (self.13, (self.14,
                (self.15, ()))))))))))))))))),
            joined.now() == 0,
            joined.live() <==> (
                self.0.live() && self.1.live() && self.2.live() && self.3.live() &&
                self.4.live() && self.5.live() && self.6.live() && self.7.live() &&
                self.8.live() && self.9.live() && self.10.live() && self.11.live() &&
                self.12.live() && self.13.live() && self.14.live() && self.15.live()
            ),
    {
        Joined {
            slots: Slots::new((self.0, (self.1, (self.2, (self.3, (self.4, (self.5, (self.6,
                (self.7, (self.8, (self.9, (self.10, (self.11, (self.12, (self.13, (self.14,
                (self.15, ()))))))))))))))))),
            clock: Clock::new(),
        }
    }
}

} // verus!
