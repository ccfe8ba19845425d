//! Race: finish with the first operand that does, and say which one it was.

use crate::either::{
    Either, Either10, Either11, Either12, Either13, Either14, Either15, Either16, Either3,
    Either4, Either5, Either6, Either7, Either8, Either9,
};
use crate::model::first_ready;
use crate::operands::{LastOperand, OperandList, Operands};
use crate::operation::{Clock, Operation, Poll};
use vstd::prelude::*;

verus! {

/// Combine several operations into one that finishes when any one of them
/// does.
///
/// Implemented for tuples of two to sixteen operations. The output is that of
/// the operand that finished first, tagged with its position. Operands are
/// polled in declared order, so that of two operands ready in the same cycle
/// the one declared first wins. The others are dropped with the race; they
/// are told nothing.
pub trait Race {
    /// The output of the combined operation.
    type Output;

    /// The combined operation.
    type Combined: Operation<Output = Self::Output>;

    /// Combine several operations into one that finishes when any one of them
    /// does.
    fn race(self) -> Self::Combined;
}

/// The race between the operands in the list `L`.
pub struct Raced<L: OperandList> {
    operands: L,
    clock: Clock,
}

impl<L: OperandList> View for Raced<L> {
    type V = L;

    /// The operands in declared order.
    closed spec fn view(&self) -> L {
        self.operands
    }
}

impl<L: OperandList> Raced<L> {
    /// The number of polls that the race has made of its operands.
    pub closed spec fn now(&self) -> nat {
        self.clock.now()
    }
}

/// The race between two operations.
impl<F0: Operation, F1: Operation> Operation for Raced<Operands<F0, LastOperand<F1>>> {
    type Output = Either<F0::Output, F1::Output>;

    /// A race may be polled while no operand has reported its output: once
    /// it has a winner, it polls no operand again.
    open spec fn live(&self) -> bool {
        self@.live()
    }

    /// One cycle of the race (see [`OperandList::race`]). The result is the
    /// output that the winner has reported, tagged with its position.
    fn poll(&mut self, cx: &mut core::task::Context<'_>) -> (polled: Poll<Self::Output>)
        ensures
            polled == (match final(self)@.won() {
                Some(won) => Poll::Ready(Either::tagged(won)),
                None => Poll::Pending,
            }),
            final(self)@.raced_from(
                &old(self)@,
                first_ready(final(self)@.reported()),
                old(self).now(),
            ),
            final(self).now() == old(self).now() + old(self)@.polled(
                first_ready(final(self)@.reported()),
            ),
            match polled {
                Poll::Ready(output) => first_ready(final(self)@.reported()) == Some(
                    output.position(),
                ),
                Poll::Pending => first_ready(final(self)@.reported()) is None,
            },
    {
        match self.operands.race(cx, &mut self.clock) {
            Poll::Ready(won) => Poll::Ready(Either::tag(won)),
            Poll::Pending => Poll::Pending,
        }
    }
}

impl<F0: Operation, F1: Operation> Race for (F0, F1) {
    type Output = Either<F0::Output, F1::Output>;

    type Combined = Raced<Operands<F0, LastOperand<F1>>>;

    /// Takes the operations over in declared order. None of them is polled
    /// yet, and the race may be polled if all of them may.
    fn race(self) -> (race: Self::Combined)
        ensures
            race@.fresh((self.0, self.1)),
            race.now() == 0,
            race.live() <==> (self.0.live() && self.1.live()),
    {
        Raced {
            operands: Operands::new((self.0, self.1)),
            clock: Clock::new(),
        }
    }
}

/// The race between three operations.
impl<F0: Operation, F1: Operation, F2: Operation> Operation for Raced<
    Operands<F0, Operands<F1, LastOperand<F2>>>,
> {
    type Output = Either3<F0::Output, F1::Output, F2::Output>;

    /// A race may be polled while no operand has reported its output: once
    /// it has a winner, it polls no operand again.
    open spec fn live(&self) -> bool {
        self@.live()
    }

    /// One cycle of the race (see [`OperandList::race`]). The result is the
    /// output that the winner has reported, tagged with its position.
    fn poll(&mut self, cx: &mut core::task::Context<'_>) -> (polled: Poll<Self::Output>)
        ensures
            polled == (match final(self)@.won() {
                Some(won) => Poll::Ready(Either3::tagged(won)),
                None => Poll::Pending,
            }),
            final(self)@.raced_from(
                &old(self)@,
                first_ready(final(self)@.reported()),
                old(self).now(),
            ),
            final(self).now() == old(self).now() + old(self)@.polled(
                first_ready(final(self)@.reported()),
            ),
            match polled {
                Poll::Ready(output) => first_ready(final(self)@.reported()) == Some(
                    output.position(),
                ),
                Poll::Pending => first_ready(final(self)@.reported()) is None,
            },
    {
        match self.operands.race(cx, &mut self.clock) {
            Poll::Ready(won) => Poll::Ready(Either3::tag(won)),
            Poll::Pending => Poll::Pending,
        }
    }
}

impl<F0: Operation, F1: Operation, F2: Operation> Race for (F0, F1, F2) {
    type Output = Either3<F0::Output, F1::Output, F2::Output>;

    type Combined = Raced<Operands<F0, Operands<F1, LastOperand<F2>>>>;

    /// Takes the operations over in declared order. None of them is polled
    /// yet, and the race may be polled if all of them may.
    fn race(self) -> (race: Self::Combined)
        ensures
            race@.fresh((self.0, (self.1, self.2))),
            race.now() == 0,
            race.live() <==> (self.0.live() && self.1.live() && self.2.live()),
    {
        Raced {
            operands: Operands::new((self.0, (self.1, self.2))),
            clock: Clock::new(),
        }
    }
}

/// The race between four operations.
impl<F0: Operation, F1: Operation, F2: Operation, F3: Operation> Operation for Raced<
    Operands<F0, Operands<F1, Operands<F2, LastOperand<F3>>>>,
> {
    type Output = Either4<F0::Output, F1::Output, F2::Output, F3::Output>;

    /// A race may be polled while no operand has reported its output: once
    /// it has a winner, it polls no operand again.
    open spec fn live(&self) -> bool {
        self@.live()
    }

    /// One cycle of the race (see [`OperandList::race`]). The result is the
    /// output that the winner has reported, tagged with its position.
    fn poll(&mut self, cx: &mut core::task::Context<'_>) -> (polled: Poll<Self::Output>)
        ensures
            polled == (match final(self)@.won() {
                Some(won) => Poll::Ready(Either4::tagged(won)),
                None => Poll::Pending,
            }),
            final(self)@.raced_from(
                &old(self)@,
                first_ready(final(self)@.reported()),
                old(self).now(),
            ),
            final(self).now() == old(self).now() + old(self)@.polled(
                first_ready(final(self)@.reported()),
            ),
            match polled {
                Poll::Ready(output) => first_ready(final(self)@.reported()) == Some(
                    output.position(),
                ),
                Poll::Pending => first_ready(final(self)@.reported()) is None,
            },
    {
        match self.operands.race(cx, &mut self.clock) {
            Poll::Ready(won) => Poll::Ready(Either4::tag(won)),
            Poll::Pending => Poll::Pending,
        }
    }
}

impl<F0: Operation, F1: Operation, F2: Operation, F3: Operation> Race for (F0, F1, F2, F3) {
    type Output = Either4<F0::Output, F1::Output, F2::Output, F3::Output>;

    type Combined = Raced<Operands<F0, Operands<F1, Operands<F2, LastOperand<F3>>>>>;

    /// Takes the operations over in declared order. None of them is polled
    /// yet, and the race may be polled if all of them may.
    fn race(self) -> (race: Self::Combined)
        ensures
            race@.fresh((self.0, (self.1, (self.2, self.3)))),
            race.now() == 0,
            race.live() <==> (self.0.live() && self.1.live() && self.2.live() && self.3.live()),
    {
        Raced {
            operands: Operands::new((self.0, (self.1, (self.2, self.3)))),
            clock: Clock::new(),
        }
    }
}

/// The race between five operations.
impl<F0: Operation, F1: Operation, F2: Operation, F3: Operation, F4: Operation> Operation for Raced<
    Operands<F0, Operands<F1, Operands<F2, Operands<F3, LastOperand<F4>>>>>,
> {
    type Output = Either5<F0::Output, F1::Output, F2::Output, F3::Output, F4::Output>;

    /// A race may be polled while no operand has reported its output: once
    /// it has a winner, it polls no operand again.
    open spec fn live(&self) -> bool {
        self@.live()
    }

    /// One cycle of the race (see [`OperandList::race`]). The result is the
    /// output that the winner has reported, tagged with its position.
    fn poll(&mut self, cx: &mut core::task::Context<'_>) -> (polled: Poll<Self::Output>)
        ensures
            polled == (match final(self)@.won() {
                Some(won) => Poll::Ready(Either5::tagged(won)),
                None => Poll::Pending,
            }),
            final(self)@.raced_from(
                &old(self)@,
                first_ready(final(self)@.reported()),
                old(self).now(),
            ),
            final(self).now() == old(self).now() + old(self)@.polled(
                first_ready(final(self)@.reported()),
            ),
            match polled {
                Poll::Ready(output) => first_ready(final(self)@.reported()) == Some(
                    output.position(),
                ),
                Poll::Pending => first_ready(final(self)@.reported()) is None,
            },
    {
        match self.operands.race(cx, &mut self.clock) {
            Poll::Ready(won) => Poll::Ready(Either5::tag(won)),
            Poll::Pending => Poll::Pending,
        }
    }
}

impl<
    F0: Operation, F1: Operation, F2: Operation, F3: Operation, F4: Operation,
> Race for (
    F0, F1, F2, F3, F4,
) {
    type Output = Either5<F0::Output, F1::Output, F2::Output, F3::Output, F4::Output>;

    type Combined = Raced<Operands<F0, Operands<F1, Operands<F2, Operands<F3, LastOperand<F4>>>>>>;

    /// Takes the operations over in declared order. None of them is polled
    /// yet, and the race may be polled if all of them may.
    fn race(self) -> (race: Self::Combined)
        ensures
            race@.fresh((self.0, (self.1, (self.2, (self.3, self.4))))),
            race.now() == 0,
            race.live() <==> (
                self.0.live() && self.1.live() && self.2.live() && self.3.live() &&
                self.4.live()
            ),
    {
        Raced {
            operands: Operands::new((self.0, (self.1, (self.2, (self.3, self.4))))),
            clock: Clock::new(),
        }
    }
}

/// The race between six operations.
impl<
    F0: Operation, F1: Operation, F2: Operation, F3: Operation, F4: Operation, F5: Operation,
> Operation for Raced<
    Operands<F0, Operands<F1, Operands<F2, Operands<F3, Operands<F4, LastOperand<F5>>>>>>,
> {
    type Output = Either6<F0::Output, F1::Output, F2::Output, F3::Output, F4::Output, F5::Output>;

    /// A race may be polled while no operand has reported its output: once
    /// it has a winner, it polls no operand again.
    open spec fn live(&self) -> bool {
        self@.live()
    }

    /// One cycle of the race (see [`OperandList::race`]). The result is the
    /// output that the winner has reported, tagged with its position.
    fn poll(&mut self, cx: &mut core::task::Context<'_>) -> (polled: Poll<Self::Output>)
        ensures
            polled == (match final(self)@.won() {
                Some(won) => Poll::Ready(Either6::tagged(won)),
                None => Poll::Pending,
            }),
            final(self)@.raced_from(
                &old(self)@,
                first_ready(final(self)@.reported()),
                old(self).now(),
            ),
            final(self).now() == old(self).now() + old(self)@.polled(
                first_ready(final(self)@.reported()),
            ),
            match polled {
                Poll::Ready(output) => first_ready(final(self)@.reported()) == Some(
                    output.position(),
                ),
                Poll::Pending => first_ready(final(self)@.reported()) is None,
            },
    {
        match self.operands.race(cx, &mut self.clock) {
            Poll::Ready(won) => Poll::Ready(Either6::tag(won)),
            Poll::Pending => Poll::Pending,
        }
    }
}

impl<
    F0: Operation, F1: Operation, F2: Operation, F3: Operation, F4: Operation, F5: Operation,
> Race for (
    F0, F1, F2, F3, F4, F5,
) {
    type Output = Either6<F0::Output, F1::Output, F2::Output, F3::Output, F4::Output, F5::Output>;

    type Combined = Raced<Operands<F0, Operands<F1, Operands<F2, Operands<F3, Operands<F4,
        LastOperand<F5>>>>>>>;

    /// Takes the operations over in declared order. None of them is polled
    /// yet, and the race may be polled if all of them may.
    fn race(self) -> (race: Self::Combined)
        ensures
            race@.fresh((self.0, (self.1, (self.2, (self.3, (self.4, self.5)))))),
            race.now() == 0,
            race.live() <==> (
                self.0.live() && self.1.live() && self.2.live() && self.3.live() &&
                self.4.live() && self.5.live()
            ),
    {
        Raced {
            operands: Operands::new((self.0, (self.1, (self.2, (self.3, (self.4, self.5)))))),
            clock: Clock::new(),
        }
    }
}

/// The race between seven operations.
impl<
    F0: Operation, F1: Operation, F2: Operation, F3: Operation, F4: Operation, F5: Operation,
    F6: Operation,
> Operation for Raced<
    Operands<F0, Operands<F1, Operands<F2, Operands<F3, Operands<F4, Operands<F5,
        LastOperand<F6>>>>>>>,
> {
    type Output = Either7<
        F0::Output, F1::Output, F2::Output, F3::Output, F4::Output, F5::Output, F6::Output,
    >;

    /// A race may be polled while no operand has reported its output: once
    /// it has a winner, it polls no operand again.
    open spec fn live(&self) -> bool {
        self@.live()
    }

    /// One cycle of the race (see [`OperandList::race`]). The result is the
    /// output that the winner has reported, tagged with its position.
    fn poll(&mut self, cx: &mut core::task::Context<'_>) -> (polled: Poll<Self::Output>)
        ensures
            polled == (match final(self)@.won() {
                Some(won) => Poll::Ready(Either7::tagged(won)),
                None => Poll::Pending,
            }),
            final(self)@.raced_from(
                &old(self)@,
                first_ready(final(self)@.reported()),
                old(self).now(),
            ),
            final(self).now() == old(self).now() + old(self)@.polled(
                first_ready(final(self)@.reported()),
            ),
            match polled {
                Poll::Ready(output) => first_ready(final(self)@.reported()) == Some(
                    output.position(),
                ),
                Poll::Pending => first_ready(final(self)@.reported()) is None,
            },
    {
        match self.operands.race(cx, &mut self.clock) {
            Poll::Ready(won) => Poll::Ready(Either7::tag(won)),
            Poll::Pending => Poll::Pending,
        }
    }
}

impl<
    F0: Operation, F1: Operation, F2: Operation, F3: Operation, F4: Operation, F5: Operation,
    F6: Operation,
> Race for (
    F0, F1, F2, F3, F4, F5, F6,
) {
    type Output = Either7<
        F0::Output, F1::Output, F2::Output, F3::Output, F4::Output, F5::Output, F6::Output,
    >;

    type Combined = Raced<Operands<F0, Operands<F1, Operands<F2, Operands<F3, Operands<F4,
        Operands<F5, LastOperand<F6>>>>>>>>;

    /// Takes the operations over in declared order. None of them is polled
    /// yet, and the race may be polled if all of them may.
    fn race(self) -> (race: Self::Combined)
        ensures
            race@.fresh((self.0, (self.1, (self.2, (self.3, (self.4, (self.5, self.6))))))),
            race.now() == 0,
            race.live() <==> (
                self.0.live() && self.1.live() && self.2.live() && self.3.live() &&
                self.4.live() && self.5.live() && self.6.live()
            ),
    {
        Raced {
            operands: Operands::new((self.0, (self.1, (self.2, (self.3, (self.4, (self.5,
                self.6))))))),
            clock: Clock::new(),
        }
    }
}

/// The race between eight operations.
impl<
    F0: Operation, F1: Operation, F2: Operation, F3: Operation, F4: Operation, F5: Operation,
    F6: Operation, F7: Operation,
> Operation for Raced<
    Operands<F0, Operands<F1, Operands<F2, Operands<F3, Operands<F4, Operands<F5, Operands<F6,
        LastOperand<F7>>>>>>>>,
> {
    type Output = Either8<
        F0::Output, F1::Output, F2::Output, F3::Output, F4::Output, F5::Output, F6::Output,
        F7::Output,
    >;

    /// A race may be polled while no operand has reported its output: once
    /// it has a winner, it polls no operand again.
    open spec fn live(&self) -> bool {
        self@.live()
    }

    /// One cycle of the race (see [`OperandList::race`]). The result is the
    /// output that the winner has reported, tagged with its position.
    fn poll(&mut self, cx: &mut core::task::Context<'_>) -> (polled: Poll<Self::Output>)
        ensures
            polled == (match final(self)@.won() {
                Some(won) => Poll::Ready(Either8::tagged(won)),
                None => Poll::Pending,
            }),
            final(self)@.raced_from(
                &old(self)@,
                first_ready(final(self)@.reported()),
                old(self).now(),
            ),
            final(self).now() == old(self).now() + old(self)@.polled(
                first_ready(final(self)@.reported()),
            ),
            match polled {
                Poll::Ready(output) => first_ready(final(self)@.reported()) == Some(
                    output.position(),
                ),
                Poll::Pending => first_ready(final(self)@.reported()) is None,
            },
    {
        match self.operands.race(cx, &mut self.clock) {
            Poll::Ready(won) => Poll::Ready(Either8::tag(won)),
            Poll::Pending => Poll::Pending,
        }
    }
}

impl<
    F0: Operation, F1: Operation, F2: Operation, F3: Operation, F4: Operation, F5: Operation,
    F6: Operation, F7: Operation,
> Race for (
    F0, F1, F2, F3, F4, F5, F6, F7,
) {
    type Output = Either8<
        F0::Output, F1::Output, F2::Output, F3::Output, F4::Output, F5::Output, F6::Output,
        F7::Output,
    >;

    type Combined = Raced<Operands<F0, Operands<F1, Operands<F2, Operands<F3, Operands<F4,
        Operands<F5, Operands<F6, LastOperand<F7>>>>>>>>>;

    /// Takes the operations over in declared order. None of them is polled
    /// yet, and the race may be polled if all of them may.
    fn race(self) -> (race: Self::Combined)
        ensures
            race@.fresh((self.0, (self.1, (self.2, (self.3, (self.4, (self.5, (self.6,
                self.7)))))))),
            race.now() == 0,
            race.live() <==> (
                self.0.live() && self.1.live() && self.2.live() && self.3.live() &&
                self.4.live() && self.5.live() && self.6.live() && self.7.live()
            ),
    {
        Raced {
            operands: Operands::new((self.0, (self.1, (self.2, (self.3, (self.4, (self.5,
                (self.6, self.7)))))))),
            clock: Clock::new(),
        }
    }
}

/// The race between nine operations.
impl<
    F0: Operation, F1: Operation, F2: Operation, F3: Operation, F4: Operation, F5: Operation,
    F6: Operation, F7: Operation, F8: Operation,
> Operation for Raced<
    Operands<F0, Operands<F1, Operands<F2, Operands<F3, Operands<F4, Operands<F5, Operands<F6,
        Operands<F7, LastOperand<F8>>>>>>>>>,
> {
    type Output = Either9<
        F0::Output, F1::Output, F2::Output, F3::Output, F4::Output, F5::Output, F6::Output,
        F7::Output, F8::Output,
    >;

    /// A race may be polled while no operand has reported its output: once
    /// it has a winner, it polls no operand again.
    open spec fn live(&self) -> bool {
        self@.live()
    }

    /// One cycle of the race (see [`OperandList::race`]). The result is the
    /// output that the winner has reported, tagged with its position.
    fn poll(&mut self, cx: &mut core::task::Context<'_>) -> (polled: Poll<Self::Output>)
        ensures
            polled == (match final(self)@.won() {
                Some(won) => Poll::Ready(Either9::tagged(won)),
                None => Poll::Pending,
            }),
            final(self)@.raced_from(
                &old(self)@,
                first_ready(final(self)@.reported()),
                old(self).now(),
            ),
            final(self).now() == old(self).now() + old(self)@.polled(
                first_ready(final(self)@.reported()),
            ),
            match polled {
                Poll::Ready(output) => first_ready(final(self)@.reported()) == Some(
                    output.position(),
                ),
                Poll::Pending => first_ready(final(self)@.reported()) is None,
            },
    {
        match self.operands.race(cx, &mut self.clock) {
            Poll::Ready(won) => Poll::Ready(Either9::tag(won)),
            Poll::Pending => Poll::Pending,
        }
    }
}

impl<
    F0: Operation, F1: Operation, F2: Operation, F3: Operation, F4: Operation, F5: Operation,
    F6: Operation, F7: Operation, F8: Operation,
> Race for (
    F0, F1, F2, F3, F4, F5, F6, F7, F8,
) {
    type Output = Either9<
        F0::Output, F1::Output, F2::Output, F3::Output, F4::Output, F5::Output, F6::Output,
        F7::Output, F8::Output,
    >;

    type Combined = Raced<Operands<F0, Operands<F1, Operands<F2, Operands<F3, Operands<F4,
        Operands<F5, Operands<F6, Operands<F7, LastOperand<F8>>>>>>>>>>;

    /// Takes the operations over in declared order. None of them is polled
    /// yet, and the race may be polled if all of them may.
    fn race(self) -> (race: Self::Combined)
        ensures
            race@.fresh((self.0, (self.1, (self.2, (self.3, (self.4, (self.5, (self.6, (self.7,
                self.8))))))))),
            race.now() == 0,
            race.live() <==> (
                self.0.live() && self.1.live() && self.2.live() && self.3.live() &&
                self.4.live() && self.5.live() && self.6.live() && self.7.live() &&
                self.8.live()
            ),
    {
        Raced {
            operands: Operands::new((self.0, (self.1, (self.2, (self.3, (self.4, (self.5,
                (self.6, (self.7, self.8))))))))),
            clock: Clock::new(),
        }
    }
}

/// The race between ten operations.
impl<
    F0: Operation, F1: Operation, F2: Operation, F3: Operation, F4: Operation, F5: Operation,
    F6: Operation, F7: Operation, F8: Operation, F9: Operation,
> Operation for Raced<
    Operands<F0, Operands<F1, Operands<F2, Operands<F3, Operands<F4, Operands<F5, Operands<F6,
        Operands<F7, Operands<F8, LastOperand<F9>>>>>>>>>>,
> {
    type Output = Either10<
        F0::Output, F1::Output, F2::Output, F3::Output, F4::Output, F5::Output, F6::Output,
        F7::Output, F8::Output, F9::Output,
    >;

    /// A race may be polled while no operand has reported its output: once
    /// it has a winner, it polls no operand again.
    open spec fn live(&self) -> bool {
        self@.live()
    }

    /// One cycle of the race (see [`OperandList::race`]). The result is the
    /// output that the winner has reported, tagged with its position.
    fn poll(&mut self, cx: &mut core::task::Context<'_>) -> (polled: Poll<Self::Output>)
        ensures
            polled == (match final(self)@.won() {
                Some(won) => Poll::Ready(Either10::tagged(won)),
                None => Poll::Pending,
            }),
            final(self)@.raced_from(
                &old(self)@,
                first_ready(final(self)@.reported()),
                old(self).now(),
            ),
            final(self).now() == old(self).now() + old(self)@.polled(
                first_ready(final(self)@.reported()),
            ),
            match polled {
                Poll::Ready(output) => first_ready(final(self)@.reported()) == Some(
                    output.position(),
                ),
                Poll::Pending => first_ready(final(self)@.reported()) is None,
            },
    {
        match self.operands.race(cx, &mut self.clock) {
            Poll::Ready(won) => Poll::Ready(Either10::tag(won)),
            Poll::Pending => Poll::Pending,
        }
    }
}

impl<
    F0: Operation, F1: Operation, F2: Operation, F3: Operation, F4: Operation, F5: Operation,
    F6: Operation, F7: Operation, F8: Operation, F9: Operation,
> Race for (
    F0, F1, F2, F3, F4, F5, F6, F7, F8, F9,
) {
    type Output = Either10<
        F0::Output, F1::Output, F2::Output, F3::Output, F4::Output, F5::Output, F6::Output,
        F7::Output, F8::Output, F9::Output,
    >;

    type Combined = Raced<Operands<F0, Operands<F1, Operands<F2, Operands<F3, Operands<F4,
        Operands<F5, Operands<F6, Operands<F7, Operands<F8, LastOperand<F9>>>>>>>>>>>;

    /// Takes the operations over in declared order. None of them is polled
    /// yet, and the race may be polled if all of them may.
    fn race(self) -> (race: Self::Combined)
        ensures
            race@.fresh((self.0, (self.1, (self.2, (self.3, (self.4, (self.5, (self.6, (self.7,
                (self.8, self.9)))))))))),
            race.now() == 0,
            race.live() <==> (
                self.0.live() && self.1.live() && self.2.live() && self.3.live() &&
                self.4.live() && self.5.live() && self.6.live() && self.7.live() &&
                self.8.live() && self.9.live()
            ),
    {
        Raced {
            operands: Operands::new((self.0, (self.1, (self.2, (self.3, (self.4, (self.5,
                (self.6, (self.7, (self.8, self.9)))))))))),
            clock: Clock::new(),
        }
    }
}

/// The race between eleven operations.
impl<
    F0: Operation, F1: Operation, F2: Operation, F3: Operation, F4: Operation, F5: Operation,
    F6: Operation, F7: Operation, F8: Operation, F9: Operation, F10: Operation,
> Operation for Raced<
    Operands<F0, Operands<F1, Operands<F2, Operands<F3, Operands<F4, Operands<F5, Operands<F6,
        Operands<F7, Operands<F8, Operands<F9, LastOperand<F10>>>>>>>>>>>,
> {
    type Output = Either11<
        F0::Output, F1::Output, F2::Output, F3::Output, F4::Output, F5::Output, F6::Output,
        F7::Output, F8::Output, F9::Output, F10::Output,
    >;

    /// A race may be polled while no operand has reported its output: once
    /// it has a winner, it polls no operand again.
    open spec fn live(&self) -> bool {
        self@.live()
    }

    /// One cycle of the race (see [`OperandList::race`]). The result is the
    /// output that the winner has reported, tagged with its position.
    fn poll(&mut self, cx: &mut core::task::Context<'_>) -> (polled: Poll<Self::Output>)
        ensures
            polled == (match final(self)@.won() {
                Some(won) => Poll::Ready(Either11::tagged(won)),
                None => Poll::Pending,
            }),
            final(self)@.raced_from(
                &old(self)@,
                first_ready(final(self)@.reported()),
                old(self).now(),
            ),
            final(self).now() == old(self).now() + old(self)@.polled(
                first_ready(final(self)@.reported()),
            ),
            match polled {
                Poll::Ready(output) => first_ready(final(self)@.reported()) == Some(
                    output.position(),
                ),
                Poll::Pending => first_ready(final(self)@.reported()) is None,
            },
    {
        match self.operands.race(cx, &mut self.clock) {
            Poll::Ready(won) => Poll::Ready(Either11::tag(won)),
            Poll::Pending => Poll::Pending,
        }
    }
}

impl<
    F0: Operation, F1: Operation, F2: Operation, F3: Operation, F4: Operation, F5: Operation,
    F6: Operation, F7: Operation, F8: Operation, F9: Operation, F10: Operation,
> Race for (
    F0, F1, F2, F3, F4, F5, F6, F7, F8, F9, F10,
) {
    type Output = Either11<
        F0::Output, F1::Output, F2::Output, F3::Output, F4::Output, F5::Output, F6::Output,
        F7::Output, F8::Output, F9::Output, F10::Output,
    >;

    type Combined = Raced<Operands<F0, Operands<F1, Operands<F2, Operands<F3, Operands<F4,
        Operands<F5, Operands<F6, Operands<F7, Operands<F8, Operands<F9,
        LastOperand<F10>>>>>>>>>>>>;

    /// Takes the operations over in declared order. None of them is polled
    /// yet, and the race may be polled if all of them may.
    fn race(self) -> (race: Self::Combined)
        ensures
            race@.fresh((self.0, (self.1, (self.2, (self.3, (self.4, (self.5, (self.6, (self.7,
                (self.8, (self.9, self.10))))))))))),
            race.now() == 0,
            race.live() <==> (
                self.0.live() && self.1.live() && self.2.live() && self.3.live() &&
                self.4.live() && self.5.live() && self.6.live() && self.7.live() &&
                self.8.live() && self.9.live() && self.10.live()
            ),
    {
        Raced {
            operands: Operands::new((self.0, (self.1, (self.2, (self.3, (self.4, (self.5,
                (self.6, (self.7, (self.8, (self.9, self.10))))))))))),
            clock: Clock::new(),
        }
    }
}

/// The race between twelve operations.
impl<
    F0: Operation, F1: Operation, F2: Operation, F3: Operation, F4: Operation, F5: Operation,
    F6: Operation, F7: Operation, F8: Operation, F9: Operation, F10: Operation, F11: Operation,
> Operation for Raced<
    Operands<F0, Operands<F1, Operands<F2, Operands<F3, Operands<F4, Operands<F5, Operands<F6,
        Operands<F7, Operands<F8, Operands<F9, Operands<F10, LastOperand<F11>>>>>>>>>>>>,
> {
    type Output = Either12<
        F0::Output, F1::Output, F2::Output, F3::Output, F4::Output, F5::Output, F6::Output,
        F7::Output, F8::Output, F9::Output, F10::Output, F11::Output,
    >;

    /// A race may be polled while no operand has reported its output: once
    /// it has a winner, it polls no operand again.
    open spec fn live(&self) -> bool {
        self@.live()
    }

    /// One cycle of the race (see [`OperandList::race`]). The result is the
    /// output that the winner has reported, tagged with its position.
    fn poll(&mut self, cx: &mut core::task::Context<'_>) -> (polled: Poll<Self::Output>)
        ensures
            polled == (match final(self)@.won() {
                Some(won) => Poll::Ready(Either12::tagged(won)),
                None => Poll::Pending,
            }),
            final(self)@.raced_from(
                &old(self)@,
                first_ready(final(self)@.reported()),
                old(self).now(),
            ),
            final(self).now() == old(self).now() + old(self)@.polled(
                first_ready(final(self)@.reported()),
            ),
            match polled {
                Poll::Ready(output) => first_ready(final(self)@.reported()) == Some(
                    output.position(),
                ),
                Poll::Pending => first_ready(final(self)@.reported()) is None,
            },
    {
        match self.operands.race(cx, &mut self.clock) {
            Poll::Ready(won) => Poll::Ready(Either12::tag(won)),
            Poll::Pending => Poll::Pending,
        }
    }
}

impl<
    F0: Operation, F1: Operation, F2: Operation, F3: Operation, F4: Operation, F5: Operation,
    F6: Operation, F7: Operation, F8: Operation, F9: Operation, F10: Operation, F11: Operation,
> Race for (
    F0, F1, F2, F3, F4, F5, F6, F7, F8, F9, F10, F11,
) {
    type Output = Either12<
        F0::Output, F1::Output, F2::Output, F3::Output, F4::Output, F5::Output, F6::Output,
        F7::Output, F8::Output, F9::Output, F10::Output, F11::Output,
    >;

    type Combined = Raced<Operands<F0, Operands<F1, Operands<F2, Operands<F3, Operands<F4,
        Operands<F5, Operands<F6, Operands<F7, Operands<F8, Operands<F9, Operands<F10,
        LastOperand<F11>>>>>>>>>>>>>;

    /// Takes the operations over in declared order. None of them is polled
    /// yet, and the race may be polled if all of them may.
    fn race(self) -> (race: Self::Combined)
        ensures
            race@.fresh((self.0, (self.1, (self.2, (self.3, (self.4, (self.5, (self.6, (self.7,
                (self.8, (self.9, (self.10, self.11)))))))))))),
            race.now() == 0,
            race.live() <==> (
                self.0.live() && self.1.live() && self.2.live() && self.3.live() &&
                self.4.live() && self.5.live() && self.6.live() && self.7.live() &&
                self.8.live() && self.9.live() && self.10.live() && self.11.live()
            ),
    {
        Raced {
            operands: Operands::new((self.0, (self.1, (self.2, (self.3, (self.4, (self.5,
                (self.6, (self.7, (self.8, (self.9, (self.10, self.11)))))))))))),
            clock: Clock::new(),
        }
    }
}

/// The race between thirteen operations.
impl<
    F0: Operation, F1: Operation, F2: Operation, F3: Operation, F4: Operation, F5: Operation,
    F6: Operation, F7: Operation, F8: Operation, F9: Operation, F10: Operation, F11: Operation,
    F12: Operation,
> Operation for Raced<
    Operands<F0, Operands<F1, Operands<F2, Operands<F3, Operands<F4, Operands<F5, Operands<F6,
        Operands<F7, Operands<F8, Operands<F9, Operands<F10, Operands<F11,
        LastOperand<F12>>>>>>>>>>>>>,
> {
    type Output = Either13<
        F0::Output, F1::Output, F2::Output, F3::Output, F4::Output, F5::Output, F6::Output,
        F7::Output, F8::Output, F9::Output, F10::Output, F11::Output, F12::Output,
    >;

    /// A race may be polled while no operand has reported its output: once
    /// it has a winner, it polls no operand again.
    open spec fn live(&self) -> bool {
        self@.live()
    }

    /// One cycle of the race (see [`OperandList::race`]). The result is the
    /// output that the winner has reported, tagged with its position.
    fn poll(&mut self, cx: &mut core::task::Context<'_>) -> (polled: Poll<Self::Output>)
        ensures
            polled == (match final(self)@.won() {
                Some(won) => Poll::Ready(Either13::tagged(won)),
                None => Poll::Pending,
            }),
            final(self)@.raced_from(
                &old(self)@,
                first_ready(final(self)@.reported()),
                old(self).now(),
            ),
            final(self).now() == old(self).now() + old(self)@.polled(
                first_ready(final(self)@.reported()),
            ),
            match polled {
                Poll::Ready(output) => first_ready(final(self)@.reported()) == Some(
                    output.position(),
                ),
                Poll::Pending => first_ready(final(self)@.reported()) is None,
            },
    {
        match self.operands.race(cx, &mut self.clock) {
            Poll::Ready(won) => Poll::Ready(Either13::tag(won)),
            Poll::Pending => Poll::Pending,
        }
    }
}

impl<
    F0: Operation, F1: Operation, F2: Operation, F3: Operation, F4: Operation, F5: Operation,
    F6: Operation, F7: Operation, F8: Operation, F9: Operation, F10: Operation, F11: Operation,
    F12: Operation,
> Race for (
    F0, F1, F2, F3, F4, F5, F6, F7, F8, F9, F10, F11, F12,
) {
    type Output = Either13<
        F0::Output, F1::Output, F2::Output, F3::Output, F4::Output, F5::Output, F6::Output,
        F7::Output, F8::Output, F9::Output, F10::Output, F11::Output, F12::Output,
    >;

    type Combined = Raced<Operands<F0, Operands<F1, Operands<F2, Operands<F3, Operands<F4,
        Operands<F5, Operands<F6, Operands<F7, Operands<F8, Operands<F9, Operands<F10,
        Operands<F11, LastOperand<F12>>>>>>>>>>>>>>;

    /// Takes the operations over in declared order. None of them is polled
    /// yet, and the race may be polled if all of them may.
    fn race(self) -> (race: Self::Combined)
        ensures
            race@.fresh((self.0, (self.1, (self.2, (self.3, (self.4, (self.5, (self.6, (self.7,
                (self.8, (self.9, (self.10, (self.11, self.12))))))))))))),
            race.now() == 0,
            race.live() <==> (
                self.0.live() && self.1.live() && self.2.live() && self.3.live() &&
                self.4.live() && self.5.live() && self.6.live() && self.7.live() &&
                self.8.live() && self.9.live() && self.10.live() && self.11.live() &&
                self.12.live()
            ),
    {
        Raced {
            operands: Operands::new((self.0, (self.1, (self.2, (self.3, (self.4, (self.5,
                (self.6, (self.7, (self.8, (self.9, (self.10, (self.11, self.12))))))))))))),
            clock: Clock::new(),
        }
    }
}

/// The race between fourteen operations.
impl<
    F0: Operation, F1: Operation, F2: Operation, F3: Operation, F4: Operation, F5: Operation,
    F6: Operation, F7: Operation, F8: Operation, F9: Operation, F10: Operation, F11: Operation,
    F12: Operation, F13: Operation,
> Operation for Raced<
    Operands<F0, Operands<F1, Operands<F2, Operands<F3, Operands<F4, Operands<F5, Operands<F6,
        Operands<F7, Operands<F8, Operands<F9, Operands<F10, Operands<F11, Operands<F12,
        LastOperand<F13>>>>>>>>>>>>>>,
> {
    type Output = Either14<
        F0::Output, F1::Output, F2::Output, F3::Output, F4::Output, F5::Output, F6::Output,
        F7::Output, F8::Output, F9::Output, F10::Output, F11::Output, F12::Output, F13::Output,
    >;

    /// A race may be polled while no operand has reported its output: once
    /// it has a winner, it polls no operand again.
    open spec fn live(&self) -> bool {
        self@.live()
    }

    /// One cycle of the race (see [`OperandList::race`]). The result is the
    /// output that the winner has reported, tagged with its position.
    fn poll(&mut self, cx: &mut core::task::Context<'_>) -> (polled: Poll<Self::Output>)
        ensures
            polled == (match final(self)@.won() {
                Some(won) => Poll::Ready(Either14::tagged(won)),
                None => Poll::Pending,
            }),
            final(self)@.raced_from(
                &old(self)@,
                first_ready(final(self)@.reported()),
                old(self).now(),
            ),
            final(self).now() == old(self).now() + old(self)@.polled(
                first_ready(final(self)@.reported()),
            ),
            match polled {
                Poll::Ready(output) => first_ready(final(self)@.reported()) == Some(
                    output.position(),
                ),
                Poll::Pending => first_ready(final(self)@.reported()) is None,
            },
    {
        match self.operands.race(cx, &mut self.clock) {
            Poll::Ready(won) => Poll::Ready(Either14::tag(won)),
            Poll::Pending => Poll::Pending,
        }
    }
}

impl<
    F0: Operation, F1: Operation, F2: Operation, F3: Operation, F4: Operation, F5: Operation,
    F6: Operation, F7: Operation, F8: Operation, F9: Operation, F10: Operation, F11: Operation,
    F12: Operation, F13: Operation,
> Race for (
    F0, F1, F2, F3, F4, F5, F6, F7, F8, F9, F10, F11, F12, F13,
) {
    type Output = Either14<
        F0::Output, F1::Output, F2::Output, F3::Output, F4::Output, F5::Output, F6::Output,
        F7::Output, F8::Output, F9::Output, F10::Output, F11::Output, F12::Output, F13::Output,
    >;

    type Combined = Raced<Operands<F0, Operands<F1, Operands<F2, Operands<F3, Operands<F4,
        Operands<F5, Operands<F6, Operands<F7, Operands<F8, Operands<F9, Operands<F10,
        Operands<F11, Operands<F12, LastOperand<F13>>>>>>>>>>>>>>>;

    /// Takes the operations over in declared order. None of them is polled
    /// yet, and the race may be polled if all of them may.
    fn race(self) -> (race: Self::Combined)
        ensures
            race@.fresh((self.0, (self.1, (self.2, (self.3, (self.4, (self.5, (self.6, (self.7,
                (self.8, (self.9, (self.10, (self.11, (self.12, self.13)))))))))))))),
            race.now() == 0,
            race.live() <==> (
                self.0.live() && self.1.live() && self.2.live() && self.3.live() &&
                self.4.live() && self.5.live() && self.6.live() && self.7.live() &&
                self.8.live() && self.9.live() && self.10.live() && self.11.live() &&
                self.12.live() && self.13.live()
            ),
    {
        Raced {
            operands: Operands::new((self.0, (self.1, (self.2, (self.3, (self.4, (self.5,
                (self.6, (self.7, (self.8, (self.9, (self.10, (self.11, (self.12,
                self.13)))))))))))))),
            clock: Clock::new(),
        }
    }
}

/// The race between fifteen operations.
impl<
    F0: Operation, F1: Operation, F2: Operation, F3: Operation, F4: Operation, F5: Operation,
    F6: Operation, F7: Operation, F8: Operation, F9: Operation, F10: Operation, F11: Operation,
    F12: Operation, F13: Operation, F14: Operation,
> Operation for Raced<
    Operands<F0, Operands<F1, Operands<F2, Operands<F3, Operands<F4, Operands<F5, Operands<F6,
        Operands<F7, Operands<F8, Operands<F9, Operands<F10, Operands<F11, Operands<F12,
        Operands<F13, LastOperand<F14>>>>>>>>>>>>>>>,
> {
    type Output = Either15<
        F0::Output, F1::Output, F2::Output, F3::Output, F4::Output, F5::Output, F6::Output,
        F7::Output, F8::Output, F9::Output, F10::Output, F11::Output, F12::Output, F13::Output,
        F14::Output,
    >;

    /// A race may be polled while no operand has reported its output: once
    /// it has a winner, it polls no operand again.
    open spec fn live(&self) -> bool {
        self@.live()
    }

    /// One cycle of the race (see [`OperandList::race`]). The result is the
    /// output that the winner has reported, tagged with its position.
    fn poll(&mut self, cx: &mut core::task::Context<'_>) -> (polled: Poll<Self::Output>)
        ensures
            polled == (match final(self)@.won() {
                Some(won) => Poll::Ready(Either15::tagged(won)),
                None => Poll::Pending,
            }),
            final(self)@.raced_from(
                &old(self)@,
                first_ready(final(self)@.reported()),
                old(self).now(),
            ),
            final(self).now() == old(self).now() + old(self)@.polled(
                first_ready(final(self)@.reported()),
            ),
            match polled {
                Poll::Ready(output) => first_ready(final(self)@.reported()) == Some(
                    output.position(),
                ),
                Poll::Pending => first_ready(final(self)@.reported()) is None,
            },
    {
        match self.operands.race(cx, &mut self.clock) {
            Poll::Ready(won) => Poll::Ready(Either15::tag(won)),
            Poll::Pending => Poll::Pending,
        }
    }
}

impl<
    F0: Operation, F1: Operation, F2: Operation, F3: Operation, F4: Operation, F5: Operation,
    F6: Operation, F7: Operation, F8: Operation, F9: Operation, F10: Operation, F11: Operation,
    F12: Operation, F13: Operation, F14: Operation,
> Race for (
    F0, F1, F2, F3, F4, F5, F6, F7, F8, F9, F10, F11, F12, F13, F14,
) {
    type Output = Either15<
        F0::Output, F1::Output, F2::Output, F3::Output, F4::Output, F5::Output, F6::Output,
        F7::Output, F8::Output, F9::Output, F10::Output, F11::Output, F12::Output, F13::Output,
        F14::Output,
    >;

    type Combined = Raced<Operands<F0, Operands<F1, Operands<F2, Operands<F3, Operands<F4,
        Operands<F5, Operands<F6, Operands<F7, Operands<F8, Operands<F9, Operands<F10,
        Operands<F11, Operands<F12, Operands<F13, LastOperand<F14>>>>>>>>>>>>>>>>;

    /// Takes the operations over in declared order. None of them is polled
    /// yet, and the race may be polled if all of them may.
    fn race(self) -> (race: Self::Combined)
        ensures
            race@.fresh((self.0, (self.1, (self.2, (self.3, (self.4, (self.5, (self.6, (self.7,
                (self.8, (self.9, (self.10, (self.11, (self.12, (self.13, self.14))))))))))))))),
            race.now() == 0,
            race.live() <==> (
                self.0.live() && self.1.live() && self.2.live() && self.3.live() &&
                self.4.live() && self.5.live() && self.6.live() && self.7.live() &&
                self.8.live() && self.9.live() && self.10.live() && self.11.live() &&
                self.12.live() && self.13.live() && self.14.live()
            ),
    {
        Raced {
            operands: Operands::new((self.0, (self.1, (self.2, (self.3, (self.4, (self.5,
                (self.6, (self.7, (self.8, (self.9, (self.10, (self.11, (self.12, (self.13,
                self.14))))))))))))))),
            clock: Clock::new(),
        }
    }
}

/// The race between sixteen operations.
impl<
    F0: Operation, F1: Operation, F2: Operation, F3: Operation, F4: Operation, F5: Operation,
    F6: Operation, F7: Operation, F8: Operation, F9: Operation, F10: Operation, F11: Operation,
    F12: Operation, F13: Operation, F14: Operation, F15: Operation,
> Operation for Raced<
    Operands<F0, Operands<F1, Operands<F2, Operands<F3, Operands<F4, Operands<F5, Operands<F6,
        Operands<F7, Operands<F8, Operands<F9, Operands<F10, Operands<F11, Operands<F12,
        Operands<F13, Operands<F14, LastOperand<F15>>>>>>>>>>>>>>>>,
> {
    type Output = Either16<
        F0::Output, F1::Output, F2::Output, F3::Output, F4::Output, F5::Output, F6::Output,
        F7::Output, F8::Output, F9::Output, F10::Output, F11::Output, F12::Output, F13::Output,
        F14::Output, F15::Output,
    >;

    /// A race may be polled while no operand has reported its output: once
    /// it has a winner, it polls no operand again.
    open spec fn live(&self) -> bool {
        self@.live()
    }

    /// One cycle of the race (see [`OperandList::race`]). The result is the
    /// output that the winner has reported, tagged with its position.
    fn poll(&mut self, cx: &mut core::task::Context<'_>) -> (polled: Poll<Self::Output>)
        ensures
            polled == (match final(self)@.won() {
                Some(won) => Poll::Ready(Either16::tagged(won)),
                None => Poll::Pending,
            }),
            final(self)@.raced_from(
                &old(self)@,
                first_ready(final(self)@.reported()),
                old(self).now(),
            ),
            final(self).now() == old(self).now() + old(self)@.polled(
                first_ready(final(self)@.reported()),
            ),
            match polled {
                Poll::Ready(output) => first_ready(final(self)@.reported()) == Some(
                    output.position(),
                ),
                Poll::Pending => first_ready(final(self)@.reported()) is None,
            },
    {
        match self.operands.race(cx, &mut self.clock) {
            Poll::Ready(won) => Poll::Ready(Either16::tag(won)),
            Poll::Pending => Poll::Pending,
        }
    }
}

impl<
    F0: Operation, F1: Operation, F2: Operation, F3: Operation, F4: Operation, F5: Operation,
    F6: Operation, F7: Operation, F8: Operation, F9: Operation, F10: Operation, F11: Operation,
    F12: Operation, F13: Operation, F14: Operation, F15: Operation,
> Race for (
    F0, F1, F2, F3, F4, F5, F6, F7, F8, F9, F10, F11, F12, F13, F14, F15,
) {
    type Output = Either16<
        F0::Output, F1::Output, F2::Output, F3::Output, F4::Output, F5::Output, F6::Output,
        F7::Output, F8::Output, F9::Output, F10::Output, F11::Output, F12::Output, F13::Output,
        F14::Output, F15::Output,
    >;

    type Combined = Raced<Operands<F0, Operands<F1, Operands<F2, Operands<F3, Operands<F4,
        Operands<F5, Operands<F6, Operands<F7, Operands<F8, Operands<F9, Operands<F10,
        Operands<F11, Operands<F12, Operands<F13, Operands<F14, LastOperand<F15>>>>>>>>>>>>>>>>>;

    /// Takes the operations over in declared order. None of them is polled
    /// yet, and the race may be polled if all of them may.
    fn race(self) -> (race: Self::Combined)
        ensures
            race@.fresh((self.0, (self.1, (self.2, (self.3, (self.4, (self.5, (self.6, (self.7,
                (self.8, (self.9, (self.10, (self.11, (self.12, (self.13, (self.14,
                self.15)))))))))))))))),
            race.now() == 0,
            race.live() <==> (
                self.0.live() && self.1.live() && self.2.live() && self.3.live() &&
                self.4.live() && self.5.live() && self.6.live() && self.7.live() &&
                self.8.live() && self.9.live() && self.10.live() && self.11.live() &&
                self.12.live() && self.13.live() && self.14.live() && self.15.live()
            ),
    {
        Raced {
            operands: Operands::new((self.0, (self.1, (self.2, (self.3, (self.4, (self.5,
                (self.6, (self.7, (self.8, (self.9, (self.10, (self.11, (self.12, (self.13,
                (self.14, self.15)))))))))))))))),
            clock: Clock::new(),
        }
    }
}

} // verus!
