//! Race-same: a race between operations of one output type, which yields the
//! winner's output as it is.

use crate::model::first_ready;
use crate::operands::Winner::{Here, There};
use crate::operands::{LastOperand, OperandList, Operands, Winner};
use crate::operation::{Clock, Operation, Poll};
use vstd::prelude::*;

verus! {

/// Combine several operations with the same output into one that finishes
/// when any one of them does.
///
/// Implemented for tuples of two to sixteen operations. The rules are those
/// of [`crate::race::Race`]; the output is the winner's, without a tag.
pub trait RaceSame {
    /// The output of the combined operation.
    type Output;

    /// The combined operation.
    type Combined: Operation<Output = Self::Output>;

    /// Combine several operations with the same output into one that
    /// finishes when any one of them does.
    fn race_same(self) -> Self::Combined;
}

/// The race between the operands in the list `L`, which all have one output
/// type.
pub struct RacedSame<L: OperandList> {
    operands: L,
    clock: Clock,
}

impl<L: OperandList> View for RacedSame<L> {
    type V = L;

    /// The operands in declared order.
    closed spec fn view(&self) -> L {
        self.operands
    }
}

impl<L: OperandList> RacedSame<L> {
    /// The number of polls that the race has made of its operands.
    pub closed spec fn now(&self) -> nat {
        self.clock.now()
    }
}

impl<T> Winner<T, T> {
    /// What a list of two operands of one output type has won, without its
    /// place: the output itself.
    pub open spec fn bare(self) -> T {
        match self {
            Here(output) => output,
            There(output) => output,
        }
    }

    /// Takes the output out of what a list of two operands of one output
    /// type has won, and drops the place.
    pub fn untagged(self) -> (output: T)
        ensures
            output == self.bare(),
    {
        match self {
            Here(output) => output,
            There(output) => output,
        }
    }
}

/// The race between two operations of one output type.
impl<F0: Operation, F1: Operation<Output = F0::Output>> Operation for RacedSame<
    Operands<F0, LastOperand<F1>>,
> {
    type Output = F0::Output;

    /// A race may be polled while no operand has reported its output: once
    /// it has a winner, it polls no operand again.
    open spec fn live(&self) -> bool {
        self@.live()
    }

    /// One cycle of the race (see [`OperandList::race`]). The result is the
    /// output that the winner has reported, whatever its position.
    fn poll(&mut self, cx: &mut core::task::Context<'_>) -> (polled: Poll<Self::Output>)
        ensures
            polled == (match final(self)@.won() {
                Some(won) => Poll::Ready(won.bare()),
                None => Poll::Pending,
            }),
            final(self)@.raced_from(
                &old(self)@,
                first_ready(final(self)@.reported()),
                old(self).now(),
            ),
            final(self).now() == old(self).now() + old(self)@.polled(
                first_ready(final(self)@.reported()),
            ),
            polled is Ready <==> first_ready(final(self)@.reported()) is Some,
    {
        match self.operands.race(cx, &mut self.clock) {
            Poll::Ready(won) => Poll::Ready(won.untagged()),
            Poll::Pending => Poll::Pending,
        }
    }
}

impl<T, F0: Operation<Output = T>, F1: Operation<Output = T>> RaceSame for (F0, F1) {
    type Output = T;

    type Combined = RacedSame<Operands<F0, LastOperand<F1>>>;

    /// Takes the operations over in declared order. None of them is polled
    /// yet, and the race may be polled if all of them may.
    fn race_same(self) -> (race: Self::Combined)
        ensures
            race@.fresh((self.0, self.1)),
            race.now() == 0,
            race.live() <==> (self.0.live() && self.1.live()),
    {
        RacedSame {
            operands: Operands::new((self.0, self.1)),
            clock: Clock::new(),
        }
    }
}

impl<T> Winner<T, Winner<T, T>> {
    /// What a list of three operands of one output type has won, without its
    /// place: the output itself.
    pub open spec fn bare(self) -> T {
        match self {
            Here(output) => output,
            There(Here(output)) => output,
            There(There(output)) => output,
        }
    }

    /// Takes the output out of what a list of three operands of one output
    /// type has won, and drops the place.
    pub fn untagged(self) -> (output: T)
        ensures
            output == self.bare(),
    {
        match self {
            Here(output) => output,
            There(Here(output)) => output,
            There(There(output)) => output,
        }
    }
}

/// The race between three operations of one output type.
impl<
    F0: Operation, F1: Operation<Output = F0::Output>, F2: Operation<Output = F0::Output>,
> Operation for RacedSame<
    Operands<F0, Operands<F1, LastOperand<F2>>>,
> {
    type Output = F0::Output;

    /// A race may be polled while no operand has reported its output: once
    /// it has a winner, it polls no operand again.
    open spec fn live(&self) -> bool {
        self@.live()
    }

    /// One cycle of the race (see [`OperandList::race`]). The result is the
    /// output that the winner has reported, whatever its position.
    fn poll(&mut self, cx: &mut core::task::Context<'_>) -> (polled: Poll<Self::Output>)
        ensures
            polled == (match final(self)@.won() {
                Some(won) => Poll::Ready(won.bare()),
                None => Poll::Pending,
            }),
            final(self)@.raced_from(
                &old(self)@,
                first_ready(final(self)@.reported()),
                old(self).now(),
            ),
            final(self).now() == old(self).now() + old(self)@.polled(
                first_ready(final(self)@.reported()),
            ),
            polled is Ready <==> first_ready(final(self)@.reported()) is Some,
    {
        match self.operands.race(cx, &mut self.clock) {
            Poll::Ready(won) => Poll::Ready(won.untagged()),
            Poll::Pending => Poll::Pending,
        }
    }
}

impl<
    T, F0: Operation<Output = T>, F1: Operation<Output = T>, F2: Operation<Output = T>,
> RaceSame for (
    F0, F1, F2,
) {
    type Output = T;

    type Combined = RacedSame<Operands<F0, Operands<F1, LastOperand<F2>>>>;

    /// Takes the operations over in declared order. None of them is polled
    /// yet, and the race may be polled if all of them may.
    fn race_same(self) -> (race: Self::Combined)
        ensures
            race@.fresh((self.0, (self.1, self.2))),
            race.now() == 0,
            race.live() <==> (self.0.live() && self.1.live() && self.2.live()),
    {
        RacedSame {
            operands: Operands::new((self.0, (self.1, self.2))),
            clock: Clock::new(),
        }
    }
}

impl<T> Winner<T, Winner<T, Winner<T, T>>> {
    /// What a list of four operands of one output type has won, without its
    /// place: the output itself.
    pub open spec fn bare(self) -> T {
        match self {
            Here(output) => output,
            There(Here(output)) => output,
            There(There(Here(output))) => output,
            There(There(There(output))) => output,
        }
    }

    /// Takes the output out of what a list of four operands of one output
    /// type has won, and drops the place.
    pub fn untagged(self) -> (output: T)
        ensures
            output == self.bare(),
    {
        match self {
            Here(output) => output,
            There(Here(output)) => output,
            There(There(Here(output))) => output,
            There(There(There(output))) => output,
        }
    }
}

/// The race between four operations of one output type.
impl<
    F0: Operation, F1: Operation<Output = F0::Output>, F2: Operation<Output = F0::Output>,
    F3: Operation<Output = F0::Output>,
> Operation for RacedSame<
    Operands<F0, Operands<F1, Operands<F2, LastOperand<F3>>>>,
> {
    type Output = F0::Output;

    /// A race may be polled while no operand has reported its output: once
    /// it has a winner, it polls no operand again.
    open spec fn live(&self) -> bool {
        self@.live()
    }

    /// One cycle of the race (see [`OperandList::race`]). The result is the
    /// output that the winner has reported, whatever its position.
    fn poll(&mut self, cx: &mut core::task::Context<'_>) -> (polled: Poll<Self::Output>)
        ensures
            polled == (match final(self)@.won() {
                Some(won) => Poll::Ready(won.bare()),
                None => Poll::Pending,
            }),
            final(self)@.raced_from(
                &old(self)@,
                first_ready(final(self)@.reported()),
                old(self).now(),
            ),
            final(self).now() == old(self).now() + old(self)@.polled(
                first_ready(final(self)@.reported()),
            ),
            polled is Ready <==> first_ready(final(self)@.reported()) is Some,
    {
        match self.operands.race(cx, &mut self.clock) {
            Poll::Ready(won) => Poll::Ready(won.untagged()),
            Poll::Pending => Poll::Pending,
        }
    }
}

impl<
    T, F0: Operation<Output = T>, F1: Operation<Output = T>, F2: Operation<Output = T>,
    F3: Operation<Output = T>,
> RaceSame for (
    F0, F1, F2, F3,
) {
    type Output = T;

    type Combined = RacedSame<Operands<F0, Operands<F1, Operands<F2, LastOperand<F3>>>>>;

    /// Takes the operations over in declared order. None of them is polled
    /// yet, and the race may be polled if all of them may.
    fn race_same(self) -> (race: Self::Combined)
        ensures
            race@.fresh((self.0, (self.1, (self.2, self.3)))),
            race.now() == 0,
            race.live() <==> (self.0.live() && self.1.live() && self.2.live() && self.3.live()),
    {
        RacedSame {
            operands: Operands::new((self.0, (self.1, (self.2, self.3)))),
            clock: Clock::new(),
        }
    }
}

impl<T> Winner<T, Winner<T, Winner<T, Winner<T, T>>>> {
    /// What a list of five operands of one output type has won, without its
    /// place: the output itself.
    pub open spec fn bare(self) -> T {
        match self {
            Here(output) => output,
            There(Here(output)) => output,
            There(There(Here(output))) => output,
            There(There(There(Here(output)))) => output,
            There(There(There(There(output)))) => output,
        }
    }

    /// Takes the output out of what a list of five operands of one output
    /// type has won, and drops the place.
    pub fn untagged(self) -> (output: T)
        ensures
            output == self.bare(),
    {
        match self {
            Here(output) => output,
            There(Here(output)) => output,
            There(There(Here(output))) => output,
            There(There(There(Here(output)))) => output,
            There(There(There(There(output)))) => output,
        }
    }
}

/// The race between five operations of one output type.
impl<
    F0: Operation, F1: Operation<Output = F0::Output>, F2: Operation<Output = F0::Output>,
    F3: Operation<Output = F0::Output>, F4: Operation<Output = F0::Output>,
> Operation for RacedSame<
    Operands<F0, Operands<F1, Operands<F2, Operands<F3, LastOperand<F4>>>>>,
> {
    type Output = F0::Output;

    /// A race may be polled while no operand has reported its output: once
    /// it has a winner, it polls no operand again.
    open spec fn live(&self) -> bool {
        self@.live()
    }

    /// One cycle of the race (see [`OperandList::race`]). The result is the
    /// output that the winner has reported, whatever its position.
    fn poll(&mut self, cx: &mut core::task::Context<'_>) -> (polled: Poll<Self::Output>)
        ensures
            polled == (match final(self)@.won() {
                Some(won) => Poll::Ready(won.bare()),
                None => Poll::Pending,
            }),
            final(self)@.raced_from(
                &old(self)@,
                first_ready(final(self)@.reported()),
                old(self).now(),
            ),
            final(self).now() == old(self).now() + old(self)@.polled(
                first_ready(final(self)@.reported()),
            ),
            polled is Ready <==> first_ready(final(self)@.reported()) is Some,
    {
        match self.operands.race(cx, &mut self.clock) {
            Poll::Ready(won) => Poll::Ready(won.untagged()),
            Poll::Pending => Poll::Pending,
        }
    }
}

impl<
    T, F0: Operation<Output = T>, F1: Operation<Output = T>, F2: Operation<Output = T>,
    F3: Operation<Output = T>, F4: Operation<Output = T>,
> RaceSame for (
    F0, F1, F2, F3, F4,
) {
    type Output = T;

    type Combined = RacedSame<Operands<F0, Operands<F1, Operands<F2, Operands<F3,
        LastOperand<F4>>>>>>;

    /// Takes the operations over in declared order. None of them is polled
    /// yet, and the race may be polled if all of them may.
    fn race_same(self) -> (race: Self::Combined)
        ensures
            race@.fresh((self.0, (self.1, (self.2, (self.3, self.4))))),
            race.now() == 0,
            race.live() <==> (
                self.0.live() && self.1.live() && self.2.live() && self.3.live() &&
                self.4.live()
            ),
    {
        RacedSame {
            operands: Operands::new((self.0, (self.1, (self.2, (self.3, self.4))))),
            clock: Clock::new(),
        }
    }
}

impl<T> Winner<T, Winner<T, Winner<T, Winner<T, Winner<T, T>>>>> {
    /// What a list of six operands of one output type has won, without its
    /// place: the output itself.
    pub open spec fn bare(self) -> T {
        match self {
            Here(output) => output,
            There(Here(output)) => output,
            There(There(Here(output))) => output,
            There(There(There(Here(output)))) => output,
            There(There(There(There(Here(output))))) => output,
            There(There(There(There(There(output))))) => output,
        }
    }

    /// Takes the output out of what a list of six operands of one output
    /// type has won, and drops the place.
    pub fn untagged(self) -> (output: T)
        ensures
            output == self.bare(),
    {
        match self {
            Here(output) => output,
            There(Here(output)) => output,
            There(There(Here(output))) => output,
            There(There(There(Here(output)))) => output,
            There(There(There(There(Here(output))))) => output,
            There(There(There(There(There(output))))) => output,
        }
    }
}

/// The race between six operations of one output type.
impl<
    F0: Operation, F1: Operation<Output = F0::Output>, F2: Operation<Output = F0::Output>,
    F3: Operation<Output = F0::Output>, F4: Operation<Output = F0::Output>,
    F5: Operation<Output = F0::Output>,
> Operation for RacedSame<
    Operands<F0, Operands<F1, Operands<F2, Operands<F3, Operands<F4, LastOperand<F5>>>>>>,
> {
    type Output = F0::Output;

    /// A race may be polled while no operand has reported its output: once
    /// it has a winner, it polls no operand again.
    open spec fn live(&self) -> bool {
        self@.live()
    }

    /// One cycle of the race (see [`OperandList::race`]). The result is the
    /// output that the winner has reported, whatever its position.
    fn poll(&mut self, cx: &mut core::task::Context<'_>) -> (polled: Poll<Self::Output>)
        ensures
            polled == (match final(self)@.won() {
                Some(won) => Poll::Ready(won.bare()),
                None => Poll::Pending,
            }),
            final(self)@.raced_from(
                &old(self)@,
                first_ready(final(self)@.reported()),
                old(self).now(),
            ),
            final(self).now() == old(self).now() + old(self)@.polled(
                first_ready(final(self)@.reported()),
            ),
            polled is Ready <==> first_ready(final(self)@.reported()) is Some,
    {
        match self.operands.race(cx, &mut self.clock) {
            Poll::Ready(won) => Poll::Ready(won.untagged()),
            Poll::Pending => Poll::Pending,
        }
    }
}

impl<
    T, F0: Operation<Output = T>, F1: Operation<Output = T>, F2: Operation<Output = T>,
    F3: Operation<Output = T>, F4: Operation<Output = T>, F5: Operation<Output = T>,
> RaceSame for (
    F0, F1, F2, F3, F4, F5,
) {
    type Output = T;

    type Combined = RacedSame<Operands<F0, Operands<F1, Operands<F2, Operands<F3, Operands<F4,
        LastOperand<F5>>>>>>>;

    /// Takes the operations over in declared order. None of them is polled
    /// yet, and the race may be polled if all of them may.
    fn race_same(self) -> (race: Self::Combined)
        ensures
            race@.fresh((self.0, (self.1, (self.2, (self.3, (self.4, self.5)))))),
            race.now() == 0,
            race.live() <==> (
                self.0.live() && self.1.live() && self.2.live() && self.3.live() &&
                self.4.live() && self.5.live()
            ),
    {
        RacedSame {
            operands: Operands::new((self.0, (self.1, (self.2, (self.3, (self.4, self.5)))))),
            clock: Clock::new(),
        }
    }
}

impl<T> Winner<T, Winner<T, Winner<T, Winner<T, Winner<T, Winner<T, T>>>>>> {
    /// What a list of seven operands of one output type has won, without its
    /// place: the output itself.
    pub open spec fn bare(self) -> T {
        match self {
            Here(output) => output,
            There(Here(output)) => output,
            There(There(Here(output))) => output,
            There(There(There(Here(output)))) => output,
            There(There(There(There(Here(output))))) => output,
            There(There(There(There(There(Here(output)))))) => output,
            There(There(There(There(There(There(output)))))) => output,
        }
    }

    /// Takes the output out of what a list of seven operands of one output
    /// type has won, and drops the place.
    pub fn untagged(self) -> (output: T)
        ensures
            output == self.bare(),
    {
        match self {
            Here(output) => output,
            There(Here(output)) => output,
            There(There(Here(output))) => output,
            There(There(There(Here(output)))) => output,
            There(There(There(There(Here(output))))) => output,
            There(There(There(There(There(Here(output)))))) => output,
            There(There(There(There(There(There(output)))))) => output,
        }
    }
}

/// The race between seven operations of one output type.
impl<
    F0: Operation, F1: Operation<Output = F0::Output>, F2: Operation<Output = F0::Output>,
    F3: Operation<Output = F0::Output>, F4: Operation<Output = F0::Output>,
    F5: Operation<Output = F0::Output>, F6: Operation<Output = F0::Output>,
> Operation for RacedSame<
    Operands<F0, Operands<F1, Operands<F2, Operands<F3, Operands<F4, Operands<F5,
        LastOperand<F6>>>>>>>,
> {
    type Output = F0::Output;

    /// A race may be polled while no operand has reported its output: once
    /// it has a winner, it polls no operand again.
    open spec fn live(&self) -> bool {
        self@.live()
    }

    /// One cycle of the race (see [`OperandList::race`]). The result is the
    /// output that the winner has reported, whatever its position.
    fn poll(&mut self, cx: &mut core::task::Context<'_>) -> (polled: Poll<Self::Output>)
        ensures
            polled == (match final(self)@.won() {
                Some(won) => Poll::Ready(won.bare()),
                None => Poll::Pending,
            }),
            final(self)@.raced_from(
                &old(self)@,
                first_ready(final(self)@.reported()),
                old(self).now(),
            ),
            final(self).now() == old(self).now() + old(self)@.polled(
                first_ready(final(self)@.reported()),
            ),
            polled is Ready <==> first_ready(final(self)@.reported()) is Some,
    {
        match self.operands.race(cx, &mut self.clock) {
            Poll::Ready(won) => Poll::Ready(won.untagged()),
            Poll::Pending => Poll::Pending,
        }
    }
}

impl<
    T, F0: Operation<Output = T>, F1: Operation<Output = T>, F2: Operation<Output = T>,
    F3: Operation<Output = T>, F4: Operation<Output = T>, F5: Operation<Output = T>,
    F6: Operation<Output = T>,
> RaceSame for (
    F0, F1, F2, F3, F4, F5, F6,
) {
    type Output = T;

    type Combined = RacedSame<Operands<F0, Operands<F1, Operands<F2, Operands<F3, Operands<F4,
        Operands<F5, LastOperand<F6>>>>>>>>;

    /// Takes the operations over in declared order. None of them is polled
    /// yet, and the race may be polled if all of them may.
    fn race_same(self) -> (race: Self::Combined)
        ensures
            race@.fresh((self.0, (self.1, (self.2, (self.3, (self.4, (self.5, self.6))))))),
            race.now() == 0,
            race.live() <==> (
                self.0.live() && self.1.live() && self.2.live() && self.3.live() &&
                self.4.live() && self.5.live() && self.6.live()
            ),
    {
        RacedSame {
            operands: Operands::new((self.0, (self.1, (self.2, (self.3, (self.4, (self.5,
                self.6))))))),
            clock: Clock::new(),
        }
    }
}

impl<T> Winner<T, Winner<T, Winner<T, Winner<T, Winner<T, Winner<T, Winner<T, T>>>>>>> {
    /// What a list of eight operands of one output type has won, without its
    /// place: the output itself.
    pub open spec fn bare(self) -> T {
        match self {
            Here(output) => output,
            There(Here(output)) => output,
            There(There(Here(output))) => output,
            There(There(There(Here(output)))) => output,
            There(There(There(There(Here(output))))) => output,
            There(There(There(There(There(Here(output)))))) => output,
            There(There(There(There(There(There(Here(output))))))) => output,
            There(There(There(There(There(There(There(output))))))) => output,
        }
    }

    /// Takes the output out of what a list of eight operands of one output
    /// type has won, and drops the place.
    pub fn untagged(self) -> (output: T)
        ensures
            output == self.bare(),
    {
        match self {
            Here(output) => output,
            There(Here(output)) => output,
            There(There(Here(output))) => output,
            There(There(There(Here(output)))) => output,
            There(There(There(There(Here(output))))) => output,
            There(There(There(There(There(Here(output)))))) => output,
            There(There(There(There(There(There(Here(output))))))) => output,
            There(There(There(There(There(There(There(output))))))) => output,
        }
    }
}

/// The race between eight operations of one output type.
impl<
    F0: Operation, F1: Operation<Output = F0::Output>, F2: Operation<Output = F0::Output>,
    F3: Operation<Output = F0::Output>, F4: Operation<Output = F0::Output>,
    F5: Operation<Output = F0::Output>, F6: Operation<Output = F0::Output>,
    F7: Operation<Output = F0::Output>,
> Operation for RacedSame<
    Operands<F0, Operands<F1, Operands<F2, Operands<F3, Operands<F4, Operands<F5, Operands<F6,
        LastOperand<F7>>>>>>>>,
> {
    type Output = F0::Output;

    /// A race may be polled while no operand has reported its output: once
    /// it has a winner, it polls no operand again.
    open spec fn live(&self) -> bool {
        self@.live()
    }

    /// One cycle of the race (see [`OperandList::race`]). The result is the
    /// output that the winner has reported, whatever its position.
    fn poll(&mut self, cx: &mut core::task::Context<'_>) -> (polled: Poll<Self::Output>)
        ensures
            polled == (match final(self)@.won() {
                Some(won) => Poll::Ready(won.bare()),
                None => Poll::Pending,
            }),
            final(self)@.raced_from(
                &old(self)@,
                first_ready(final(self)@.reported()),
                old(self).now(),
            ),
            final(self).now() == old(self).now() + old(self)@.polled(
                first_ready(final(self)@.reported()),
            ),
            polled is Ready <==> first_ready(final(self)@.reported()) is Some,
    {
        match self.operands.race(cx, &mut self.clock) {
            Poll::Ready(won) => Poll::Ready(won.untagged()),
            Poll::Pending => Poll::Pending,
        }
    }
}

impl<
    T, F0: Operation<Output = T>, F1: Operation<Output = T>, F2: Operation<Output = T>,
    F3: Operation<Output = T>, F4: Operation<Output = T>, F5: Operation<Output = T>,
    F6: Operation<Output = T>, F7: Operation<Output = T>,
> RaceSame for (
    F0, F1, F2, F3, F4, F5, F6, F7,
) {
    type Output = T;

    type Combined = RacedSame<Operands<F0, Operands<F1, Operands<F2, Operands<F3, Operands<F4,
        Operands<F5, Operands<F6, LastOperand<F7>>>>>>>>>;

    /// Takes the operations over in declared order. None of them is polled
    /// yet, and the race may be polled if all of them may.
    fn race_same(self) -> (race: Self::Combined)
        ensures
            race@.fresh((self.0, (self.1, (self.2, (self.3, (self.4, (self.5, (self.6,
                self.7)))))))),
            race.now() == 0,
            race.live() <==> (
                self.0.live() && self.1.live() && self.2.live() && self.3.live() &&
                self.4.live() && self.5.live() && self.6.live() && self.7.live()
            ),
    {
        RacedSame {
            operands: Operands::new((self.0, (self.1, (self.2, (self.3, (self.4, (self.5,
                (self.6, self.7)))))))),
            clock: Clock::new(),
        }
    }
}

impl<T> Winner<T, Winner<T, Winner<T, Winner<T, Winner<T, Winner<T, Winner<T, Winner<T, T>>>>>>>> {
    /// What a list of nine operands of one output type has won, without its
    /// place: the output itself.
    pub open spec fn bare(self) -> T {
        match self {
            Here(output) => output,
            There(Here(output)) => output,
            There(There(Here(output))) => output,
            There(There(There(Here(output)))) => output,
            There(There(There(There(Here(output))))) => output,
            There(There(There(There(There(Here(output)))))) => output,
            There(There(There(There(There(There(Here(output))))))) => output,
            There(There(There(There(There(There(There(Here(output)))))))) => output,
            There(There(There(There(There(There(There(There(output)))))))) => output,
        }
    }

    /// Takes the output out of what a list of nine operands of one output
    /// type has won, and drops the place.
    pub fn untagged(self) -> (output: T)
        ensures
            output == self.bare(),
    {
        match self {
            Here(output) => output,
            There(Here(output)) => output,
            There(There(Here(output))) => output,
            There(There(There(Here(output)))) => output,
            There(There(There(There(Here(output))))) => output,
            There(There(There(There(There(Here(output)))))) => output,
            There(There(There(There(There(There(Here(output))))))) => output,
            There(There(There(There(There(There(There(Here(output)))))))) => output,
            There(There(There(There(There(There(There(There(output)))))))) => output,
        }
    }
}

/// The race between nine operations of one output type.
impl<
    F0: Operation, F1: Operation<Output = F0::Output>, F2: Operation<Output = F0::Output>,
    F3: Operation<Output = F0::Output>, F4: Operation<Output = F0::Output>,
    F5: Operation<Output = F0::Output>, F6: Operation<Output = F0::Output>,
    F7: Operation<Output = F0::Output>, F8: Operation<Output = F0::Output>,
> Operation for RacedSame<
    Operands<F0, Operands<F1, Operands<F2, Operands<F3, Operands<F4, Operands<F5, Operands<F6,
        Operands<F7, LastOperand<F8>>>>>>>>>,
> {
    type Output = F0::Output;

    /// A race may be polled while no operand has reported its output: once
    /// it has a winner, it polls no operand again.
    open spec fn live(&self) -> bool {
        self@.live()
    }

    /// One cycle of the race (see [`OperandList::race`]). The result is the
    /// output that the winner has reported, whatever its position.
    fn poll(&mut self, cx: &mut core::task::Context<'_>) -> (polled: Poll<Self::Output>)
        ensures
            polled == (match final(self)@.won() {
                Some(won) => Poll::Ready(won.bare()),
                None => Poll::Pending,
            }),
            final(self)@.raced_from(
                &old(self)@,
                first_ready(final(self)@.reported()),
                old(self).now(),
            ),
            final(self).now() == old(self).now() + old(self)@.polled(
                first_ready(final(self)@.reported()),
            ),
            polled is Ready <==> first_ready(final(self)@.reported()) is Some,
    {
        match self.operands.race(cx, &mut self.clock) {
            Poll::Ready(won) => Poll::Ready(won.untagged()),
            Poll::Pending => Poll::Pending,
        }
    }
}

impl<
    T, F0: Operation<Output = T>, F1: Operation<Output = T>, F2: Operation<Output = T>,
    F3: Operation<Output = T>, F4: Operation<Output = T>, F5: Operation<Output = T>,
    F6: Operation<Output = T>, F7: Operation<Output = T>, F8: Operation<Output = T>,
> RaceSame for (
    F0, F1, F2, F3, F4, F5, F6, F7, F8,
) {
    type Output = T;

    type Combined = RacedSame<Operands<F0, Operands<F1, Operands<F2, Operands<F3, Operands<F4,
        Operands<F5, Operands<F6, Operands<F7, LastOperand<F8>>>>>>>>>>;

    /// Takes the operations over in declared order. None of them is polled
    /// yet, and the race may be polled if all of them may.
    fn race_same(self) -> (race: Self::Combined)
        ensures
            race@.fresh((self.0, (self.1, (self.2, (self.3, (self.4, (self.5, (self.6, (self.7,
                self.8))))))))),
            race.now() == 0,
            race.live() <==> (
                self.0.live() && self.1.live() && self.2.live() && self.3.live() &&
                self.4.live() && self.5.live() && self.6.live() && self.7.live() &&
                self.8.live()
            ),
    {
        RacedSame {
            operands: Operands::new((self.0, (self.1, (self.2, (self.3, (self.4, (self.5,
                (self.6, (self.7, self.8))))))))),
            clock: Clock::new(),
        }
    }
}

impl<T> Winner<T, Winner<T, Winner<T, Winner<T, Winner<T, Winner<T, Winner<T, Winner<T,
    Winner<T, T>>>>>>>>> {
    /// What a list of ten operands of one output type has won, without its
    /// place: the output itself.
    pub open spec fn bare(self) -> T {
        match self {
            Here(output) => output,
            There(Here(output)) => output,
            There(There(Here(output))) => output,
            There(There(There(Here(output)))) => output,
            There(There(There(There(Here(output))))) => output,
            There(There(There(There(There(Here(output)))))) => output,
            There(There(There(There(There(There(Here(output))))))) => output,
            There(There(There(There(There(There(There(Here(output)))))))) => output,
            There(There(There(There(There(There(There(There(Here(output))))))))) => output,
            There(There(There(There(There(There(There(There(There(output))))))))) => output,
        }
    }

    /// Takes the output out of what a list of ten operands of one output
    /// type has won, and drops the place.
    pub fn untagged(self) -> (output: T)
        ensures
            output == self.bare(),
    {
        match self {
            Here(output) => output,
            There(Here(output)) => output,
            There(There(Here(output))) => output,
            There(There(There(Here(output)))) => output,
            There(There(There(There(Here(output))))) => output,
            There(There(There(There(There(Here(output)))))) => output,
            There(There(There(There(There(There(Here(output))))))) => output,
            There(There(There(There(There(There(There(Here(output)))))))) => output,
            There(There(There(There(There(There(There(There(Here(output))))))))) => output,
            There(There(There(There(There(There(There(There(There(output))))))))) => output,
        }
    }
}

/// The race between ten operations of one output type.
impl<
    F0: Operation, F1: Operation<Output = F0::Output>, F2: Operation<Output = F0::Output>,
    F3: Operation<Output = F0::Output>, F4: Operation<Output = F0::Output>,
    F5: Operation<Output = F0::Output>, F6: Operation<Output = F0::Output>,
    F7: Operation<Output = F0::Output>, F8: Operation<Output = F0::Output>,
    F9: Operation<Output = F0::Output>,
> Operation for RacedSame<
    Operands<F0, Operands<F1, Operands<F2, Operands<F3, Operands<F4, Operands<F5, Operands<F6,
        Operands<F7, Operands<F8, LastOperand<F9>>>>>>>>>>,
> {
    type Output = F0::Output;

    /// A race may be polled while no operand has reported its output: once
    /// it has a winner, it polls no operand again.
    open spec fn live(&self) -> bool {
        self@.live()
    }

    /// One cycle of the race (see [`OperandList::race`]). The result is the
    /// output that the winner has reported, whatever its position.
    fn poll(&mut self, cx: &mut core::task::Context<'_>) -> (polled: Poll<Self::Output>)
        ensures
            polled == (match final(self)@.won() {
                Some(won) => Poll::Ready(won.bare()),
                None => Poll::Pending,
            }),
            final(self)@.raced_from(
                &old(self)@,
                first_ready(final(self)@.reported()),
                old(self).now(),
            ),
            final(self).now() == old(self).now() + old(self)@.polled(
                first_ready(final(self)@.reported()),
            ),
            polled is Ready <==> first_ready(final(self)@.reported()) is Some,
    {
        match self.operands.race(cx, &mut self.clock) {
            Poll::Ready(won) => Poll::Ready(won.untagged()),
            Poll::Pending => Poll::Pending,
        }
    }
}

impl<
    T, F0: Operation<Output = T>, F1: Operation<Output = T>, F2: Operation<Output = T>,
    F3: Operation<Output = T>, F4: Operation<Output = T>, F5: Operation<Output = T>,
    F6: Operation<Output = T>, F7: Operation<Output = T>, F8: Operation<Output = T>,
    F9: Operation<Output = T>,
> RaceSame for (
    F0, F1, F2, F3, F4, F5, F6, F7, F8, F9,
) {
    type Output = T;

    type Combined = RacedSame<Operands<F0, Operands<F1, Operands<F2, Operands<F3, Operands<F4,
        Operands<F5, Operands<F6, Operands<F7, Operands<F8, LastOperand<F9>>>>>>>>>>>;

    /// Takes the operations over in declared order. None of them is polled
    /// yet, and the race may be polled if all of them may.
    fn race_same(self) -> (race: Self::Combined)
        ensures
            race@.fresh((self.0, (self.1, (self.2, (self.3, (self.4, (self.5, (self.6, (self.7,
                (self.8, self.9)))))))))),
            race.now() == 0,
            race.live() <==> (
                self.0.live() && self.1.live() && self.2.live() && self.3.live() &&
                self.4.live() && self.5.live() && self.6.live() && self.7.live() &&
                self.8.live() && self.9.live()
            ),
    {
        RacedSame {
            operands: Operands::new((self.0, (self.1, (self.2, (self.3, (self.4, (self.5,
                (self.6, (self.7, (self.8, self.9)))))))))),
            clock: Clock::new(),
        }
    }
}

impl<T> Winner<T, Winner<T, Winner<T, Winner<T, Winner<T, Winner<T, Winner<T, Winner<T,
    Winner<T, Winner<T, T>>>>>>>>>> {
    /// What a list of eleven operands of one output type has won, without its
    /// place: the output itself.
    pub open spec fn bare(self) -> T {
        match self {
            Here(output) => output,
            There(Here(output)) => output,
            There(There(Here(output))) => output,
            There(There(There(Here(output)))) => output,
            There(There(There(There(Here(output))))) => output,
            There(There(There(There(There(Here(output)))))) => output,
            There(There(There(There(There(There(Here(output))))))) => output,
            There(There(There(There(There(There(There(Here(output)))))))) => output,
            There(There(There(There(There(There(There(There(Here(output))))))))) => output,
            There(There(There(There(There(There(There(There(There(Here(output)))))))))) => output,
            There(There(There(There(There(There(There(There(There(There(output)))))))))) => output,
        }
    }

    /// Takes the output out of what a list of eleven operands of one output
    /// type has won, and drops the place.
    pub fn untagged(self) -> (output: T)
        ensures
            output == self.bare(),
    {
        match self {
            Here(output) => output,
            There(Here(output)) => output,
            There(There(Here(output))) => output,
            There(There(There(Here(output)))) => output,
            There(There(There(There(Here(output))))) => output,
            There(There(There(There(There(Here(output)))))) => output,
            There(There(There(There(There(There(Here(output))))))) => output,
            There(There(There(There(There(There(There(Here(output)))))))) => output,
            There(There(There(There(There(There(There(There(Here(output))))))))) => output,
            There(There(There(There(There(There(There(There(There(Here(output)))))))))) => output,
            There(There(There(There(There(There(There(There(There(There(output)))))))))) => output,
        }
    }
}

/// The race between eleven operations of one output type.
impl<
    F0: Operation, F1: Operation<Output = F0::Output>, F2: Operation<Output = F0::Output>,
    F3: Operation<Output = F0::Output>, F4: Operation<Output = F0::Output>,
    F5: Operation<Output = F0::Output>, F6: Operation<Output = F0::Output>,
    F7: Operation<Output = F0::Output>, F8: Operation<Output = F0::Output>,
    F9: Operation<Output = F0::Output>, F10: Operation<Output = F0::Output>,
> Operation for RacedSame<
    Operands<F0, Operands<F1, Operands<F2, Operands<F3, Operands<F4, Operands<F5, Operands<F6,
        Operands<F7, Operands<F8, Operands<F9, LastOperand<F10>>>>>>>>>>>,
> {
    type Output = F0::Output;

    /// A race may be polled while no operand has reported its output: once
    /// it has a winner, it polls no operand again.
    open spec fn live(&self) -> bool {
        self@.live()
    }

    /// One cycle of the race (see [`OperandList::race`]). The result is the
    /// output that the winner has reported, whatever its position.
    fn poll(&mut self, cx: &mut core::task::Context<'_>) -> (polled: Poll<Self::Output>)
        ensures
            polled == (match final(self)@.won() {
                Some(won) => Poll::Ready(won.bare()),
                None => Poll::Pending,
            }),
            final(self)@.raced_from(
                &old(self)@,
                first_ready(final(self)@.reported()),
                old(self).now(),
            ),
            final(self).now() == old(self).now() + old(self)@.polled(
                first_ready(final(self)@.reported()),
            ),
            polled is Ready <==> first_ready(final(self)@.reported()) is Some,
    {
        match self.operands.race(cx, &mut self.clock) {
            Poll::Ready(won) => Poll::Ready(won.untagged()),
            Poll::Pending => Poll::Pending,
        }
    }
}

impl<
    T, F0: Operation<Output = T>, F1: Operation<Output = T>, F2: Operation<Output = T>,
    F3: Operation<Output = T>, F4: Operation<Output = T>, F5: Operation<Output = T>,
    F6: Operation<Output = T>, F7: Operation<Output = T>, F8: Operation<Output = T>,
    F9: Operation<Output = T>, F10: Operation<Output = T>,
> RaceSame for (
    F0, F1, F2, F3, F4, F5, F6, F7, F8, F9, F10,
) {
    type Output = T;

    type Combined = RacedSame<Operands<F0, Operands<F1, Operands<F2, Operands<F3, Operands<F4,
        Operands<F5, Operands<F6, Operands<F7, Operands<F8, Operands<F9,
        LastOperand<F10>>>>>>>>>>>>;

    /// Takes the operations over in declared order. None of them is polled
    /// yet, and the race may be polled if all of them may.
    fn race_same(self) -> (race: Self::Combined)
        ensures
            race@.fresh((self.0, (self.1, (self.2, (self.3, (self.4, (self.5, (self.6, (self.7,
                (self.8, (self.9, self.10))))))))))),
            race.now() == 0,
            race.live() <==> (
                self.0.live() && self.1.live() && self.2.live() && self.3.live() &&
                self.4.live() && self.5.live() && self.6.live() && self.7.live() &&
                self.8.live() && self.9.live() && self.10.live()
            ),
    {
        RacedSame {
            operands: Operands::new((self.0, (self.1, (self.2, (self.3, (self.4, (self.5,
                (self.6, (self.7, (self.8, (self.9, self.10))))))))))),
            clock: Clock::new(),
        }
    }
}

impl<T> Winner<T, Winner<T, Winner<T, Winner<T, Winner<T, Winner<T, Winner<T, Winner<T,
    Winner<T, Winner<T, Winner<T, T>>>>>>>>>>> {
    /// What a list of twelve operands of one output type has won, without its
    /// place: the output itself.
    pub open spec fn bare(self) -> T {
        match self {
            Here(output) => output,
            There(Here(output)) => output,
            There(There(Here(output))) => output,
            There(There(There(Here(output)))) => output,
            There(There(There(There(Here(output))))) => output,
            There(There(There(There(There(Here(output)))))) => output,
            There(There(There(There(There(There(Here(output))))))) => output,
            There(There(There(There(There(There(There(Here(output)))))))) => output,
            There(There(There(There(There(There(There(There(Here(output))))))))) => output,
            There(There(There(There(There(There(There(There(There(Here(output)))))))))) => output,
            There(There(There(There(There(There(There(There(There(There(Here(output))))))))))) => {
                output
            },
            There(There(There(There(There(There(There(There(There(There(There(output))))))))))) => {
                output
            },
        }
    }

    /// Takes the output out of what a list of twelve operands of one output
    /// type has won, and drops the place.
    pub fn untagged(self) -> (output: T)
        ensures
            output == self.bare(),
    {
        match self {
            Here(output) => output,
            There(Here(output)) => output,
            There(There(Here(output))) => output,
            There(There(There(Here(output)))) => output,
            There(There(There(There(Here(output))))) => output,
            There(There(There(There(There(Here(output)))))) => output,
            There(There(There(There(There(There(Here(output))))))) => output,
            There(There(There(There(There(There(There(Here(output)))))))) => output,
            There(There(There(There(There(There(There(There(Here(output))))))))) => output,
            There(There(There(There(There(There(There(There(There(Here(output)))))))))) => output,
            There(There(There(There(There(There(There(There(There(There(Here(output))))))))))) => {
                output
            },
            There(There(There(There(There(There(There(There(There(There(There(output))))))))))) => {
                output
            },
        }
    }
}

/// The race between twelve operations of one output type.
impl<
    F0: Operation, F1: Operation<Output = F0::Output>, F2: Operation<Output = F0::Output>,
    F3: Operation<Output = F0::Output>, F4: Operation<Output = F0::Output>,
    F5: Operation<Output = F0::Output>, F6: Operation<Output = F0::Output>,
    F7: Operation<Output = F0::Output>, F8: Operation<Output = F0::Output>,
    F9: Operation<Output = F0::Output>, F10: Operation<Output = F0::Output>,
    F11: Operation<Output = F0::Output>,
> Operation for RacedSame<
    Operands<F0, Operands<F1, Operands<F2, Operands<F3, Operands<F4, Operands<F5, Operands<F6,
        Operands<F7, Operands<F8, Operands<F9, Operands<F10, LastOperand<F11>>>>>>>>>>>>,
> {
    type Output = F0::Output;

    /// A race may be polled while no operand has reported its output: once
    /// it has a winner, it polls no operand again.
    open spec fn live(&self) -> bool {
        self@.live()
    }

    /// One cycle of the race (see [`OperandList::race`]). The result is the
    /// output that the winner has reported, whatever its position.
    fn poll(&mut self, cx: &mut core::task::Context<'_>) -> (polled: Poll<Self::Output>)
        ensures
            polled == (match final(self)@.won() {
                Some(won) => Poll::Ready(won.bare()),
                None => Poll::Pending,
            }),
            final(self)@.raced_from(
                &old(self)@,
                first_ready(final(self)@.reported()),
                old(self).now(),
            ),
            final(self).now() == old(self).now() + old(self)@.polled(
                first_ready(final(self)@.reported()),
            ),
            polled is Ready <==> first_ready(final(self)@.reported()) is Some,
    {
        match self.operands.race(cx, &mut self.clock) {
            Poll::Ready(won) => Poll::Ready(won.untagged()),
            Poll::Pending => Poll::Pending,
        }
    }
}

impl<
    T, F0: Operation<Output = T>, F1: Operation<Output = T>, F2: Operation<Output = T>,
    F3: Operation<Output = T>, F4: Operation<Output = T>, F5: Operation<Output = T>,
    F6: Operation<Output = T>, F7: Operation<Output = T>, F8: Operation<Output = T>,
    F9: Operation<Output = T>, F10: Operation<Output = T>, F11: Operation<Output = T>,
> RaceSame for (
    F0, F1, F2, F3, F4, F5, F6, F7, F8, F9, F10, F11,
) {
    type Output = T;

    type Combined = RacedSame<Operands<F0, Operands<F1, Operands<F2, Operands<F3, Operands<F4,
        Operands<F5, Operands<F6, Operands<F7, Operands<F8, Operands<F9, Operands<F10,
        LastOperand<F11>>>>>>>>>>>>>;

    /// Takes the operations over in declared order. None of them is polled
    /// yet, and the race may be polled if all of them may.
    fn race_same(self) -> (race: Self::Combined)
        ensures
            race@.fresh((self.0, (self.1, (self.2, (self.3, (self.4, (self.5, (self.6, (self.7,
                (self.8, (self.9, (self.10, self.11)))))))))))),
            race.now() == 0,
            race.live() <==> (
                self.0.live() && self.1.live() && self.2.live() && self.3.live() &&
                self.4.live() && self.5.live() && self.6.live() && self.7.live() &&
                self.8.live() && self.9.live() && self.10.live() && self.11.live()
            ),
    {
        RacedSame {
            operands: Operands::new((self.0, (self.1, (self.2, (self.3, (self.4, (self.5,
                (self.6, (self.7, (self.8, (self.9, (self.10, self.11)))))))))))),
            clock: Clock::new(),
        }
    }
}

impl<T> Winner<T, Winner<T, Winner<T, Winner<T, Winner<T, Winner<T, Winner<T, Winner<T,
    Winner<T, Winner<T, Winner<T, Winner<T, T>>>>>>>>>>>> {
    /// What a list of thirteen operands of one output type has won, without its
    /// place: the output itself.
    pub open spec fn bare(self) -> T {
        match self {
            Here(output) => output,
            There(Here(output)) => output,
            There(There(Here(output))) => output,
            There(There(There(Here(output)))) => output,
            There(There(There(There(Here(output))))) => output,
            There(There(There(There(There(Here(output)))))) => output,
            There(There(There(There(There(There(Here(output))))))) => output,
            There(There(There(There(There(There(There(Here(output)))))))) => output,
            There(There(There(There(There(There(There(There(Here(output))))))))) => output,
            There(There(There(There(There(There(There(There(There(Here(output)))))))))) => output,
            There(There(There(There(There(There(There(There(There(There(Here(output))))))))))) => {
                output
            },
            There(There(There(There(There(There(There(There(There(There(There(Here(output)))))))))))) => {
                output
            },
            There(There(There(There(There(There(There(There(There(There(There(There(output)))))))))))) => {
                output
            },
        }
    }

    /// Takes the output out of what a list of thirteen operands of one output
    /// type has won, and drops the place.
    pub fn untagged(self) -> (output: T)
        ensures
            output == self.bare(),
    {
        match self {
            Here(output) => output,
            There(Here(output)) => output,
            There(There(Here(output))) => output,
            There(There(There(Here(output)))) => output,
            There(There(There(There(Here(output))))) => output,
            There(There(There(There(There(Here(output)))))) => output,
            There(There(There(There(There(There(Here(output))))))) => output,
            There(There(There(There(There(There(There(Here(output)))))))) => output,
            There(There(There(There(There(There(There(There(Here(output))))))))) => output,
            There(There(There(There(There(There(There(There(There(Here(output)))))))))) => output,
            There(There(There(There(There(There(There(There(There(There(Here(output))))))))))) => {
                output
            },
            There(There(There(There(There(There(There(There(There(There(There(Here(output)))))))))))) => {
                output
            },
            There(There(There(There(There(There(There(There(There(There(There(There(output)))))))))))) => {
                output
            },
        }
    }
}

/// The race between thirteen operations of one output type.
impl<
    F0: Operation, F1: Operation<Output = F0::Output>, F2: Operation<Output = F0::Output>,
    F3: Operation<Output = F0::Output>, F4: Operation<Output = F0::Output>,
    F5: Operation<Output = F0::Output>, F6: Operation<Output = F0::Output>,
    F7: Operation<Output = F0::Output>, F8: Operation<Output = F0::Output>,
    F9: Operation<Output = F0::Output>, F10: Operation<Output = F0::Output>,
    F11: Operation<Output = F0::Output>, F12: Operation<Output = F0::Output>,
> Operation for RacedSame<
    Operands<F0, Operands<F1, Operands<F2, Operands<F3, Operands<F4, Operands<F5, Operands<F6,
        Operands<F7, Operands<F8, Operands<F9, Operands<F10, Operands<F11,
        LastOperand<F12>>>>>>>>>>>>>,
> {
    type Output = F0::Output;

    /// A race may be polled while no operand has reported its output: once
    /// it has a winner, it polls no operand again.
    open spec fn live(&self) -> bool {
        self@.live()
    }

    /// One cycle of the race (see [`OperandList::race`]). The result is the
    /// output that the winner has reported, whatever its position.
    fn poll(&mut self, cx: &mut core::task::Context<'_>) -> (polled: Poll<Self::Output>)
        ensures
            polled == (match final(self)@.won() {
                Some(won) => Poll::Ready(won.bare()),
                None => Poll::Pending,
            }),
            final(self)@.raced_from(
                &old(self)@,
                first_ready(final(self)@.reported()),
                old(self).now(),
            ),
            final(self).now() == old(self).now() + old(self)@.polled(
                first_ready(final(self)@.reported()),
            ),
            polled is Ready <==> first_ready(final(self)@.reported()) is Some,
    {
        match self.operands.race(cx, &mut self.clock) {
            Poll::Ready(won) => Poll::Ready(won.untagged()),
            Poll::Pending => Poll::Pending,
        }
    }
}

impl<
    T, F0: Operation<Output = T>, F1: Operation<Output = T>, F2: Operation<Output = T>,
    F3: Operation<Output = T>, F4: Operation<Output = T>, F5: Operation<Output = T>,
    F6: Operation<Output = T>, F7: Operation<Output = T>, F8: Operation<Output = T>,
    F9: Operation<Output = T>, F10: Operation<Output = T>, F11: Operation<Output = T>,
    F12: Operation<Output = T>,
> RaceSame for (
    F0, F1, F2, F3, F4, F5, F6, F7, F8, F9, F10, F11, F12,
) {
    type Output = T;

    type Combined = RacedSame<Operands<F0, Operands<F1, Operands<F2, Operands<F3, Operands<F4,
        Operands<F5, Operands<F6, Operands<F7, Operands<F8, Operands<F9, Operands<F10,
        Operands<F11, LastOperand<F12>>>>>>>>>>>>>>;

    /// Takes the operations over in declared order. None of them is polled
    /// yet, and the race may be polled if all of them may.
    fn race_same(self) -> (race: Self::Combined)
        ensures
            race@.fresh((self.0, (self.1, (self.2, (self.3, (self.4, (self.5, (self.6, (self.7,
                (self.8, (self.9, (self.10, (self.11, self.12))))))))))))),
            race.now() == 0,
            race.live() <==> (
                self.0.live() && self.1.live() && self.2.live() && self.3.live() &&
                self.4.live() && self.5.live() && self.6.live() && self.7.live() &&
                self.8.live() && self.9.live() && self.10.live() && self.11.live() &&
                self.12.live()
            ),
    {
        RacedSame {
            operands: Operands::new((self.0, (self.1, (self.2, (self.3, (self.4, (self.5,
                (self.6, (self.7, (self.8, (self.9, (self.10, (self.11, self.12))))))))))))),
            clock: Clock::new(),
        }
    }
}

impl<T> Winner<T, Winner<T, Winner<T, Winner<T, Winner<T, Winner<T, Winner<T, Winner<T,
    Winner<T, Winner<T, Winner<T, Winner<T, Winner<T, T>>>>>>>>>>>>> {
    /// What a list of fourteen operands of one output type has won, without its
    /// place: the output itself.
    pub open spec fn bare(self) -> T {
        match self {
            Here(output) => output,
            There(Here(output)) => output,
            There(There(Here(output))) => output,
            There(There(There(Here(output)))) => output,
            There(There(There(There(Here(output))))) => output,
            There(There(There(There(There(Here(output)))))) => output,
            There(There(There(There(There(There(Here(output))))))) => output,
            There(There(There(There(There(There(There(Here(output)))))))) => output,
            There(There(There(There(There(There(There(There(Here(output))))))))) => output,
            There(There(There(There(There(There(There(There(There(Here(output)))))))))) => output,
            There(There(There(There(There(There(There(There(There(There(Here(output))))))))))) => {
                output
            },
            There(There(There(There(There(There(There(There(There(There(There(Here(output)))))))))))) => {
                output
            },
            There(There(There(There(There(There(There(There(There(There(There(There(Here(output))))))))))))) => {
                output
            },
            There(There(There(There(There(There(There(There(There(There(There(There(There(output))))))))))))) => {
                output
            },
        }
    }

    /// Takes the output out of what a list of fourteen operands of one output
    /// type has won, and drops the place.
    pub fn untagged(self) -> (output: T)
        ensures
            output == self.bare(),
    {
        match self {
            Here(output) => output,
            There(Here(output)) => output,
            There(There(Here(output))) => output,
            There(There(There(Here(output)))) => output,
            There(There(There(There(Here(output))))) => output,
            There(There(There(There(There(Here(output)))))) => output,
            There(There(There(There(There(There(Here(output))))))) => output,
            There(There(There(There(There(There(There(Here(output)))))))) => output,
            There(There(There(There(There(There(There(There(Here(output))))))))) => output,
            There(There(There(There(There(There(There(There(There(Here(output)))))))))) => output,
            There(There(There(There(There(There(There(There(There(There(Here(output))))))))))) => {
                output
            },
            There(There(There(There(There(There(There(There(There(There(There(Here(output)))))))))))) => {
                output
            },
            There(There(There(There(There(There(There(There(There(There(There(There(Here(output))))))))))))) => {
                output
            },
            There(There(There(There(There(There(There(There(There(There(There(There(There(output))))))))))))) => {
                output
            },
        }
    }
}

/// The race between fourteen operations of one output type.
impl<
    F0: Operation, F1: Operation<Output = F0::Output>, F2: Operation<Output = F0::Output>,
    F3: Operation<Output = F0::Output>, F4: Operation<Output = F0::Output>,
    F5: Operation<Output = F0::Output>, F6: Operation<Output = F0::Output>,
    F7: Operation<Output = F0::Output>, F8: Operation<Output = F0::Output>,
    F9: Operation<Output = F0::Output>, F10: Operation<Output = F0::Output>,
    F11: Operation<Output = F0::Output>, F12: Operation<Output = F0::Output>,
    F13: Operation<Output = F0::Output>,
> Operation for RacedSame<
    Operands<F0, Operands<F1, Operands<F2, Operands<F3, Operands<F4, Operands<F5, Operands<F6,
        Operands<F7, Operands<F8, Operands<F9, Operands<F10, Operands<F11, Operands<F12,
        LastOperand<F13>>>>>>>>>>>>>>,
> {
    type Output = F0::Output;

    /// A race may be polled while no operand has reported its output: once
    /// it has a winner, it polls no operand again.
    open spec fn live(&self) -> bool {
        self@.live()
    }

    /// One cycle of the race (see [`OperandList::race`]). The result is the
    /// output that the winner has reported, whatever its position.
    fn poll(&mut self, cx: &mut core::task::Context<'_>) -> (polled: Poll<Self::Output>)
        ensures
            polled == (match final(self)@.won() {
                Some(won) => Poll::Ready(won.bare()),
                None => Poll::Pending,
            }),
            final(self)@.raced_from(
                &old(self)@,
                first_ready(final(self)@.reported()),
                old(self).now(),
            ),
            final(self).now() == old(self).now() + old(self)@.polled(
                first_ready(final(self)@.reported()),
            ),
            polled is Ready <==> first_ready(final(self)@.reported()) is Some,
    {
        match self.operands.race(cx, &mut self.clock) {
            Poll::Ready(won) => Poll::Ready(won.untagged()),
            Poll::Pending => Poll::Pending,
        }
    }
}

impl<
    T, F0: Operation<Output = T>, F1: Operation<Output = T>, F2: Operation<Output = T>,
    F3: Operation<Output = T>, F4: Operation<Output = T>, F5: Operation<Output = T>,
    F6: Operation<Output = T>, F7: Operation<Output = T>, F8: Operation<Output = T>,
    F9: Operation<Output = T>, F10: Operation<Output = T>, F11: Operation<Output = T>,
    F12: Operation<Output = T>, F13: Operation<Output = T>,
> RaceSame for (
    F0, F1, F2, F3, F4, F5, F6, F7, F8, F9, F10, F11, F12, F13,
) {
    type Output = T;

    type Combined = RacedSame<Operands<F0, Operands<F1, Operands<F2, Operands<F3, Operands<F4,
        Operands<F5, Operands<F6, Operands<F7, Operands<F8, Operands<F9, Operands<F10,
        Operands<F11, Operands<F12, LastOperand<F13>>>>>>>>>>>>>>>;

    /// Takes the operations over in declared order. None of them is polled
    /// yet, and the race may be polled if all of them may.
    fn race_same(self) -> (race: Self::Combined)
        ensures
            race@.fresh((self.0, (self.1, (self.2, (self.3, (self.4, (self.5, (self.6, (self.7,
                (self.8, (self.9, (self.10, (self.11, (self.12, self.13)))))))))))))),
            race.now() == 0,
            race.live() <==> (
                self.0.live() && self.1.live() && self.2.live() && self.3.live() &&
                self.4.live() && self.5.live() && self.6.live() && self.7.live() &&
                self.8.live() && self.9.live() && self.10.live() && self.11.live() &&
                self.12.live() && self.13.live()
            ),
    {
        RacedSame {
            operands: Operands::new((self.0, (self.1, (self.2, (self.3, (self.4, (self.5,
                (self.6, (self.7, (self.8, (self.9, (self.10, (self.11, (self.12,
                self.13)))))))))))))),
            clock: Clock::new(),
        }
    }
}

impl<T> Winner<T, Winner<T, Winner<T, Winner<T, Winner<T, Winner<T, Winner<T, Winner<T,
    Winner<T, Winner<T, Winner<T, Winner<T, Winner<T, Winner<T, T>>>>>>>>>>>>>> {
    /// What a list of fifteen operands of one output type has won, without its
    /// place: the output itself.
    pub open spec fn bare(self) -> T {
        match self {
            Here(output) => output,
            There(Here(output)) => output,
            There(There(Here(output))) => output,
            There(There(There(Here(output)))) => output,
            There(There(There(There(Here(output))))) => output,
            There(There(There(There(There(Here(output)))))) => output,
            There(There(There(There(There(There(Here(output))))))) => output,
            There(There(There(There(There(There(There(Here(output)))))))) => output,
            There(There(There(There(There(There(There(There(Here(output))))))))) => output,
            There(There(There(There(There(There(There(There(There(Here(output)))))))))) => output,
            There(There(There(There(There(There(There(There(There(There(Here(output))))))))))) => {
                output
            },
            There(There(There(There(There(There(There(There(There(There(There(Here(output)))))))))))) => {
                output
            },
            There(There(There(There(There(There(There(There(There(There(There(There(Here(output))))))))))))) => {
                output
            },
            There(There(There(There(There(There(There(There(There(There(There(There(There(Here(output)))))))))))))) => {
                output
            },
            There(There(There(There(There(There(There(There(There(There(There(There(There(There(output)))))))))))))) => {
                output
            },
        }
    }

    /// Takes the output out of what a list of fifteen operands of one output
    /// type has won, and drops the place.
    pub fn untagged(self) -> (output: T)
        ensures
            output == self.bare(),
    {
        match self {
            Here(output) => output,
            There(Here(output)) => output,
            There(There(Here(output))) => output,
            There(There(There(Here(output)))) => output,
            There(There(There(There(Here(output))))) => output,
            There(There(There(There(There(Here(output)))))) => output,
            There(There(There(There(There(There(Here(output))))))) => output,
            There(There(There(There(There(There(There(Here(output)))))))) => output,
            There(There(There(There(There(There(There(There(Here(output))))))))) => output,
            There(There(There(There(There(There(There(There(There(Here(output)))))))))) => output,
            There(There(There(There(There(There(There(There(There(There(Here(output))))))))))) => {
                output
            },
            There(There(There(There(There(There(There(There(There(There(There(Here(output)))))))))))) => {
                output
            },
            There(There(There(There(There(There(There(There(There(There(There(There(Here(output))))))))))))) => {
                output
            },
            There(There(There(There(There(There(There(There(There(There(There(There(There(Here(output)))))))))))))) => {
                output
            },
            There(There(There(There(There(There(There(There(There(There(There(There(There(There(output)))))))))))))) => {
                output
            },
        }
    }
}

/// The race between fifteen operations of one output type.
impl<
    F0: Operation, F1: Operation<Output = F0::Output>, F2: Operation<Output = F0::Output>,
    F3: Operation<Output = F0::Output>, F4: Operation<Output = F0::Output>,
    F5: Operation<Output = F0::Output>, F6: Operation<Output = F0::Output>,
    F7: Operation<Output = F0::Output>, F8: Operation<Output = F0::Output>,
    F9: Operation<Output = F0::Output>, F10: Operation<Output = F0::Output>,
    F11: Operation<Output = F0::Output>, F12: Operation<Output = F0::Output>,
    F13: Operation<Output = F0::Output>, F14: Operation<Output = F0::Output>,
> Operation for RacedSame<
    Operands<F0, Operands<F1, Operands<F2, Operands<F3, Operands<F4, Operands<F5, Operands<F6,
        Operands<F7, Operands<F8, Operands<F9, Operands<F10, Operands<F11, Operands<F12,
        Operands<F13, LastOperand<F14>>>>>>>>>>>>>>>,
> {
    type Output = F0::Output;

    /// A race may be polled while no operand has reported its output: once
    /// it has a winner, it polls no operand again.
    open spec fn live(&self) -> bool {
        self@.live()
    }

    /// One cycle of the race (see [`OperandList::race`]). The result is the
    /// output that the winner has reported, whatever its position.
    fn poll(&mut self, cx: &mut core::task::Context<'_>) -> (polled: Poll<Self::Output>)
        ensures
            polled == (match final(self)@.won() {
                Some(won) => Poll::Ready(won.bare()),
                None => Poll::Pending,
            }),
            final(self)@.raced_from(
                &old(self)@,
                first_ready(final(self)@.reported()),
                old(self).now(),
            ),
            final(self).now() == old(self).now() + old(self)@.polled(
                first_ready(final(self)@.reported()),
            ),
            polled is Ready <==> first_ready(final(self)@.reported()) is Some,
    {
        match self.operands.race(cx, &mut self.clock) {
            Poll::Ready(won) => Poll::Ready(won.untagged()),
            Poll::Pending => Poll::Pending,
        }
    }
}

impl<
    T, F0: Operation<Output = T>, F1: Operation<Output = T>, F2: Operation<Output = T>,
    F3: Operation<Output = T>, F4: Operation<Output = T>, F5: Operation<Output = T>,
    F6: Operation<Output = T>, F7: Operation<Output = T>, F8: Operation<Output = T>,
    F9: Operation<Output = T>, F10: Operation<Output = T>, F11: Operation<Output = T>,
    F12: Operation<Output = T>, F13: Operation<Output = T>, F14: Operation<Output = T>,
> RaceSame for (
    F0, F1, F2, F3, F4, F5, F6, F7, F8, F9, F10, F11, F12, F13, F14,
) {
    type Output = T;

    type Combined = RacedSame<Operands<F0, Operands<F1, Operands<F2, Operands<F3, Operands<F4,
        Operands<F5, Operands<F6, Operands<F7, Operands<F8, Operands<F9, Operands<F10,
        Operands<F11, Operands<F12, Operands<F13, LastOperand<F14>>>>>>>>>>>>>>>>;

    /// Takes the operations over in declared order. None of them is polled
    /// yet, and the race may be polled if all of them may.
    fn race_same(self) -> (race: Self::Combined)
        ensures
            race@.fresh((self.0, (self.1, (self.2, (self.3, (self.4, (self.5, (self.6, (self.7,
                (self.8, (self.9, (self.10, (self.11, (self.12, (self.13, self.14))))))))))))))),
            race.now() == 0,
            race.live() <==> (
                self.0.live() && self.1.live() && self.2.live() && self.3.live() &&
                self.4.live() && self.5.live() && self.6.live() && self.7.live() &&
                self.8.live() && self.9.live() && self.10.live() && self.11.live() &&
                self.12.live() && self.13.live() && self.14.live()
            ),
    {
        RacedSame {
            operands: Operands::new((self.0, (self.1, (self.2, (self.3, (self.4, (self.5,
                (self.6, (self.7, (self.8, (self.9, (self.10, (self.11, (self.12, (self.13,
                self.14))))))))))))))),
            clock: Clock::new(),
        }
    }
}

impl<T> Winner<T, Winner<T, Winner<T, Winner<T, Winner<T, Winner<T, Winner<T, Winner<T,
    Winner<T, Winner<T, Winner<T, Winner<T, Winner<T, Winner<T, Winner<T, T>>>>>>>>>>>>>>> {
    /// What a list of sixteen operands of one output type has won, without its
    /// place: the output itself.
    pub open spec fn bare(self) -> T {
        match self {
            Here(output) => output,
            There(Here(output)) => output,
            There(There(Here(output))) => output,
            There(There(There(Here(output)))) => output,
            There(There(There(There(Here(output))))) => output,
            There(There(There(There(There(Here(output)))))) => output,
            There(There(There(There(There(There(Here(output))))))) => output,
            There(There(There(There(There(There(There(Here(output)))))))) => output,
            There(There(There(There(There(There(There(There(Here(output))))))))) => output,
            There(There(There(There(There(There(There(There(There(Here(output)))))))))) => output,
            There(There(There(There(There(There(There(There(There(There(Here(output))))))))))) => {
                output
            },
            There(There(There(There(There(There(There(There(There(There(There(Here(output)))))))))))) => {
                output
            },
            There(There(There(There(There(There(There(There(There(There(There(There(Here(output))))))))))))) => {
                output
            },
            There(There(There(There(There(There(There(There(There(There(There(There(There(Here(output)))))))))))))) => {
                output
            },
            There(There(There(There(There(There(There(There(There(There(There(There(There(There(Here(output))))))))))))))) => {
                output
            },
            There(There(There(There(There(There(There(There(There(There(There(There(There(There(There(output))))))))))))))) => {
                output
            },
        }
    }

    /// Takes the output out of what a list of sixteen operands of one output
    /// type has won, and drops the place.
    pub fn untagged(self) -> (output: T)
        ensures
            output == self.bare(),
    {
        match self {
            Here(output) => output,
            There(Here(output)) => output,
            There(There(Here(output))) => output,
            There(There(There(Here(output)))) => output,
            There(There(There(There(Here(output))))) => output,
            There(There(There(There(There(Here(output)))))) => output,
            There(There(There(There(There(There(Here(output))))))) => output,
            There(There(There(There(There(There(There(Here(output)))))))) => output,
            There(There(There(There(There(There(There(There(Here(output))))))))) => output,
            There(There(There(There(There(There(There(There(There(Here(output)))))))))) => output,
            There(There(There(There(There(There(There(There(There(There(Here(output))))))))))) => {
                output
            },
            There(There(There(There(There(There(There(There(There(There(There(Here(output)))))))))))) => {
                output
            },
            There(There(There(There(There(There(There(There(There(There(There(There(Here(output))))))))))))) => {
                output
            },
            There(There(There(There(There(There(There(There(There(There(There(There(There(Here(output)))))))))))))) => {
                output
            },
            There(There(There(There(There(There(There(There(There(There(There(There(There(There(Here(output))))))))))))))) => {
                output
            },
            There(There(There(There(There(There(There(There(There(There(There(There(There(There(There(output))))))))))))))) => {
                output
            },
        }
    }
}

/// The race between sixteen operations of one output type.
impl<
    F0: Operation, F1: Operation<Output = F0::Output>, F2: Operation<Output = F0::Output>,
    F3: Operation<Output = F0::Output>, F4: Operation<Output = F0::Output>,
    F5: Operation<Output = F0::Output>, F6: Operation<Output = F0::Output>,
    F7: Operation<Output = F0::Output>, F8: Operation<Output = F0::Output>,
    F9: Operation<Output = F0::Output>, F10: Operation<Output = F0::Output>,
    F11: Operation<Output = F0::Output>, F12: Operation<Output = F0::Output>,
    F13: Operation<Output = F0::Output>, F14: Operation<Output = F0::Output>,
    F15: Operation<Output = F0::Output>,
> Operation for RacedSame<
    Operands<F0, Operands<F1, Operands<F2, Operands<F3, Operands<F4, Operands<F5, Operands<F6,
        Operands<F7, Operands<F8, Operands<F9, Operands<F10, Operands<F11, Operands<F12,
        Operands<F13, Operands<F14, LastOperand<F15>>>>>>>>>>>>>>>>,
> {
    type Output = F0::Output;

    /// A race may be polled while no operand has reported its output: once
    /// it has a winner, it polls no operand again.
    open spec fn live(&self) -> bool {
        self@.live()
    }

    /// One cycle of the race (see [`OperandList::race`]). The result is the
    /// output that the winner has reported, whatever its position.
    fn poll(&mut self, cx: &mut core::task::Context<'_>) -> (polled: Poll<Self::Output>)
        ensures
            polled == (match final(self)@.won() {
                Some(won) => Poll::Ready(won.bare()),
                None => Poll::Pending,
            }),
            final(self)@.raced_from(
                &old(self)@,
                first_ready(final(self)@.reported()),
                old(self).now(),
            ),
            final(self).now() == old(self).now() + old(self)@.polled(
                first_ready(final(self)@.reported()),
            ),
            polled is Ready <==> first_ready(final(self)@.reported()) is Some,
    {
        match self.operands.race(cx, &mut self.clock) {
            Poll::Ready(won) => Poll::Ready(won.untagged()),
            Poll::Pending => Poll::Pending,
        }
    }
}

impl<
    T, F0: Operation<Output = T>, F1: Operation<Output = T>, F2: Operation<Output = T>,
    F3: Operation<Output = T>, F4: Operation<Output = T>, F5: Operation<Output = T>,
    F6: Operation<Output = T>, F7: Operation<Output = T>, F8: Operation<Output = T>,
    F9: Operation<Output = T>, F10: Operation<Output = T>, F11: Operation<Output = T>,
    F12: Operation<Output = T>, F13: Operation<Output = T>, F14: Operation<Output = T>,
    F15: Operation<Output = T>,
> RaceSame for (
    F0, F1, F2, F3, F4, F5, F6, F7, F8, F9, F10, F11, F12, F13, F14, F15,
) {
    type Output = T;

    type Combined = RacedSame<Operands<F0, Operands<F1, Operands<F2, Operands<F3, Operands<F4,
        Operands<F5, Operands<F6, Operands<F7, Operands<F8, Operands<F9, Operands<F10,
        Operands<F11, Operands<F12, Operands<F13, Operands<F14, LastOperand<F15>>>>>>>>>>>>>>>>>;

    /// Takes the operations over in declared order. None of them is polled
    /// yet, and the race may be polled if all of them may.
    fn race_same(self) -> (race: Self::Combined)
        ensures
            race@.fresh((self.0, (self.1, (self.2, (self.3, (self.4, (self.5, (self.6, (self.7,
                (self.8, (self.9, (self.10, (self.11, (self.12, (self.13, (self.14,
                self.15)))))))))))))))),
            race.now() == 0,
            race.live() <==> (
                self.0.live() && self.1.live() && self.2.live() && self.3.live() &&
                self.4.live() && self.5.live() && self.6.live() && self.7.live() &&
                self.8.live() && self.9.live() && self.10.live() && self.11.live() &&
                self.12.live() && self.13.live() && self.14.live() && self.15.live()
            ),
    {
        RacedSame {
            operands: Operands::new((self.0, (self.1, (self.2, (self.3, (self.4, (self.5,
                (self.6, (self.7, (self.8, (self.9, (self.10, (self.11, (self.12, (self.13,
                (self.14, self.15)))))))))))))))),
            clock: Clock::new(),
        }
    }
}

} // verus!
