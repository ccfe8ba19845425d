//! The operands of a race as a list in declared order, and the race rule on
//! a list of any length.

use crate::model::{first_ready, lemma_first_ready_split, lemma_first_ready_wins};
use crate::operation::{Clock, Operand, Operation, Poll};
use vstd::prelude::*;

verus! {

/// The operands of a race in declared order: the first operand and those
/// after it.
pub struct Operands<F: Operation, R: OperandList> {
    /// The operand declared first.
    pub first: Operand<F>,
    /// The operands declared after it.
    pub rest: R,
}

/// The operand declared last, which ends a list of operands.
pub struct LastOperand<F: Operation> {
    /// The operand.
    pub last: Operand<F>,
}

/// What a list of operands has won: the output of its first operand, or what
/// the operands after it have won. The output of a last operand stands for
/// itself.
pub enum Winner<T, R> {
    /// The first operand won.
    Here(T),
    /// One of the operands after the first won.
    There(R),
}

/// What the list has won if its first operand has given `answer`: the
/// output, placed first, or nothing yet.
pub fn first_answer<T, R>(answer: Poll<T>) -> (won: Option<Winner<T, R>>)
    ensures
        won == (match answer {
            Poll::Ready(output) => Some(Winner::<T, R>::Here(output)),
            Poll::Pending => None,
        }),
{
    match answer {
        Poll::Ready(output) => Some(Winner::Here(output)),
        Poll::Pending => None,
    }
}

/// What a list reports whose first operand is pending and whose other
/// operands have reported `answer`: what they have won, placed after the
/// first, or pending as they are.
pub fn rest_answer<T, R>(answer: Poll<R>) -> (polled: Poll<Winner<T, R>>)
    ensures
        polled == (match answer {
            Poll::Ready(won) => Poll::Ready(Winner::<T, R>::There(won)),
            Poll::Pending => Poll::Pending,
        }),
{
    match answer {
        Poll::Ready(won) => Poll::Ready(Winner::There(won)),
        Poll::Pending => Poll::Pending,
    }
}

/// A list of operands of any length.
///
/// The race rule is stated on it once, for every number of operands; the
/// races between two to sixteen operands are lists of that length.
pub trait OperandList: Sized {
    /// The operands in declared order: the first operation, paired with
    /// those after it.
    type Operations;

    /// The output of the winner, placed by the winner's position.
    type Won;

    /// For each position, whether its operand has reported its output.
    spec fn reported(&self) -> Seq<bool>;

    /// Whether every operand is the operation that `operations` holds in its
    /// position, not polled yet.
    spec fn fresh(&self, operations: Self::Operations) -> bool;

    /// Whether every operand may still be polled: none has reported its
    /// output.
    spec fn live(&self) -> bool;

    /// The position of the winner, counted from 0 in declared order.
    spec fn position(won: Self::Won) -> int;

    /// What the list has won: the output that the first operand with an
    /// output on record has reported, placed by its position; `None` while no
    /// operand has reported one.
    spec fn won(&self) -> Option<Self::Won>;

    /// How many operands a cycle polls, given the position of the winner, if
    /// the cycle has one: the winner and those before it, or all of them.
    spec fn polled(&self, winner: Option<int>) -> nat;

    /// Whether `self` is what one cycle makes of the operands `before`, given
    /// the position of the winner, if the cycle had one, and what the clock
    /// showed as the cycle began.
    ///
    /// Operands are polled in declared order up to the winner: each of them
    /// was polled once, when the clock showed `start` and its position. Those
    /// before the winner reported pending and the winner reported its output;
    /// those after it were not polled and are as they were. In a cycle
    /// without a winner every operand was polled and reported pending.
    spec fn raced_from(&self, before: &Self, winner: Option<int>, start: nat) -> bool;

    /// Takes the operations over in declared order. None of them is polled
    /// yet.
    fn new(operations: Self::Operations) -> (operands: Self)
        ensures
            operands.fresh(operations),
    ;

    /// One cycle of the race: the operands are polled in declared order, and
    /// the first that reports its output wins at once. The winner is the
    /// operand declared first among those that have reported an output, and
    /// the result is the output that it has reported, placed by its position.
    fn race(&mut self, cx: &mut core::task::Context<'_>, clock: &mut Clock) -> (polled: Poll<
        Self::Won,
    >)
        requires
            old(self).live(),
        ensures
            polled == (match final(self).won() {
                Some(won) => Poll::Ready(won),
                None => Poll::Pending,
            }),
            final(self).live() <==> polled is Pending,
            final(self).raced_from(
                old(self),
                first_ready(final(self).reported()),
                old(clock).now(),
            ),
            final(clock).now() == old(clock).now() + old(self).polled(
                first_ready(final(self).reported()),
            ),
            match polled {
                Poll::Ready(won) => first_ready(final(self).reported()) == Some(
                    Self::position(won),
                ),
                Poll::Pending => first_ready(final(self).reported()) is None,
            },
    ;

    /// A race is over once it has a winner: the operands may be polled
    /// exactly as long as none of them has reported its output.
    proof fn lemma_winner_ends_race(&self)
        ensures
            self.live() <==> first_ready(self.reported()) is None,
    ;
}

impl<F: Operation> OperandList for LastOperand<F> {
    type Operations = F;

    type Won = F::Output;

    open spec fn reported(&self) -> Seq<bool> {
        seq![!self.last.live()]
    }

    open spec fn fresh(&self, operations: F) -> bool {
        self.last.fresh(operations)
    }

    open spec fn live(&self) -> bool {
        self.last.live()
    }

    open spec fn position(won: F::Output) -> int {
        0
    }

    open spec fn won(&self) -> Option<F::Output> {
        self.last.delivered()
    }

    open spec fn polled(&self, winner: Option<int>) -> nat {
        1
    }

    open spec fn raced_from(&self, before: &Self, winner: Option<int>, start: nat) -> bool {
        match winner {
            Some(w) => w == 0 && self.last.delivered_from(&before.last, start),
            None => self.last.deferred_from(&before.last, start),
        }
    }

    fn new(operations: F) -> (operands: Self) {
        LastOperand { last: Operand::new(operations) }
    }

    fn race(&mut self, cx: &mut core::task::Context<'_>, clock: &mut Clock) -> (polled: Poll<
        F::Output,
    >) {
        let polled = self.last.poll(cx, clock);
        proof {
            lemma_first_ready_split(!self.last.live(), Seq::empty());
            assert(seq![!self.last.live()] + Seq::<bool>::empty() =~= self.reported());
        }
        polled
    }

    proof fn lemma_winner_ends_race(&self) {
        lemma_first_ready_split(!self.last.live(), Seq::empty());
        assert(seq![!self.last.live()] + Seq::<bool>::empty() =~= self.reported());
    }
}

impl<F: Operation, R: OperandList> OperandList for Operands<F, R> {
    type Operations = (F, R::Operations);

    type Won = Winner<F::Output, R::Won>;

    open spec fn reported(&self) -> Seq<bool> {
        seq![!self.first.live()] + self.rest.reported()
    }

    open spec fn fresh(&self, operations: (F, R::Operations)) -> bool {
        self.first.fresh(operations.0) && self.rest.fresh(operations.1)
    }

    open spec fn live(&self) -> bool {
        self.first.live() && self.rest.live()
    }

    open spec fn position(won: Winner<F::Output, R::Won>) -> int {
        match won {
            Winner::Here(_) => 0,
            Winner::There(rest) => 1 + R::position(rest),
        }
    }

    open spec fn won(&self) -> Option<Winner<F::Output, R::Won>> {
        match self.first.delivered() {
            Some(output) => Some(Winner::Here(output)),
            None => match self.rest.won() {
                Some(won) => Some(Winner::There(won)),
                None => None,
            },
        }
    }

    open spec fn polled(&self, winner: Option<int>) -> nat {
        match winner {
            Some(w) => if w == 0 {
                1
            } else {
                1 + self.rest.polled(Some(w - 1))
            },
            None => 1 + self.rest.polled(None),
        }
    }

    open spec fn raced_from(&self, before: &Self, winner: Option<int>, start: nat) -> bool {
        match winner {
            Some(w) => if w == 0 {
                self.first.delivered_from(&before.first, start) && self.rest == before.rest
            } else {
                self.first.deferred_from(&before.first, start) && self.rest.raced_from(
                    &before.rest,
                    Some(w - 1),
                    start + 1,
                )
            },
            None => self.first.deferred_from(&before.first, start) && self.rest.raced_from(
                &before.rest,
                None,
                start + 1,
            ),
        }
    }

    fn new(operations: (F, R::Operations)) -> (operands: Self) {
        Operands { first: Operand::new(operations.0), rest: R::new(operations.1) }
    }

    fn race(&mut self, cx: &mut core::task::Context<'_>, clock: &mut Clock) -> (polled: Poll<
        Winner<F::Output, R::Won>,
    >) {
        match first_answer(self.first.poll(cx, clock)) {
            Some(won) => {
                proof {
                    lemma_first_ready_split(!self.first.live(), self.rest.reported());
                }
                Poll::Ready(won)
            },
            None => {
                let rest = self.rest.race(cx, clock);
                proof {
                    lemma_first_ready_split(!self.first.live(), self.rest.reported());
                    lemma_first_ready_wins(self.rest.reported());
                }
                rest_answer(rest)
            },
        }
    }

    proof fn lemma_winner_ends_race(&self) {
        self.rest.lemma_winner_ends_race();
        lemma_first_ready_split(!self.first.live(), self.rest.reported());
    }
}

} // verus!
