//! The polling interface: what every operand must offer, and what every
//! combinator offers in turn.

use vstd::prelude::*;

verus! {

/// `core::task::Context`, the continuation handed to every poll. The library
/// never looks inside it: it only passes the handle on to its operands, which
/// use it to ask for a later re-poll. The type is declared here so that it can
/// stand in signatures; nothing is claimed of its values.
#[verifier::external_type_specification]
#[verifier::external_body]
pub struct ExContext<'a>(core::task::Context<'a>);

/// What one poll of an asynchronous operation reports.
#[derive(Debug, PartialEq, Eq)]
pub enum Poll<T> {
    /// The operation has finished with this output.
    Ready(T),
    /// The operation is not finished yet and has asked to be polled again.
    Pending,
}

impl<T> Poll<T> {
    /// The output that the poll has reported, if it has reported one.
    pub open spec fn output(&self) -> Option<T> {
        match *self {
            Poll::Ready(output) => Some(output),
            Poll::Pending => None,
        }
    }
}

/// An asynchronous operation: a deferred computation that is polled until it
/// yields its output.
///
/// An operation is *live* until it has reported its output. It must not be
/// polled once it is no longer live: the combinators never do so, and ask the
/// same of whoever polls them.
///
/// The combinators of this crate implement the trait and are proved to keep
/// the contract of [`Operation::poll`]. For an implementation that is not
/// verified the contract is an obligation on its author, and `live` is an
/// ordinary method that answers the same question; the library never calls
/// it.
pub trait Operation {
    /// The value the operation finishes with.
    type Output;

    /// Whether the operation may still be polled: it has not yet reported its
    /// output.
    spec fn live(&self) -> bool;

    /// Polls the operation once. It stays live exactly when it answers
    /// [`Poll::Pending`].
    fn poll(&mut self, cx: &mut core::task::Context<'_>) -> (polled: Poll<Self::Output>)
        requires
            old(self).live(),
        ensures
            final(self).live() <==> polled is Pending,
    ;
}

/// The clock of a combinator. It counts the polls that the combinator makes
/// of its operands, and so tells in which order they were made.
///
/// The clock exists only in proofs. It is advanced by [`Operand::poll`]
/// alone, once for each poll.
pub struct Clock {
    ticks: Ghost<nat>,
}

impl Clock {
    /// The number of polls made so far.
    pub closed spec fn now(&self) -> nat {
        self.ticks@
    }

    /// A clock on which no poll has been made.
    pub fn new() -> (clock: Self)
        ensures
            clock.now() == 0,
    {
        Clock { ticks: Ghost(0) }
    }
}

/// An operation owned by a combinator, together with what the combinator
/// has seen of it: how often it has polled it and when it did so last, and
/// the output that the operation has reported, if it has.
///
/// The record exists only in proofs. The operation can be polled through
/// [`Operand::poll`] alone, so the record is exact, and the contracts of the
/// combinators use it to say which operands a cycle polled and in which
/// order, which it left alone, and whose output a result carries.
pub struct Operand<F: Operation> {
    op: F,
    polls: Ghost<nat>,
    stamp: Ghost<nat>,
    answer: Ghost<Option<F::Output>>,
}

impl<F: Operation> Operand<F> {
    /// The operation held.
    pub closed spec fn op(&self) -> F {
        self.op
    }

    /// How often the operation has been polled since it was handed over.
    pub closed spec fn polls(&self) -> nat {
        self.polls@
    }

    /// What the clock of the combinator showed when the operation was polled
    /// last: the number of polls that the combinator had made before.
    pub closed spec fn polled_at(&self) -> nat {
        self.stamp@
    }

    /// The output that the operation has reported to the combinator, if it
    /// has reported one.
    pub closed spec fn delivered(&self) -> Option<F::Output> {
        self.answer@
    }

    /// Whether the operand may still be polled: its operation is live and
    /// has reported no output to the combinator.
    pub open spec fn live(&self) -> bool {
        self.op().live() && self.delivered() is None
    }

    /// Whether `self` holds `op` and has not polled it yet.
    pub open spec fn fresh(&self, op: F) -> bool {
        self.op() == op && self.polls() == 0 && self.delivered() is None
    }

    /// Whether `self` is `before` after exactly one poll, made when the clock
    /// showed `at`, that reported [`Poll::Pending`].
    pub open spec fn deferred_from(&self, before: &Self, at: nat) -> bool {
        &&& self.polls() == before.polls() + 1
        &&& self.polled_at() == at
        &&& self.live()
    }

    /// Whether `self` is `before` after exactly one poll, made when the clock
    /// showed `at`, that reported an output, which `self` has on record.
    pub open spec fn delivered_from(&self, before: &Self, at: nat) -> bool {
        &&& self.polls() == before.polls() + 1
        &&& self.polled_at() == at
        &&& !self.op().live()
        &&& self.delivered() is Some
    }

    /// Takes ownership of an operation that has not been polled by the
    /// combinator yet.
    pub fn new(op: F) -> (operand: Self)
        ensures
            operand.fresh(op),
    {
        Operand { op, polls: Ghost(0), stamp: Ghost(0), answer: Ghost(None) }
    }

    /// Polls the operation once and hands its answer on as it came. The poll
    /// is put on record with the reading of the clock, which advances by
    /// one, and so is the answer.
    pub fn poll(&mut self, cx: &mut core::task::Context<'_>, clock: &mut Clock) -> (polled: Poll<
        F::Output,
    >)
        requires
            old(self).live(),
        ensures
            final(clock).now() == old(clock).now() + 1,
            match polled {
                Poll::Ready(output) => {
                    &&& final(self).delivered_from(old(self), old(clock).now())
                    &&& final(self).delivered() == Some(output)
                },
                Poll::Pending => final(self).deferred_from(old(self), old(clock).now()),
            },
    {
        self.polls = Ghost(self.polls@ + 1);
        self.stamp = Ghost(clock.ticks@);
        clock.ticks = Ghost(clock.ticks@ + 1);
        let polled = self.op.poll(cx);
        self.answer = Ghost(polled.output());
        polled
    }
}

} // verus!
