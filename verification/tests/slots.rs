use poll_combinators::operands::{
    first_answer, rest_answer, LastOperand, OperandList, Operands, Winner,
};
use poll_combinators::slots::{join_cycle, NoSlots, SlotList, Slots};
use poll_combinators::{Clock, Either, Either3, MaybeDone, Operand, Operation, Poll};
use std::cell::RefCell;
use std::rc::Rc;
use std::task::{Context, Waker};

type Log = Rc<RefCell<Vec<usize>>>;

/// An operation that reports pending a given number of times and then its
/// value. It writes its id to the log whenever it is polled.
struct Script<T> {
    id: usize,
    pending: u32,
    value: Option<T>,
    log: Log,
}

fn script<T>(id: usize, pending: u32, value: T, log: &Log) -> Script<T> {
    Script { id, pending, value: Some(value), log: log.clone() }
}

impl<T> Operation for Script<T> {
    type Output = T;

    fn live(&self) -> bool {
        self.value.is_some()
    }

    fn poll(&mut self, _cx: &mut Context<'_>) -> Poll<T> {
        self.log.borrow_mut().push(self.id);
        if self.pending > 0 {
            self.pending -= 1;
            return Poll::Pending;
        }
        match self.value.take() {
            Some(value) => Poll::Ready(value),
            None => panic!("operation {} was polled after it had finished", self.id),
        }
    }
}

fn polled(log: &Log) -> Vec<usize> {
    log.borrow_mut().drain(..).collect()
}

#[test]
fn take_output_moves_the_output_out_and_consumes_the_slot() {
    let mut slot: MaybeDone<Script<u32>> = MaybeDone::Done(7);
    assert_eq!(slot.take_output(), 7);
    assert!(matches!(slot, MaybeDone::Gone));
}

#[test]
fn take_output_leaves_no_copy_of_the_output_behind() {
    let mut slot: MaybeDone<Script<String>> = MaybeDone::Done(String::from("once"));
    let output = slot.take_output();
    assert_eq!(output, "once");
    assert!(!matches!(slot, MaybeDone::Done(_)));
}

#[test]
fn new_slot_is_in_progress_and_polls_nothing() {
    let log = Log::default();
    let slot = MaybeDone::new(script(0, 0, 1, &log));
    assert!(matches!(slot, MaybeDone::Future(_)));
    assert_eq!(polled(&log), Vec::<usize>::new());
}

#[test]
fn settle_completes_the_slot_with_the_output() {
    let log = Log::default();
    let mut slot = MaybeDone::new(script(0, 3, 1, &log));
    assert!(slot.settle(Poll::Ready(11)));
    assert!(matches!(slot, MaybeDone::Done(11)));
}

#[test]
fn settle_leaves_the_slot_in_progress_on_pending() {
    let log = Log::default();
    let mut slot = MaybeDone::new(script(0, 3, 1, &log));
    assert!(!slot.settle(Poll::Pending));
    assert!(matches!(slot, MaybeDone::Future(_)));
}

#[test]
fn slot_walks_through_its_lifecycle_once() {
    let log = Log::default();
    let mut cx = Context::from_waker(Waker::noop());
    let mut clock = Clock::new();
    let mut slot = MaybeDone::new(script(4, 1, 'x', &log));

    // In progress: the operation is polled, once per call.
    assert!(!slot.poll(&mut cx, &mut clock));
    assert!(matches!(slot, MaybeDone::Future(_)));
    assert_eq!(polled(&log), vec![4]);
    assert!(slot.poll(&mut cx, &mut clock));
    assert!(matches!(slot, MaybeDone::Done('x')));
    assert_eq!(polled(&log), vec![4]);

    // Completed: settled at once, and the operation is not polled again.
    assert!(slot.poll(&mut cx, &mut clock));
    assert!(matches!(slot, MaybeDone::Done('x')));
    assert_eq!(polled(&log), Vec::<usize>::new());

    assert_eq!(slot.take_output(), 'x');

    // Consumed: settled at once, and still consumed.
    assert!(slot.poll(&mut cx, &mut clock));
    assert!(matches!(slot, MaybeDone::Gone));
    assert_eq!(polled(&log), Vec::<usize>::new());
}

#[test]
fn operand_passes_on_what_its_operation_reports() {
    let log = Log::default();
    let mut cx = Context::from_waker(Waker::noop());
    let mut clock = Clock::new();
    let mut operand = Operand::new(script(2, 2, "out", &log));

    assert_eq!(operand.poll(&mut cx, &mut clock), Poll::Pending);
    assert_eq!(operand.poll(&mut cx, &mut clock), Poll::Pending);
    assert_eq!(operand.poll(&mut cx, &mut clock), Poll::Ready("out"));
    assert_eq!(polled(&log), vec![2, 2, 2]);
}

#[test]
fn empty_list_of_slots_is_settled_and_yields_nothing() {
    let mut cx = Context::from_waker(Waker::noop());
    let mut clock = Clock::new();
    let mut slots = NoSlots::new(());
    assert!(slots.advance(&mut cx, &mut clock));
    assert_eq!(slots.take_outputs(), ());
    assert_eq!(join_cycle(&mut slots, &mut cx, &mut clock), Poll::Ready(()));
}

#[test]
fn list_of_slots_advances_every_slot_and_pairs_the_outputs_up() {
    let log = Log::default();
    let mut cx = Context::from_waker(Waker::noop());
    let mut clock = Clock::new();
    let mut slots: Slots<_, Slots<_, Slots<_, NoSlots>>> =
        SlotList::new((script(0, 1, 'a', &log), (script(1, 0, 2u8, &log), (script(2, 1, "c", &log), ()))));

    assert!(!slots.advance(&mut cx, &mut clock));
    assert_eq!(polled(&log), vec![0, 1, 2]);
    assert!(matches!(slots.first, MaybeDone::Future(_)));
    assert!(matches!(slots.rest.first, MaybeDone::Done(2)));
    assert!(matches!(slots.rest.rest.first, MaybeDone::Future(_)));

    assert!(slots.advance(&mut cx, &mut clock));
    assert_eq!(polled(&log), vec![0, 2]);

    assert_eq!(slots.take_outputs(), ('a', (2u8, ("c", ()))));
    assert!(matches!(slots.first, MaybeDone::Gone));
    assert!(matches!(slots.rest.first, MaybeDone::Gone));
    assert!(matches!(slots.rest.rest.first, MaybeDone::Gone));
}

#[test]
fn join_cycle_finishes_when_the_last_slot_settles() {
    let log = Log::default();
    let mut cx = Context::from_waker(Waker::noop());
    let mut clock = Clock::new();
    let mut slots: Slots<_, Slots<_, NoSlots>> =
        SlotList::new((script(0, 0, 1, &log), (script(1, 2, 2, &log), ())));

    assert_eq!(join_cycle(&mut slots, &mut cx, &mut clock), Poll::Pending);
    assert!(matches!(slots.first, MaybeDone::Done(1)));
    assert_eq!(join_cycle(&mut slots, &mut cx, &mut clock), Poll::Pending);
    assert_eq!(join_cycle(&mut slots, &mut cx, &mut clock), Poll::Ready((1, (2, ()))));
    assert_eq!(polled(&log), vec![0, 1, 1, 1]);
}

#[test]
fn last_operand_races_alone() {
    let log = Log::default();
    let mut cx = Context::from_waker(Waker::noop());
    let mut clock = Clock::new();
    let mut operands = LastOperand::new(script(0, 1, 5, &log));

    assert_eq!(operands.race(&mut cx, &mut clock), Poll::Pending);
    assert_eq!(operands.race(&mut cx, &mut clock), Poll::Ready(5));
    assert_eq!(polled(&log), vec![0, 0]);
}

#[test]
fn list_of_operands_places_the_output_by_the_position_of_the_winner() {
    for winner in 0..3usize {
        let log = Log::default();
        let mut cx = Context::from_waker(Waker::noop());
        let mut clock = Clock::new();
        let delay = |i: usize| if i < winner { 9 } else { 0 };
        let mut operands: Operands<_, Operands<_, LastOperand<_>>> = OperandList::new((
            script(0, delay(0), 'a', &log),
            (script(1, delay(1), 'b', &log), script(2, delay(2), 'c', &log)),
        ));

        let position = match operands.race(&mut cx, &mut clock) {
            Poll::Ready(Winner::Here('a')) => 0,
            Poll::Ready(Winner::There(Winner::Here('b'))) => 1,
            Poll::Ready(Winner::There(Winner::There('c'))) => 2,
            _ => panic!("operand {} is ready", winner),
        };
        assert_eq!(position, winner);
        assert_eq!(polled(&log), (0..=winner).collect::<Vec<usize>>());
    }
}

#[test]
fn poll_results_compare_by_what_they_hold() {
    assert_eq!(Poll::Ready(3), Poll::Ready(3));
    assert_ne!(Poll::Ready(3), Poll::Ready(4));
    assert_ne!(Poll::Ready(3), Poll::Pending);
    assert_eq!(format!("{:?}", Poll::Ready(3)), "Ready(3)");
    assert_eq!(format!("{:?}", Poll::<u8>::Pending), "Pending");
}

#[test]
fn first_answer_places_an_output_first() {
    let won: Option<Winner<u8, char>> = first_answer(Poll::Ready(7));
    assert!(matches!(won, Some(Winner::Here(7))));
    let nothing: Option<Winner<u8, char>> = first_answer(Poll::Pending);
    assert!(nothing.is_none());
}

#[test]
fn rest_answer_places_what_the_others_have_won_after_the_first() {
    let polled: Poll<Winner<u8, char>> = rest_answer(Poll::Ready('x'));
    assert!(matches!(polled, Poll::Ready(Winner::There('x'))));
    let pending: Poll<Winner<u8, char>> = rest_answer(Poll::Pending);
    assert!(matches!(pending, Poll::Pending));
}

#[test]
fn tag_keeps_the_output_and_names_its_place() {
    assert!(matches!(Either::<u8, char>::tag(Winner::Here(1)), Either::First(1)));
    assert!(matches!(Either::<u8, char>::tag(Winner::There('b')), Either::Second('b')));
    assert!(matches!(
        Either3::<u8, char, bool>::tag(Winner::There(Winner::There(true))),
        Either3::Third(true)
    ));
}

#[test]
fn untagged_keeps_the_output_and_drops_its_place() {
    let first: Winner<u8, u8> = Winner::Here(5);
    let second: Winner<u8, u8> = Winner::There(9);
    assert_eq!(first.untagged(), 5);
    assert_eq!(second.untagged(), 9);
    let third: Winner<u8, Winner<u8, u8>> = Winner::There(Winner::There(13));
    assert_eq!(third.untagged(), 13);
}

#[test]
fn every_poll_of_a_slot_in_progress_is_counted_on_the_clock_of_the_caller() {
    let log = Log::default();
    let mut cx = Context::from_waker(Waker::noop());
    let mut clock = Clock::new();
    let mut slots: Slots<_, Slots<_, NoSlots>> =
        SlotList::new((script(0, 0, 1, &log), (script(1, 1, 2, &log), ())));

    // The slots are taken in declared order, cycle after cycle.
    assert_eq!(join_cycle(&mut slots, &mut cx, &mut clock), Poll::Pending);
    assert_eq!(join_cycle(&mut slots, &mut cx, &mut clock), Poll::Ready((1, (2, ()))));
    assert_eq!(polled(&log), vec![0, 1, 1]);
}
