use poll_combinators::{Either, Either3, Join, Operation, Poll, Race, RaceSame};
use std::cell::RefCell;
use std::rc::Rc;
use std::task::{Context, Waker};

type Log = Rc<RefCell<Vec<usize>>>;

/// An operation that reports pending a given number of times and then its
/// value. It writes its id to the log whenever it is polled.
struct Script<T> {
    id: usize,
    pending: u32,
    value: Option<T>,
    log: Log,
}

fn script<T>(id: usize, pending: u32, value: T, log: &Log) -> Script<T> {
    Script { id, pending, value: Some(value), log: log.clone() }
}

impl<T> Operation for Script<T> {
    type Output = T;

    fn live(&self) -> bool {
        self.value.is_some()
    }

    fn poll(&mut self, _cx: &mut Context<'_>) -> Poll<T> {
        self.log.borrow_mut().push(self.id);
        if self.pending > 0 {
            self.pending -= 1;
            return Poll::Pending;
        }
        match self.value.take() {
            Some(value) => Poll::Ready(value),
            None => panic!("operation {} was polled after it had finished", self.id),
        }
    }
}

fn polled(log: &Log) -> Vec<usize> {
    log.borrow_mut().drain(..).collect()
}

#[test]
fn race_is_won_by_the_second_operand_while_the_first_is_pending() {
    let log = Log::default();
    let mut cx = Context::from_waker(Waker::noop());
    let mut race = (script(0, 1, 1, &log), script(1, 0, 2, &log)).race();

    match race.poll(&mut cx) {
        Poll::Ready(Either::Second(value)) => assert_eq!(value, 2),
        _ => panic!("the second operand should have won"),
    }
    // The first operand was polled once, in the only cycle there was.
    assert_eq!(polled(&log), vec![0, 1]);
}

#[test]
fn race_tie_goes_to_the_operand_declared_first() {
    let log = Log::default();
    let mut cx = Context::from_waker(Waker::noop());
    let mut race = (script(0, 0, "first", &log), script(1, 0, "second", &log)).race();

    match race.poll(&mut cx) {
        Poll::Ready(Either::First(value)) => assert_eq!(value, "first"),
        _ => panic!("the first operand should have won"),
    }
    // The second operand was ready too, and was not even polled.
    assert_eq!(polled(&log), vec![0]);
}

#[test]
fn race_polls_in_declared_order_until_an_operand_is_ready() {
    let log = Log::default();
    let mut cx = Context::from_waker(Waker::noop());
    let mut race = (script(0, 5, 'a', &log), script(1, 2, 'b', &log), script(2, 2, 'c', &log)).race();

    assert!(matches!(race.poll(&mut cx), Poll::Pending));
    assert_eq!(polled(&log), vec![0, 1, 2]);
    assert!(matches!(race.poll(&mut cx), Poll::Pending));
    assert_eq!(polled(&log), vec![0, 1, 2]);
    match race.poll(&mut cx) {
        Poll::Ready(Either3::Second(value)) => assert_eq!(value, 'b'),
        _ => panic!("the second operand should have won"),
    }
    // The third operand is ready in this cycle too; the cycle ends before it.
    assert_eq!(polled(&log), vec![0, 1]);
}

#[test]
fn race_tags_each_output_type_with_its_position() {
    let log = Log::default();
    let mut cx = Context::from_waker(Waker::noop());
    let mut race =
        (script(0, 3, 1u8, &log), script(1, 3, String::from("two"), &log), script(2, 1, 3.0f64, &log))
            .race();

    assert!(matches!(race.poll(&mut cx), Poll::Pending));
    match race.poll(&mut cx) {
        Poll::Ready(Either3::Third(value)) => assert_eq!(value, 3.0),
        _ => panic!("the third operand should have won"),
    }
}

#[test]
fn race_same_tie_yields_the_output_of_the_operand_declared_first() {
    let log = Log::default();
    let mut cx = Context::from_waker(Waker::noop());
    let mut race = (script(0, 0, 5, &log), script(1, 0, 9, &log)).race_same();

    assert_eq!(race.poll(&mut cx), Poll::Ready(5));
    assert_eq!(polled(&log), vec![0]);
}

#[test]
fn race_same_yields_the_bare_output_of_a_later_winner() {
    let log = Log::default();
    let mut cx = Context::from_waker(Waker::noop());
    let mut race = (script(0, 4, 5, &log), script(1, 1, 9, &log), script(2, 2, 13, &log)).race_same();

    assert_eq!(race.poll(&mut cx), Poll::Pending);
    assert_eq!(polled(&log), vec![0, 1, 2]);
    assert_eq!(race.poll(&mut cx), Poll::Ready(9));
    assert_eq!(polled(&log), vec![0, 1]);
}

#[test]
fn race_same_accepts_operations_of_different_kinds_with_one_output() {
    let log = Log::default();
    let mut cx = Context::from_waker(Waker::noop());
    let pair = (script(0, 2, 1, &log), script(1, 1, 2, &log)).race_same();
    let mut race = (script(2, 3, 30, &log), pair).race_same();

    assert_eq!(race.poll(&mut cx), Poll::Pending);
    assert_eq!(polled(&log), vec![2, 0, 1]);
    assert_eq!(race.poll(&mut cx), Poll::Ready(2));
    assert_eq!(polled(&log), vec![2, 0, 1]);
}

#[test]
fn race_between_a_join_and_an_operation() {
    let log = Log::default();
    let mut cx = Context::from_waker(Waker::noop());
    let joined = (script(0, 1, 1, &log), script(1, 0, 2, &log)).join();
    let mut race = (joined, script(2, 3, 3, &log)).race();

    assert!(matches!(race.poll(&mut cx), Poll::Pending));
    assert_eq!(polled(&log), vec![0, 1, 2]);
    match race.poll(&mut cx) {
        Poll::Ready(Either::First(pair)) => assert_eq!(pair, (1, 2)),
        _ => panic!("the join should have won"),
    }
    assert_eq!(polled(&log), vec![0]);
}

#[test]
fn race_passes_a_failure_through_as_the_winning_output() {
    let log = Log::default();
    let mut cx = Context::from_waker(Waker::noop());
    let failed: Result<u32, &str> = Err("broken");
    let mut race = (script(0, 1, 7u32, &log), script(1, 0, failed, &log)).race();

    match race.poll(&mut cx) {
        Poll::Ready(Either::Second(value)) => assert_eq!(value, Err("broken")),
        _ => panic!("the second operand should have won"),
    }
}
