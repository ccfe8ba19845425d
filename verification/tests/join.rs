use poll_combinators::{Join, Operation, Poll};
use std::cell::RefCell;
use std::rc::Rc;
use std::task::{Context, Waker};

type Log = Rc<RefCell<Vec<usize>>>;

/// An operation that reports pending a given number of times and then its
/// value. It writes its id to the log whenever it is polled.
struct Script<T> {
    id: usize,
    pending: u32,
    value: Option<T>,
    log: Log,
}

fn script<T>(id: usize, pending: u32, value: T, log: &Log) -> Script<T> {
    Script { id, pending, value: Some(value), log: log.clone() }
}

impl<T> Operation for Script<T> {
    type Output = T;

    fn live(&self) -> bool {
        self.value.is_some()
    }

    fn poll(&mut self, _cx: &mut Context<'_>) -> Poll<T> {
        self.log.borrow_mut().push(self.id);
        if self.pending > 0 {
            self.pending -= 1;
            return Poll::Pending;
        }
        match self.value.take() {
            Some(value) => Poll::Ready(value),
            None => panic!("operation {} was polled after it had finished", self.id),
        }
    }
}

fn polled(log: &Log) -> Vec<usize> {
    log.borrow_mut().drain(..).collect()
}

#[test]
fn join_waits_for_the_slower_of_two() {
    let log = Log::default();
    let mut cx = Context::from_waker(Waker::noop());
    let mut joined = (script(0, 1, 1, &log), script(1, 0, 2, &log)).join();

    assert_eq!(joined.poll(&mut cx), Poll::Pending);
    assert_eq!(polled(&log), vec![0, 1]);

    assert_eq!(joined.poll(&mut cx), Poll::Ready((1, 2)));
    assert_eq!(polled(&log), vec![0]);
}

#[test]
fn join_of_three_ready_operands_finishes_in_one_cycle() {
    let log = Log::default();
    let mut cx = Context::from_waker(Waker::noop());
    let mut joined = (script(0, 0, 1, &log), script(1, 0, 2, &log), script(2, 0, 3, &log)).join();

    assert_eq!(joined.poll(&mut cx), Poll::Ready((1, 2, 3)));
    assert_eq!(polled(&log), vec![0, 1, 2]);
}

#[test]
fn join_output_follows_declared_order_not_completion_order() {
    // Every order in which three operands can finish, by the cycle in which
    // each of them does.
    let delays: [[u32; 3]; 6] =
        [[0, 1, 2], [0, 2, 1], [1, 0, 2], [1, 2, 0], [2, 0, 1], [2, 1, 0]];
    for delay in delays {
        let log = Log::default();
        let mut cx = Context::from_waker(Waker::noop());
        let mut joined = (
            script(0, delay[0], 'a', &log),
            script(1, delay[1], 'b', &log),
            script(2, delay[2], 'c', &log),
        )
            .join();
        assert_eq!(joined.poll(&mut cx), Poll::Pending);
        assert_eq!(joined.poll(&mut cx), Poll::Pending);
        assert_eq!(joined.poll(&mut cx), Poll::Ready(('a', 'b', 'c')));
    }
}

#[test]
fn join_is_ready_in_the_cycle_in_which_the_last_operand_reports() {
    for last in 0..4u32 {
        for other in 0..=last {
            let log = Log::default();
            let mut cx = Context::from_waker(Waker::noop());
            let mut joined = (script(0, other, 7, &log), script(1, last, 8, &log)).join();
            for _ in 0..last {
                assert_eq!(joined.poll(&mut cx), Poll::Pending);
            }
            assert_eq!(joined.poll(&mut cx), Poll::Ready((7, 8)));
        }
    }
}

#[test]
fn join_polls_every_unfinished_operand_in_every_cycle() {
    let log = Log::default();
    let mut cx = Context::from_waker(Waker::noop());
    let mut joined =
        (script(0, 2, 0, &log), script(1, 0, 1, &log), script(2, 3, 2, &log), script(3, 1, 3, &log))
            .join();

    // The second operand finishes at once; the others are polled all the same.
    assert_eq!(joined.poll(&mut cx), Poll::Pending);
    assert_eq!(polled(&log), vec![0, 1, 2, 3]);
    // A finished operand is not polled again.
    assert_eq!(joined.poll(&mut cx), Poll::Pending);
    assert_eq!(polled(&log), vec![0, 2, 3]);
    assert_eq!(joined.poll(&mut cx), Poll::Pending);
    assert_eq!(polled(&log), vec![0, 2]);
    assert_eq!(joined.poll(&mut cx), Poll::Ready((0, 1, 2, 3)));
    assert_eq!(polled(&log), vec![2]);
}

#[test]
fn join_keeps_each_output_type_in_its_position() {
    let log = Log::default();
    let mut cx = Context::from_waker(Waker::noop());
    let mut joined = (
        script(0, 1, 42u8, &log),
        script(1, 0, String::from("done"), &log),
        script(2, 2, Some(-3i64), &log),
    )
        .join();

    assert_eq!(joined.poll(&mut cx), Poll::Pending);
    assert_eq!(joined.poll(&mut cx), Poll::Pending);
    assert_eq!(joined.poll(&mut cx), Poll::Ready((42u8, String::from("done"), Some(-3i64))));
}

#[test]
fn join_passes_failures_through_as_outputs() {
    let log = Log::default();
    let mut cx = Context::from_waker(Waker::noop());
    let failed: Result<u32, &str> = Err("broken");
    let fine: Result<u32, &str> = Ok(5);
    let mut joined = (script(0, 0, failed, &log), script(1, 1, fine, &log)).join();

    // The failure of the first operand does not cut the join short.
    assert_eq!(joined.poll(&mut cx), Poll::Pending);
    assert_eq!(joined.poll(&mut cx), Poll::Ready((Err("broken"), Ok(5))));
    assert_eq!(polled(&log), vec![0, 1, 1]);
}

#[test]
fn join_of_joins_is_an_operation_itself() {
    let log = Log::default();
    let mut cx = Context::from_waker(Waker::noop());
    let inner = (script(0, 1, 1, &log), script(1, 0, 2, &log)).join();
    let mut outer = (inner, script(2, 2, 3, &log)).join();

    assert_eq!(outer.poll(&mut cx), Poll::Pending);
    assert_eq!(polled(&log), vec![0, 1, 2]);
    assert_eq!(outer.poll(&mut cx), Poll::Pending);
    assert_eq!(polled(&log), vec![0, 2]);
    assert_eq!(outer.poll(&mut cx), Poll::Ready(((1, 2), 3)));
    assert_eq!(polled(&log), vec![2]);
}
