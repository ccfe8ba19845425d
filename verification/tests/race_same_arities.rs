use poll_combinators::operands::Winner;
use poll_combinators::operands::Winner::{Here, There};
use poll_combinators::{Operation, Poll, RaceSame};
use std::cell::RefCell;
use std::rc::Rc;
use std::task::{Context, Waker};

type Log = Rc<RefCell<Vec<usize>>>;

/// An operation that reports pending a given number of times and then its
/// value. It writes its id to the log whenever it is polled.
struct Script {
    id: usize,
    pending: usize,
    value: Option<usize>,
    log: Log,
}

fn script(id: usize, pending: usize, log: &Log) -> Script {
    Script { id, pending, value: Some(10 * id), log: log.clone() }
}

impl Operation for Script {
    type Output = usize;

    fn live(&self) -> bool {
        self.value.is_some()
    }

    fn poll(&mut self, _cx: &mut Context<'_>) -> Poll<usize> {
        self.log.borrow_mut().push(self.id);
        if self.pending > 0 {
            self.pending -= 1;
            return Poll::Pending;
        }
        match self.value.take() {
            Some(value) => Poll::Ready(value),
            None => panic!("operation {} was polled after it had finished", self.id),
        }
    }
}

fn polled(log: &Log) -> Vec<usize> {
    log.borrow_mut().drain(..).collect()
}

/// The operands before `winner` finish late; the winner and every operand
/// after it are ready in the second cycle, so that they tie.
fn delay(i: usize, winner: usize) -> usize {
    if i < winner {
        9
    } else {
        1
    }
}

type AllOfTwo = Winner<usize, usize>;

#[test]
fn untagged_of_two_keeps_the_output_of_every_place() {
    let won: AllOfTwo = Here(0);
    assert_eq!(won.untagged(), 0);
    let won: AllOfTwo = There(10);
    assert_eq!(won.untagged(), 10);
}

#[test]
fn race_same_of_two_yields_the_output_of_the_first_ready_operand() {
    for winner in 0..2 {
        let log = Log::default();
        let mut cx = Context::from_waker(Waker::noop());
        let mut race = (
            script(0, delay(0, winner), &log), script(1, delay(1, winner), &log),
        )
            .race_same();
        assert!(matches!(race.poll(&mut cx), Poll::Pending));
        assert_eq!(polled(&log), (0..2).collect::<Vec<usize>>());
        match race.poll(&mut cx) {
            Poll::Ready(output) => assert_eq!(output, 10 * winner),
            Poll::Pending => panic!("operand {} is ready", winner),
        }
        // The operands after the winner are ready as well, and are not polled.
        assert_eq!(polled(&log), (0..=winner).collect::<Vec<usize>>());
    }
}

type AllOfThree = Winner<usize, Winner<usize, usize>>;

#[test]
fn untagged_of_three_keeps_the_output_of_every_place() {
    let won: AllOfThree = Here(0);
    assert_eq!(won.untagged(), 0);
    let won: AllOfThree = There(Here(10));
    assert_eq!(won.untagged(), 10);
    let won: AllOfThree = There(There(20));
    assert_eq!(won.untagged(), 20);
}

#[test]
fn race_same_of_three_yields_the_output_of_the_first_ready_operand() {
    for winner in 0..3 {
        let log = Log::default();
        let mut cx = Context::from_waker(Waker::noop());
        let mut race = (
            script(0, delay(0, winner), &log), script(1, delay(1, winner), &log),
            script(2, delay(2, winner), &log),
        )
            .race_same();
        assert!(matches!(race.poll(&mut cx), Poll::Pending));
        assert_eq!(polled(&log), (0..3).collect::<Vec<usize>>());
        match race.poll(&mut cx) {
            Poll::Ready(output) => assert_eq!(output, 10 * winner),
            Poll::Pending => panic!("operand {} is ready", winner),
        }
        // The operands after the winner are ready as well, and are not polled.
        assert_eq!(polled(&log), (0..=winner).collect::<Vec<usize>>());
    }
}

type AllOfFour = Winner<usize, Winner<usize, Winner<usize, usize>>>;

#[test]
fn untagged_of_four_keeps_the_output_of_every_place() {
    let won: AllOfFour = Here(0);
    assert_eq!(won.untagged(), 0);
    let won: AllOfFour = There(Here(10));
    assert_eq!(won.untagged(), 10);
    let won: AllOfFour = There(There(Here(20)));
    assert_eq!(won.untagged(), 20);
    let won: AllOfFour = There(There(There(30)));
    assert_eq!(won.untagged(), 30);
}

#[test]
fn race_same_of_four_yields_the_output_of_the_first_ready_operand() {
    for winner in 0..4 {
        let log = Log::default();
        let mut cx = Context::from_waker(Waker::noop());
        let mut race = (
            script(0, delay(0, winner), &log), script(1, delay(1, winner), &log),
            script(2, delay(2, winner), &log), script(3, delay(3, winner), &log),
        )
            .race_same();
        assert!(matches!(race.poll(&mut cx), Poll::Pending));
        assert_eq!(polled(&log), (0..4).collect::<Vec<usize>>());
        match race.poll(&mut cx) {
            Poll::Ready(output) => assert_eq!(output, 10 * winner),
            Poll::Pending => panic!("operand {} is ready", winner),
        }
        // The operands after the winner are ready as well, and are not polled.
        assert_eq!(polled(&log), (0..=winner).collect::<Vec<usize>>());
    }
}

type AllOfFive = Winner<usize, Winner<usize, Winner<usize, Winner<usize, usize>>>>;

#[test]
fn untagged_of_five_keeps_the_output_of_every_place() {
    let won: AllOfFive = Here(0);
    assert_eq!(won.untagged(), 0);
    let won: AllOfFive = There(Here(10));
    assert_eq!(won.untagged(), 10);
    let won: AllOfFive = There(There(Here(20)));
    assert_eq!(won.untagged(), 20);
    let won: AllOfFive = There(There(There(Here(30))));
    assert_eq!(won.untagged(), 30);
    let won: AllOfFive = There(There(There(There(40))));
    assert_eq!(won.untagged(), 40);
}

#[test]
fn race_same_of_five_yields_the_output_of_the_first_ready_operand() {
    for winner in 0..5 {
        let log = Log::default();
        let mut cx = Context::from_waker(Waker::noop());
        let mut race = (
            script(0, delay(0, winner), &log), script(1, delay(1, winner), &log),
            script(2, delay(2, winner), &log), script(3, delay(3, winner), &log),
            script(4, delay(4, winner), &log),
        )
            .race_same();
        assert!(matches!(race.poll(&mut cx), Poll::Pending));
        assert_eq!(polled(&log), (0..5).collect::<Vec<usize>>());
        match race.poll(&mut cx) {
            Poll::Ready(output) => assert_eq!(output, 10 * winner),
            Poll::Pending => panic!("operand {} is ready", winner),
        }
        // The operands after the winner are ready as well, and are not polled.
        assert_eq!(polled(&log), (0..=winner).collect::<Vec<usize>>());
    }
}

type AllOfSix = Winner<usize, Winner<usize, Winner<usize, Winner<usize, Winner<usize, usize>>>>>;

#[test]
fn untagged_of_six_keeps_the_output_of_every_place() {
    let won: AllOfSix = Here(0);
    assert_eq!(won.untagged(), 0);
    let won: AllOfSix = There(Here(10));
    assert_eq!(won.untagged(), 10);
    let won: AllOfSix = There(There(Here(20)));
    assert_eq!(won.untagged(), 20);
    let won: AllOfSix = There(There(There(Here(30))));
    assert_eq!(won.untagged(), 30);
    let won: AllOfSix = There(There(There(There(Here(40)))));
    assert_eq!(won.untagged(), 40);
    let won: AllOfSix = There(There(There(There(There(50)))));
    assert_eq!(won.untagged(), 50);
}

#[test]
fn race_same_of_six_yields_the_output_of_the_first_ready_operand() {
    for winner in 0..6 {
        let log = Log::default();
        let mut cx = Context::from_waker(Waker::noop());
        let mut race = (
            script(0, delay(0, winner), &log), script(1, delay(1, winner), &log),
            script(2, delay(2, winner), &log), script(3, delay(3, winner), &log),
            script(4, delay(4, winner), &log), script(5, delay(5, winner), &log),
        )
            .race_same();
        assert!(matches!(race.poll(&mut cx), Poll::Pending));
        assert_eq!(polled(&log), (0..6).collect::<Vec<usize>>());
        match race.poll(&mut cx) {
            Poll::Ready(output) => assert_eq!(output, 10 * winner),
            Poll::Pending => panic!("operand {} is ready", winner),
        }
        // The operands after the winner are ready as well, and are not polled.
        assert_eq!(polled(&log), (0..=winner).collect::<Vec<usize>>());
    }
}

type AllOfSeven =
    Winner<usize, Winner<usize, Winner<usize, Winner<usize, Winner<usize, Winner<usize,
        usize>>>>>>;

#[test]
fn untagged_of_seven_keeps_the_output_of_every_place() {
    let won: AllOfSeven = Here(0);
    assert_eq!(won.untagged(), 0);
    let won: AllOfSeven = There(Here(10));
    assert_eq!(won.untagged(), 10);
    let won: AllOfSeven = There(There(Here(20)));
    assert_eq!(won.untagged(), 20);
    let won: AllOfSeven = There(There(There(Here(30))));
    assert_eq!(won.untagged(), 30);
    let won: AllOfSeven = There(There(There(There(Here(40)))));
    assert_eq!(won.untagged(), 40);
    let won: AllOfSeven = There(There(There(There(There(Here(50))))));
    assert_eq!(won.untagged(), 50);
    let won: AllOfSeven = There(There(There(There(There(There(60))))));
    assert_eq!(won.untagged(), 60);
}

#[test]
fn race_same_of_seven_yields_the_output_of_the_first_ready_operand() {
    for winner in 0..7 {
        let log = Log::default();
        let mut cx = Context::from_waker(Waker::noop());
        let mut race = (
            script(0, delay(0, winner), &log), script(1, delay(1, winner), &log),
            script(2, delay(2, winner), &log), script(3, delay(3, winner), &log),
            script(4, delay(4, winner), &log), script(5, delay(5, winner), &log),
            script(6, delay(6, winner), &log),
        )
            .race_same();
        assert!(matches!(race.poll(&mut cx), Poll::Pending));
        assert_eq!(polled(&log), (0..7).collect::<Vec<usize>>());
        match race.poll(&mut cx) {
            Poll::Ready(output) => assert_eq!(output, 10 * winner),
            Poll::Pending => panic!("operand {} is ready", winner),
        }
        // The operands after the winner are ready as well, and are not polled.
        assert_eq!(polled(&log), (0..=winner).collect::<Vec<usize>>());
    }
}

type AllOfEight =
    Winner<usize, Winner<usize, Winner<usize, Winner<usize, Winner<usize, Winner<usize,
        Winner<usize, usize>>>>>>>;

#[test]
fn untagged_of_eight_keeps_the_output_of_every_place() {
    let won: AllOfEight = Here(0);
    assert_eq!(won.untagged(), 0);
    let won: AllOfEight = There(Here(10));
    assert_eq!(won.untagged(), 10);
    let won: AllOfEight = There(There(Here(20)));
    assert_eq!(won.untagged(), 20);
    let won: AllOfEight = There(There(There(Here(30))));
    assert_eq!(won.untagged(), 30);
    let won: AllOfEight = There(There(There(There(Here(40)))));
    assert_eq!(won.untagged(), 40);
    let won: AllOfEight = There(There(There(There(There(Here(50))))));
    assert_eq!(won.untagged(), 50);
    let won: AllOfEight = There(There(There(There(There(There(Here(60)))))));
    assert_eq!(won.untagged(), 60);
    let won: AllOfEight = There(There(There(There(There(There(There(70)))))));
    assert_eq!(won.untagged(), 70);
}

#[test]
fn race_same_of_eight_yields_the_output_of_the_first_ready_operand() {
    for winner in 0..8 {
        let log = Log::default();
        let mut cx = Context::from_waker(Waker::noop());
        let mut race = (
            script(0, delay(0, winner), &log), script(1, delay(1, winner), &log),
            script(2, delay(2, winner), &log), script(3, delay(3, winner), &log),
            script(4, delay(4, winner), &log), script(5, delay(5, winner), &log),
            script(6, delay(6, winner), &log), script(7, delay(7, winner), &log),
        )
            .race_same();
        assert!(matches!(race.poll(&mut cx), Poll::Pending));
        assert_eq!(polled(&log), (0..8).collect::<Vec<usize>>());
        match race.poll(&mut cx) {
            Poll::Ready(output) => assert_eq!(output, 10 * winner),
            Poll::Pending => panic!("operand {} is ready", winner),
        }
        // The operands after the winner are ready as well, and are not polled.
        assert_eq!(polled(&log), (0..=winner).collect::<Vec<usize>>());
    }
}

type AllOfNine =
    Winner<usize, Winner<usize, Winner<usize, Winner<usize, Winner<usize, Winner<usize,
        Winner<usize, Winner<usize, usize>>>>>>>>;

#[test]
fn untagged_of_nine_keeps_the_output_of_every_place() {
    let won: AllOfNine = Here(0);
    assert_eq!(won.untagged(), 0);
    let won: AllOfNine = There(Here(10));
    assert_eq!(won.untagged(), 10);
    let won: AllOfNine = There(There(Here(20)));
    assert_eq!(won.untagged(), 20);
    let won: AllOfNine = There(There(There(Here(30))));
    assert_eq!(won.untagged(), 30);
    let won: AllOfNine = There(There(There(There(Here(40)))));
    assert_eq!(won.untagged(), 40);
    let won: AllOfNine = There(There(There(There(There(Here(50))))));
    assert_eq!(won.untagged(), 50);
    let won: AllOfNine = There(There(There(There(There(There(Here(60)))))));
    assert_eq!(won.untagged(), 60);
    let won: AllOfNine = There(There(There(There(There(There(There(Here(70))))))));
    assert_eq!(won.untagged(), 70);
    let won: AllOfNine = There(There(There(There(There(There(There(There(80))))))));
    assert_eq!(won.untagged(), 80);
}

#[test]
fn race_same_of_nine_yields_the_output_of_the_first_ready_operand() {
    for winner in 0..9 {
        let log = Log::default();
        let mut cx = Context::from_waker(Waker::noop());
        let mut race = (
            script(0, delay(0, winner), &log), script(1, delay(1, winner), &log),
            script(2, delay(2, winner), &log), script(3, delay(3, winner), &log),
            script(4, delay(4, winner), &log), script(5, delay(5, winner), &log),
            script(6, delay(6, winner), &log), script(7, delay(7, winner), &log),
            script(8, delay(8, winner), &log),
        )
            .race_same();
        assert!(matches!(race.poll(&mut cx), Poll::Pending));
        assert_eq!(polled(&log), (0..9).collect::<Vec<usize>>());
        match race.poll(&mut cx) {
            Poll::Ready(output) => assert_eq!(output, 10 * winner),
            Poll::Pending => panic!("operand {} is ready", winner),
        }
        // The operands after the winner are ready as well, and are not polled.
        assert_eq!(polled(&log), (0..=winner).collect::<Vec<usize>>());
    }
}

type AllOfTen =
    Winner<usize, Winner<usize, Winner<usize, Winner<usize, Winner<usize, Winner<usize,
        Winner<usize, Winner<usize, Winner<usize, usize>>>>>>>>>;

#[test]
fn untagged_of_ten_keeps_the_output_of_every_place() {
    let won: AllOfTen = Here(0);
    assert_eq!(won.untagged(), 0);
    let won: AllOfTen = There(Here(10));
    assert_eq!(won.untagged(), 10);
    let won: AllOfTen = There(There(Here(20)));
    assert_eq!(won.untagged(), 20);
    let won: AllOfTen = There(There(There(Here(30))));
    assert_eq!(won.untagged(), 30);
    let won: AllOfTen = There(There(There(There(Here(40)))));
    assert_eq!(won.untagged(), 40);
    let won: AllOfTen = There(There(There(There(There(Here(50))))));
    assert_eq!(won.untagged(), 50);
    let won: AllOfTen = There(There(There(There(There(There(Here(60)))))));
    assert_eq!(won.untagged(), 60);
    let won: AllOfTen = There(There(There(There(There(There(There(Here(70))))))));
    assert_eq!(won.untagged(), 70);
    let won: AllOfTen = There(There(There(There(There(There(There(There(Here(80)))))))));
    assert_eq!(won.untagged(), 80);
    let won: AllOfTen = There(There(There(There(There(There(There(There(There(90)))))))));
    assert_eq!(won.untagged(), 90);
}

#[test]
fn race_same_of_ten_yields_the_output_of_the_first_ready_operand() {
    for winner in 0..10 {
        let log = Log::default();
        let mut cx = Context::from_waker(Waker::noop());
        let mut race = (
            script(0, delay(0, winner), &log), script(1, delay(1, winner), &log),
            script(2, delay(2, winner), &log), script(3, delay(3, winner), &log),
            script(4, delay(4, winner), &log), script(5, delay(5, winner), &log),
            script(6, delay(6, winner), &log), script(7, delay(7, winner), &log),
            script(8, delay(8, winner), &log), script(9, delay(9, winner), &log),
        )
            .race_same();
        assert!(matches!(race.poll(&mut cx), Poll::Pending));
        assert_eq!(polled(&log), (0..10).collect::<Vec<usize>>());
        match race.poll(&mut cx) {
            Poll::Ready(output) => assert_eq!(output, 10 * winner),
            Poll::Pending => panic!("operand {} is ready", winner),
        }
        // The operands after the winner are ready as well, and are not polled.
        assert_eq!(polled(&log), (0..=winner).collect::<Vec<usize>>());
    }
}

type AllOfEleven =
    Winner<usize, Winner<usize, Winner<usize, Winner<usize, Winner<usize, Winner<usize,
        Winner<usize, Winner<usize, Winner<usize, Winner<usize, usize>>>>>>>>>>;

#[test]
fn untagged_of_eleven_keeps_the_output_of_every_place() {
    let won: AllOfEleven = Here(0);
    assert_eq!(won.untagged(), 0);
    let won: AllOfEleven = There(Here(10));
    assert_eq!(won.untagged(), 10);
    let won: AllOfEleven = There(There(Here(20)));
    assert_eq!(won.untagged(), 20);
    let won: AllOfEleven = There(There(There(Here(30))));
    assert_eq!(won.untagged(), 30);
    let won: AllOfEleven = There(There(There(There(Here(40)))));
    assert_eq!(won.untagged(), 40);
    let won: AllOfEleven = There(There(There(There(There(Here(50))))));
    assert_eq!(won.untagged(), 50);
    let won: AllOfEleven = There(There(There(There(There(There(Here(60)))))));
    assert_eq!(won.untagged(), 60);
    let won: AllOfEleven = There(There(There(There(There(There(There(Here(70))))))));
    assert_eq!(won.untagged(), 70);
    let won: AllOfEleven = There(There(There(There(There(There(There(There(Here(80)))))))));
    assert_eq!(won.untagged(), 80);
    let won: AllOfEleven = There(There(There(There(There(There(There(There(There(Here(90))))))))));
    assert_eq!(won.untagged(), 90);
    let won: AllOfEleven =
        There(There(There(There(There(There(There(There(There(There(100))))))))));
    assert_eq!(won.untagged(), 100);
}

#[test]
fn race_same_of_eleven_yields_the_output_of_the_first_ready_operand() {
    for winner in 0..11 {
        let log = Log::default();
        let mut cx = Context::from_waker(Waker::noop());
        let mut race = (
            script(0, delay(0, winner), &log), script(1, delay(1, winner), &log),
            script(2, delay(2, winner), &log), script(3, delay(3, winner), &log),
            script(4, delay(4, winner), &log), script(5, delay(5, winner), &log),
            script(6, delay(6, winner), &log), script(7, delay(7, winner), &log),
            script(8, delay(8, winner), &log), script(9, delay(9, winner), &log),
            script(10, delay(10, winner), &log),
        )
            .race_same();
        assert!(matches!(race.poll(&mut cx), Poll::Pending));
        assert_eq!(polled(&log), (0..11).collect::<Vec<usize>>());
        match race.poll(&mut cx) {
            Poll::Ready(output) => assert_eq!(output, 10 * winner),
            Poll::Pending => panic!("operand {} is ready", winner),
        }
        // The operands after the winner are ready as well, and are not polled.
        assert_eq!(polled(&log), (0..=winner).collect::<Vec<usize>>());
    }
}

type AllOfTwelve =
    Winner<usize, Winner<usize, Winner<usize, Winner<usize, Winner<usize, Winner<usize,
        Winner<usize, Winner<usize, Winner<usize, Winner<usize, Winner<usize, usize>>>>>>>>>>>;

#[test]
fn untagged_of_twelve_keeps_the_output_of_every_place() {
    let won: AllOfTwelve = Here(0);
    assert_eq!(won.untagged(), 0);
    let won: AllOfTwelve = There(Here(10));
    assert_eq!(won.untagged(), 10);
    let won: AllOfTwelve = There(There(Here(20)));
    assert_eq!(won.untagged(), 20);
    let won: AllOfTwelve = There(There(There(Here(30))));
    assert_eq!(won.untagged(), 30);
    let won: AllOfTwelve = There(There(There(There(Here(40)))));
    assert_eq!(won.untagged(), 40);
    let won: AllOfTwelve = There(There(There(There(There(Here(50))))));
    assert_eq!(won.untagged(), 50);
    let won: AllOfTwelve = There(There(There(There(There(There(Here(60)))))));
    assert_eq!(won.untagged(), 60);
    let won: AllOfTwelve = There(There(There(There(There(There(There(Here(70))))))));
    assert_eq!(won.untagged(), 70);
    let won: AllOfTwelve = There(There(There(There(There(There(There(There(Here(80)))))))));
    assert_eq!(won.untagged(), 80);
    let won: AllOfTwelve = There(There(There(There(There(There(There(There(There(Here(90))))))))));
    assert_eq!(won.untagged(), 90);
    let won: AllOfTwelve =
        There(There(There(There(There(There(There(There(There(There(Here(100)))))))))));
    assert_eq!(won.untagged(), 100);
    let won: AllOfTwelve =
        There(There(There(There(There(There(There(There(There(There(There(110)))))))))));
    assert_eq!(won.untagged(), 110);
}

#[test]
fn race_same_of_twelve_yields_the_output_of_the_first_ready_operand() {
    for winner in 0..12 {
        let log = Log::default();
        let mut cx = Context::from_waker(Waker::noop());
        let mut race = (
            script(0, delay(0, winner), &log), script(1, delay(1, winner), &log),
            script(2, delay(2, winner), &log), script(3, delay(3, winner), &log),
            script(4, delay(4, winner), &log), script(5, delay(5, winner), &log),
            script(6, delay(6, winner), &log), script(7, delay(7, winner), &log),
            script(8, delay(8, winner), &log), script(9, delay(9, winner), &log),
            script(10, delay(10, winner), &log), script(11, delay(11, winner), &log),
        )
            .race_same();
        assert!(matches!(race.poll(&mut cx), Poll::Pending));
        assert_eq!(polled(&log), (0..12).collect::<Vec<usize>>());
        match race.poll(&mut cx) {
            Poll::Ready(output) => assert_eq!(output, 10 * winner),
            Poll::Pending => panic!("operand {} is ready", winner),
        }
        // The operands after the winner are ready as well, and are not polled.
        assert_eq!(polled(&log), (0..=winner).collect::<Vec<usize>>());
    }
}

type AllOfThirteen =
    Winner<usize, Winner<usize, Winner<usize, Winner<usize, Winner<usize, Winner<usize,
        Winner<usize, Winner<usize, Winner<usize, Winner<usize, Winner<usize, Winner<usize,
        usize>>>>>>>>>>>>;

#[test]
fn untagged_of_thirteen_keeps_the_output_of_every_place() {
    let won: AllOfThirteen = Here(0);
    assert_eq!(won.untagged(), 0);
    let won: AllOfThirteen = There(Here(10));
    assert_eq!(won.untagged(), 10);
    let won: AllOfThirteen = There(There(Here(20)));
    assert_eq!(won.untagged(), 20);
    let won: AllOfThirteen = There(There(There(Here(30))));
    assert_eq!(won.untagged(), 30);
    let won: AllOfThirteen = There(There(There(There(Here(40)))));
    assert_eq!(won.untagged(), 40);
    let won: AllOfThirteen = There(There(There(There(There(Here(50))))));
    assert_eq!(won.untagged(), 50);
    let won: AllOfThirteen = There(There(There(There(There(There(Here(60)))))));
    assert_eq!(won.untagged(), 60);
    let won: AllOfThirteen = There(There(There(There(There(There(There(Here(70))))))));
    assert_eq!(won.untagged(), 70);
    let won: AllOfThirteen = There(There(There(There(There(There(There(There(Here(80)))))))));
    assert_eq!(won.untagged(), 80);
    let won: AllOfThirteen =
        There(There(There(There(There(There(There(There(There(Here(90))))))))));
    assert_eq!(won.untagged(), 90);
    let won: AllOfThirteen =
        There(There(There(There(There(There(There(There(There(There(Here(100)))))))))));
    assert_eq!(won.untagged(), 100);
    let won: AllOfThirteen =
        There(There(There(There(There(There(There(There(There(There(There(Here(110))))))))))));
    assert_eq!(won.untagged(), 110);
    let won: AllOfThirteen =
        There(There(There(There(There(There(There(There(There(There(There(There(120))))))))))));
    assert_eq!(won.untagged(), 120);
}

#[test]
fn race_same_of_thirteen_yields_the_output_of_the_first_ready_operand() {
    for winner in 0..13 {
        let log = Log::default();
        let mut cx = Context::from_waker(Waker::noop());
        let mut race = (
            script(0, delay(0, winner), &log), script(1, delay(1, winner), &log),
            script(2, delay(2, winner), &log), script(3, delay(3, winner), &log),
            script(4, delay(4, winner), &log), script(5, delay(5, winner), &log),
            script(6, delay(6, winner), &log), script(7, delay(7, winner), &log),
            script(8, delay(8, winner), &log), script(9, delay(9, winner), &log),
            script(10, delay(10, winner), &log), script(11, delay(11, winner), &log),
            script(12, delay(12, winner), &log),
        )
            .race_same();
        assert!(matches!(race.poll(&mut cx), Poll::Pending));
        assert_eq!(polled(&log), (0..13).collect::<Vec<usize>>());
        match race.poll(&mut cx) {
            Poll::Ready(output) => assert_eq!(output, 10 * winner),
            Poll::Pending => panic!("operand {} is ready", winner),
        }
        // The operands after the winner are ready as well, and are not polled.
        assert_eq!(polled(&log), (0..=winner).collect::<Vec<usize>>());
    }
}

type AllOfFourteen =
    Winner<usize, Winner<usize, Winner<usize, Winner<usize, Winner<usize, Winner<usize,
        Winner<usize, Winner<usize, Winner<usize, Winner<usize, Winner<usize, Winner<usize,
        Winner<usize, usize>>>>>>>>>>>>>;

#[test]
fn untagged_of_fourteen_keeps_the_output_of_every_place() {
    let won: AllOfFourteen = Here(0);
    assert_eq!(won.untagged(), 0);
    let won: AllOfFourteen = There(Here(10));
    assert_eq!(won.untagged(), 10);
    let won: AllOfFourteen = There(There(Here(20)));
    assert_eq!(won.untagged(), 20);
    let won: AllOfFourteen = There(There(There(Here(30))));
    assert_eq!(won.untagged(), 30);
    let won: AllOfFourteen = There(There(There(There(Here(40)))));
    assert_eq!(won.untagged(), 40);
    let won: AllOfFourteen = There(There(There(There(There(Here(50))))));
    assert_eq!(won.untagged(), 50);
    let won: AllOfFourteen = There(There(There(There(There(There(Here(60)))))));
    assert_eq!(won.untagged(), 60);
    let won: AllOfFourteen = There(There(There(There(There(There(There(Here(70))))))));
    assert_eq!(won.untagged(), 70);
    let won: AllOfFourteen = There(There(There(There(There(There(There(There(Here(80)))))))));
    assert_eq!(won.untagged(), 80);
    let won: AllOfFourteen =
        There(There(There(There(There(There(There(There(There(Here(90))))))))));
    assert_eq!(won.untagged(), 90);
    let won: AllOfFourteen =
        There(There(There(There(There(There(There(There(There(There(Here(100)))))))))));
    assert_eq!(won.untagged(), 100);
    let won: AllOfFourteen =
        There(There(There(There(There(There(There(There(There(There(There(Here(110))))))))))));
    assert_eq!(won.untagged(), 110);
    let won: AllOfFourteen =
        There(There(There(There(There(There(There(There(There(There(There(There(Here(120)))))))))))));
    assert_eq!(won.untagged(), 120);
    let won: AllOfFourteen =
        There(There(There(There(There(There(There(There(There(There(There(There(There(130)))))))))))));
    assert_eq!(won.untagged(), 130);
}

#[test]
fn race_same_of_fourteen_yields_the_output_of_the_first_ready_operand() {
    for winner in 0..14 {
        let log = Log::default();
        let mut cx = Context::from_waker(Waker::noop());
        let mut race = (
            script(0, delay(0, winner), &log), script(1, delay(1, winner), &log),
            script(2, delay(2, winner), &log), script(3, delay(3, winner), &log),
            script(4, delay(4, winner), &log), script(5, delay(5, winner), &log),
            script(6, delay(6, winner), &log), script(7, delay(7, winner), &log),
            script(8, delay(8, winner), &log), script(9, delay(9, winner), &log),
            script(10, delay(10, winner), &log), script(11, delay(11, winner), &log),
            script(12, delay(12, winner), &log), script(13, delay(13, winner), &log),
        )
            .race_same();
        assert!(matches!(race.poll(&mut cx), Poll::Pending));
        assert_eq!(polled(&log), (0..14).collect::<Vec<usize>>());
        match race.poll(&mut cx) {
            Poll::Ready(output) => assert_eq!(output, 10 * winner),
            Poll::Pending => panic!("operand {} is ready", winner),
        }
        // The operands after the winner are ready as well, and are not polled.
        assert_eq!(polled(&log), (0..=winner).collect::<Vec<usize>>());
    }
}

type AllOfFifteen =
    Winner<usize, Winner<usize, Winner<usize, Winner<usize, Winner<usize, Winner<usize,
        Winner<usize, Winner<usize, Winner<usize, Winner<usize, Winner<usize, Winner<usize,
        Winner<usize, Winner<usize, usize>>>>>>>>>>>>>>;

#[test]
fn untagged_of_fifteen_keeps_the_output_of_every_place() {
    let won: AllOfFifteen = Here(0);
    assert_eq!(won.untagged(), 0);
    let won: AllOfFifteen = There(Here(10));
    assert_eq!(won.untagged(), 10);
    let won: AllOfFifteen = There(There(Here(20)));
    assert_eq!(won.untagged(), 20);
    let won: AllOfFifteen = There(There(There(Here(30))));
    assert_eq!(won.untagged(), 30);
    let won: AllOfFifteen = There(There(There(There(Here(40)))));
    assert_eq!(won.untagged(), 40);
    let won: AllOfFifteen = There(There(There(There(There(Here(50))))));
    assert_eq!(won.untagged(), 50);
    let won: AllOfFifteen = There(There(There(There(There(There(Here(60)))))));
    assert_eq!(won.untagged(), 60);
    let won: AllOfFifteen = There(There(There(There(There(There(There(Here(70))))))));
    assert_eq!(won.untagged(), 70);
    let won: AllOfFifteen = There(There(There(There(There(There(There(There(Here(80)))))))));
    assert_eq!(won.untagged(), 80);
    let won: AllOfFifteen = There(There(There(There(There(There(There(There(There(Here(90))))))))));
    assert_eq!(won.untagged(), 90);
    let won: AllOfFifteen =
        There(There(There(There(There(There(There(There(There(There(Here(100)))))))))));
    assert_eq!(won.untagged(), 100);
    let won: AllOfFifteen =
        There(There(There(There(There(There(There(There(There(There(There(Here(110))))))))))));
    assert_eq!(won.untagged(), 110);
    let won: AllOfFifteen =
        There(There(There(There(There(There(There(There(There(There(There(There(Here(120)))))))))))));
    assert_eq!(won.untagged(), 120);
    let won: AllOfFifteen =
        There(There(There(There(There(There(There(There(There(There(There(There(There(Here(130))))))))))))));
    assert_eq!(won.untagged(), 130);
    let won: AllOfFifteen =
        There(There(There(There(There(There(There(There(There(There(There(There(There(There(140))))))))))))));
    assert_eq!(won.untagged(), 140);
}

#[test]
fn race_same_of_fifteen_yields_the_output_of_the_first_ready_operand() {
    for winner in 0..15 {
        let log = Log::default();
        let mut cx = Context::from_waker(Waker::noop());
        let mut race = (
            script(0, delay(0, winner), &log), script(1, delay(1, winner), &log),
            script(2, delay(2, winner), &log), script(3, delay(3, winner), &log),
            script(4, delay(4, winner), &log), script(5, delay(5, winner), &log),
            script(6, delay(6, winner), &log), script(7, delay(7, winner), &log),
            script(8, delay(8, winner), &log), script(9, delay(9, winner), &log),
            script(10, delay(10, winner), &log), script(11, delay(11, winner), &log),
            script(12, delay(12, winner), &log), script(13, delay(13, winner), &log),
            script(14, delay(14, winner), &log),
        )
            .race_same();
        assert!(matches!(race.poll(&mut cx), Poll::Pending));
        assert_eq!(polled(&log), (0..15).collect::<Vec<usize>>());
        match race.poll(&mut cx) {
            Poll::Ready(output) => assert_eq!(output, 10 * winner),
            Poll::Pending => panic!("operand {} is ready", winner),
        }
        // The operands after the winner are ready as well, and are not polled.
        assert_eq!(polled(&log), (0..=winner).collect::<Vec<usize>>());
    }
}

type AllOfSixteen =
    Winner<usize, Winner<usize, Winner<usize, Winner<usize, Winner<usize, Winner<usize,
        Winner<usize, Winner<usize, Winner<usize, Winner<usize, Winner<usize, Winner<usize,
        Winner<usize, Winner<usize, Winner<usize, usize>>>>>>>>>>>>>>>;

#[test]
fn untagged_of_sixteen_keeps_the_output_of_every_place() {
    let won: AllOfSixteen = Here(0);
    assert_eq!(won.untagged(), 0);
    let won: AllOfSixteen = There(Here(10));
    assert_eq!(won.untagged(), 10);
    let won: AllOfSixteen = There(There(Here(20)));
    assert_eq!(won.untagged(), 20);
    let won: AllOfSixteen = There(There(There(Here(30))));
    assert_eq!(won.untagged(), 30);
    let won: AllOfSixteen = There(There(There(There(Here(40)))));
    assert_eq!(won.untagged(), 40);
    let won: AllOfSixteen = There(There(There(There(There(Here(50))))));
    assert_eq!(won.untagged(), 50);
    let won: AllOfSixteen = There(There(There(There(There(There(Here(60)))))));
    assert_eq!(won.untagged(), 60);
    let won: AllOfSixteen = There(There(There(There(There(There(There(Here(70))))))));
    assert_eq!(won.untagged(), 70);
    let won: AllOfSixteen = There(There(There(There(There(There(There(There(Here(80)))))))));
    assert_eq!(won.untagged(), 80);
    let won: AllOfSixteen = There(There(There(There(There(There(There(There(There(Here(90))))))))));
    assert_eq!(won.untagged(), 90);
    let won: AllOfSixteen =
        There(There(There(There(There(There(There(There(There(There(Here(100)))))))))));
    assert_eq!(won.untagged(), 100);
    let won: AllOfSixteen =
        There(There(There(There(There(There(There(There(There(There(There(Here(110))))))))))));
    assert_eq!(won.untagged(), 110);
    let won: AllOfSixteen =
        There(There(There(There(There(There(There(There(There(There(There(There(Here(120)))))))))))));
    assert_eq!(won.untagged(), 120);
    let won: AllOfSixteen =
        There(There(There(There(There(There(There(There(There(There(There(There(There(Here(130))))))))))))));
    assert_eq!(won.untagged(), 130);
    let won: AllOfSixteen =
        There(There(There(There(There(There(There(There(There(There(There(There(There(There(Here(140)))))))))))))));
    assert_eq!(won.untagged(), 140);
    let won: AllOfSixteen =
        There(There(There(There(There(There(There(There(There(There(There(There(There(There(There(150)))))))))))))));
    assert_eq!(won.untagged(), 150);
}

#[test]
fn race_same_of_sixteen_yields_the_output_of_the_first_ready_operand() {
    for winner in 0..16 {
        let log = Log::default();
        let mut cx = Context::from_waker(Waker::noop());
        let mut race = (
            script(0, delay(0, winner), &log), script(1, delay(1, winner), &log),
            script(2, delay(2, winner), &log), script(3, delay(3, winner), &log),
            script(4, delay(4, winner), &log), script(5, delay(5, winner), &log),
            script(6, delay(6, winner), &log), script(7, delay(7, winner), &log),
            script(8, delay(8, winner), &log), script(9, delay(9, winner), &log),
            script(10, delay(10, winner), &log), script(11, delay(11, winner), &log),
            script(12, delay(12, winner), &log), script(13, delay(13, winner), &log),
            script(14, delay(14, winner), &log), script(15, delay(15, winner), &log),
        )
            .race_same();
        assert!(matches!(race.poll(&mut cx), Poll::Pending));
        assert_eq!(polled(&log), (0..16).collect::<Vec<usize>>());
        match race.poll(&mut cx) {
            Poll::Ready(output) => assert_eq!(output, 10 * winner),
            Poll::Pending => panic!("operand {} is ready", winner),
        }
        // The operands after the winner are ready as well, and are not polled.
        assert_eq!(polled(&log), (0..=winner).collect::<Vec<usize>>());
    }
}
