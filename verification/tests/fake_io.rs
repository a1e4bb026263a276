use std::marker::PhantomPinned;
use std::pin::Pin;
use std::sync::atomic::Ordering;
use std::time::Duration;

use toy_runtime::fake_io::{poll_outcome, FakeIO, FakePoll};

#[derive(Debug)]
struct Unmovable {
    pub data: i32,
    _pin: PhantomPinned,
}

impl Unmovable {
    fn new(data: i32) -> Self {
        Self {
            data,
            _pin: PhantomPinned,
        }
    }

    pub fn change(mut self: Pin<&mut Self>, data: i32) {
        self.set(Unmovable::new(data));
    }
}

#[test]
fn fake_io_test() {
    let val = Unmovable::new(42);
    let mut pin = Box::pin(val);
    pin.as_mut().change(43);

    println!("pin: {:#?}", pin);
    assert_eq!(pin.data, 43);
}

#[test]
fn fake_io_keeps_its_duration() {
    let io = FakeIO::new(Duration::from_secs(3));
    assert_eq!(io.duration(), Duration::from_secs(3));
}

#[test]
fn fake_io_is_pending_before_the_timer_runs_out() {
    let io = FakeIO::new(Duration::from_millis(5));
    assert!(matches!(io.poll_state(), FakePoll::Pending));
}

#[test]
fn fake_io_is_ready_with_its_duration_once_finished() {
    let io = FakeIO::new(Duration::from_millis(7));
    io.finished_flag().store(true, Ordering::Release);
    match io.poll_state() {
        FakePoll::Ready(d) => assert_eq!(d, Duration::from_millis(7)),
        FakePoll::Pending => panic!("a finished operation must be ready"),
    }
}

#[test]
fn fake_io_flag_is_shared() {
    let io = FakeIO::new(Duration::from_secs(1));
    let a = io.finished_flag();
    let b = io.finished_flag();
    a.store(true, Ordering::Release);
    assert!(b.load(Ordering::Acquire));
}

#[test]
fn poll_outcome_decides_by_the_flag() {
    match poll_outcome(true, Duration::from_secs(2)) {
        FakePoll::Ready(d) => assert_eq!(d, Duration::from_secs(2)),
        FakePoll::Pending => panic!("expected ready"),
    }
    assert!(matches!(poll_outcome(false, Duration::from_secs(2)), FakePoll::Pending));
}

#[test]
fn poll_with_flag_reports_the_flag_it_read() {
    let io = FakeIO::new(Duration::from_millis(9));
    let (flag, outcome) = io.poll_with_flag();
    assert!(!flag);
    assert!(matches!(outcome, FakePoll::Pending));
    io.finished_flag().store(true, Ordering::Release);
    match io.poll_with_flag() {
        (true, FakePoll::Ready(d)) => assert_eq!(d, Duration::from_millis(9)),
        _ => panic!("a set flag must give a ready poll"),
    }
}
