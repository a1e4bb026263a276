use toy_runtime::task_state::{PollEnd, PollStart, State};

fn st(running: bool, notified: bool, completed: bool) -> State {
    State { running, notified, completed }
}

#[test]
fn new_task_is_idle() {
    assert_eq!(State::new(), st(false, false, false));
    assert_eq!(State::default(), st(false, false, false));
}

#[test]
fn first_delivery_runs_the_task() {
    let mut s = State::new();
    assert_eq!(s.begin_poll(), PollStart::Run);
    assert_eq!(s, st(true, false, false));
}

#[test]
fn delivery_while_running_is_deferred_and_recorded() {
    let mut s = st(true, false, false);
    assert_eq!(s.begin_poll(), PollStart::Deferred);
    assert_eq!(s, st(true, true, false));
    assert_eq!(s.begin_poll(), PollStart::Deferred);
    assert_eq!(s, st(true, true, false));
}

#[test]
fn delivery_after_completion_is_dropped() {
    let mut s = st(false, false, true);
    assert_eq!(s.begin_poll(), PollStart::AlreadyCompleted);
    assert_eq!(s, st(false, false, true));
}

#[test]
fn ready_poll_completes_the_task() {
    let mut s = st(true, true, false);
    assert_eq!(s.end_poll(true), PollEnd::Completed);
    assert_eq!(s, st(false, true, true));
}

#[test]
fn pending_poll_with_a_wakeup_is_resubmitted() {
    let mut s = State::new();
    assert_eq!(s.begin_poll(), PollStart::Run);
    assert_eq!(s.begin_poll(), PollStart::Deferred);
    assert_eq!(s.end_poll(false), PollEnd::Resubmit);
    assert_eq!(s, st(false, true, false));
    // the resubmitted delivery runs the task again and clears the mark
    assert_eq!(s.begin_poll(), PollStart::Run);
    assert_eq!(s, st(true, false, false));
}

#[test]
fn pending_poll_without_a_wakeup_goes_idle() {
    let mut s = State::new();
    assert_eq!(s.begin_poll(), PollStart::Run);
    assert_eq!(s.end_poll(false), PollEnd::Idle);
    assert_eq!(s, st(false, false, false));
    // a later wake-up runs it again
    assert_eq!(s.begin_poll(), PollStart::Run);
}

#[test]
fn completed_task_is_never_run_again() {
    let mut s = State::new();
    assert_eq!(s.begin_poll(), PollStart::Run);
    assert_eq!(s.end_poll(true), PollEnd::Completed);
    for _ in 0..5 {
        assert_eq!(s.begin_poll(), PollStart::AlreadyCompleted);
    }
    assert!(s.completed && !s.running);
}
