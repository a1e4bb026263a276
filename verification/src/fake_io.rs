use std::sync::atomic::AtomicBool;
use std::sync::atomic::Ordering;
use std::sync::Arc;
use std::time::Duration;
use vstd::prelude::*;

verus! {

/// A stand-in for an I/O operation that completes after `duration`: the
/// first poll starts a timer that sets the shared `finished` flag and wakes
/// the task; a poll that finds the flag set yields the duration.
pub struct FakeIO {
    finished: Arc<AtomicBool>,
    duration: Duration,
}

/// The outcome of one poll of a `FakeIO`.
pub enum FakePoll {
    /// The operation is over; its output is the duration it was made with.
    Ready(Duration),
    /// The operation is not over: the caller starts a timer for the
    /// duration that sets the flag and then wakes the task.
    Pending,
}

/// The outcome of a poll that read the finished flag as `finished`.
pub open spec fn poll_outcome_spec(finished: bool, duration: Duration) -> FakePoll {
    if finished {
        FakePoll::Ready(duration)
    } else {
        FakePoll::Pending
    }
}

/// Decides a poll from the value read from the finished flag.
pub fn poll_outcome(finished: bool, duration: Duration) -> (r: FakePoll)
    ensures
        r == poll_outcome_spec(finished, duration),
{
    if finished {
        FakePoll::Ready(duration)
    } else {
        FakePoll::Pending
    }
}

impl FakeIO {
    /// The duration this operation takes and yields.
    pub closed spec fn spec_duration(&self) -> Duration {
        self.duration
    }

    /// The shared flag that tells whether the timer has run out.
    pub closed spec fn spec_flag(&self) -> Arc<AtomicBool> {
        self.finished
    }

    /// A new operation of the given duration whose timer has not started.
    pub fn new(duration: Duration) -> (io: FakeIO)
        ensures
            io.spec_duration() == duration,
    {
        FakeIO { finished: Arc::new(AtomicBool::new(false)), duration }
    }

    /// The duration this operation takes and yields.
    pub fn duration(&self) -> (d: Duration)
        ensures
            d == self.spec_duration(),
    {
        self.duration
    }

    /// The flag that the timer sets once the duration has passed.
    pub fn finished_flag(&self) -> (f: Arc<AtomicBool>)
        ensures
            f == self.spec_flag(),
    {
        self.finished.clone()
    }

    /// Reads the finished flag and decides the poll: ready with the
    /// operation's duration once the flag is set, pending before.
    pub fn poll_state(&self) -> (r: FakePoll)
        ensures
            r == FakePoll::Ready(self.spec_duration()) || r == FakePoll::Pending,
    {
        let (_, r) = self.poll_with_flag();
        r
    }

    /// Reads the finished flag once and returns the value read together
    /// with the poll it decides: ready with the operation's duration when
    /// the flag was set, pending when it was not.
    pub fn poll_with_flag(&self) -> (r: (bool, FakePoll))
        ensures
            r.1 == poll_outcome_spec(r.0, self.spec_duration()),
    {
        let finished = self.finished.load(Ordering::Acquire);
        (finished, poll_outcome(finished, self.duration))
    }
}

} // verus!
