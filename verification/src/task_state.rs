use vstd::prelude::*;

verus! {

/// Scheduling state of one spawned task, guarded by the task's mutex.
///
/// `running` is set while a worker is polling the future, `notified` records
/// that the task was delivered again (woken) while it was being polled, and
/// `completed` is set once the future has returned its output.
#[derive(Clone, Copy, PartialEq, Eq, Structural, Debug)]
pub struct State {
    pub running: bool,
    pub notified: bool,
    pub completed: bool,
}

/// What a worker must do with a task it has just taken from the run queue.
#[derive(Clone, Copy, PartialEq, Eq, Structural, Debug)]
pub enum PollStart {
    /// The future already finished: drop this delivery.
    AlreadyCompleted,
    /// Another worker is polling the future right now; the delivery was
    /// recorded and that worker will resubmit the task.
    Deferred,
    /// This worker now owns the poll and must poll the future.
    Run,
}

/// What a worker must do after its poll of the future returned.
#[derive(Clone, Copy, PartialEq, Eq, Structural, Debug)]
pub enum PollEnd {
    /// The future returned its output; the task is finished.
    Completed,
    /// The task was woken while it was polled: send it to the run queue again.
    Resubmit,
    /// The future is pending and nobody woke it yet: leave it to its waker.
    Idle,
}

/// The state of a freshly spawned task.
pub open spec fn initial_state() -> State {
    State { running: false, notified: false, completed: false }
}

/// A running task is never completed.
pub open spec fn state_wf(s: State) -> bool {
    s.completed ==> !s.running
}

/// Taking a delivered task off the run queue.
pub open spec fn begin_poll_spec(s: State) -> (State, PollStart) {
    if s.completed {
        (s, PollStart::AlreadyCompleted)
    } else if s.running {
        (State { notified: true, ..s }, PollStart::Deferred)
    } else {
        (State { running: true, notified: false, ..s }, PollStart::Run)
    }
}

/// Returning from a poll of the future; `ready` tells whether it produced
/// its output.
pub open spec fn end_poll_spec(s: State, ready: bool) -> (State, PollEnd) {
    if ready {
        (State { running: false, completed: true, ..s }, PollEnd::Completed)
    } else if s.notified {
        (State { running: false, ..s }, PollEnd::Resubmit)
    } else {
        (State { running: false, ..s }, PollEnd::Idle)
    }
}

impl State {
    /// The state of a task that has just been spawned: not running, not
    /// notified, not completed.
    pub fn new() -> (s: State)
        ensures
            s == initial_state(),
            state_wf(s),
    {
        State { running: false, notified: false, completed: false }
    }

    /// Decides what a worker does with a task it received: skip it when the
    /// future already completed; record the wake-up and skip it when another
    /// worker is polling it; otherwise claim the poll.
    pub fn begin_poll(&mut self) -> (r: PollStart)
        ensures
            (*final(self), r) == begin_poll_spec(*old(self)),
            state_wf(*old(self)) ==> state_wf(*final(self)),
    {
        if self.completed {
            return PollStart::AlreadyCompleted;
        }
        if self.running {
            self.notified = true;
            return PollStart::Deferred;
        }
        self.running = true;
        self.notified = false;
        PollStart::Run
    }

    /// Records the end of a poll: the task is no longer running; it is
    /// completed when the future was ready, and otherwise it must be
    /// resubmitted exactly when it was woken during the poll.
    pub fn end_poll(&mut self, ready: bool) -> (r: PollEnd)
        ensures
            (*final(self), r) == end_poll_spec(*old(self), ready),
            state_wf(*final(self)),
    {
        self.running = false;
        if ready {
            self.completed = true;
            return PollEnd::Completed;
        }
        if self.notified {
            PollEnd::Resubmit
        } else {
            PollEnd::Idle
        }
    }
}

impl Default for State {
    fn default() -> (s: State)
        ensures
            s == initial_state(),
    {
        State::new()
    }
}

/// One event in a task's life: a delivery of the task taken off the run
/// queue by a worker, or the end of a poll with whether the future was ready.
#[derive(Clone, Copy, PartialEq, Eq, Structural, Debug)]
pub enum Step {
    Deliver,
    Finish(bool),
}

/// The state after one event.
pub open spec fn apply_step(s: State, step: Step) -> State {
    match step {
        Step::Deliver => begin_poll_spec(s).0,
        Step::Finish(ready) => end_poll_spec(s, ready).0,
    }
}

/// The state after a sequence of events, applied in order.
pub open spec fn apply_steps(s: State, steps: Seq<Step>) -> State
    decreases steps.len(),
{
    if steps.len() == 0 {
        s
    } else {
        apply_steps(apply_step(s, steps[0]), steps.drop_first())
    }
}

/// The state after `n` deliveries in a row.
pub open spec fn deliver_n(s: State, n: nat) -> State
    decreases n,
{
    if n == 0 {
        s
    } else {
        begin_poll_spec(deliver_n(s, (n - 1) as nat)).0
    }
}

/// Every event keeps a well-formed state well-formed: a task is never both
/// running and completed.
pub proof fn lemma_wf_preserved(s: State, steps: Seq<Step>)
    requires
        state_wf(s),
    ensures
        state_wf(apply_steps(s, steps)),
    decreases steps.len(),
{
    if steps.len() > 0 {
        lemma_wf_preserved(apply_step(s, steps[0]), steps.drop_first());
    }
}

/// Once a task has completed, no event changes its state, and every later
/// delivery is dropped: a completed future is never polled again.
pub proof fn lemma_completed_is_final(s: State, steps: Seq<Step>)
    requires
        state_wf(s),
        s.completed,
    ensures
        apply_steps(s, steps) == s,
        begin_poll_spec(apply_steps(s, steps)).1 == PollStart::AlreadyCompleted,
    decreases steps.len(),
{
    if steps.len() > 0 {
        assert(apply_step(s, steps[0]) == s);
        lemma_completed_is_final(s, steps.drop_first());
    }
}

/// While one worker polls a task, every further delivery of it is deferred
/// and keeps the task running: at most one poll of a future is in progress.
pub proof fn lemma_poll_exclusive(s: State, n: nat)
    requires
        begin_poll_spec(s).1 == PollStart::Run,
    ensures
        deliver_n(begin_poll_spec(s).0, n).running,
        !deliver_n(begin_poll_spec(s).0, n).completed,
        begin_poll_spec(deliver_n(begin_poll_spec(s).0, n)).1 == PollStart::Deferred,
    decreases n,
{
    if n > 0 {
        lemma_poll_exclusive(s, (n - 1) as nat);
    }
}

/// A wake-up during a poll is never lost: when the poll ends pending, the
/// task is resubmitted exactly when it was delivered at least once while it
/// was being polled, and a ready poll always completes the task.
pub proof fn lemma_no_lost_wakeup(s: State, n: nat)
    requires
        begin_poll_spec(s).1 == PollStart::Run,
    ensures
        end_poll_spec(deliver_n(begin_poll_spec(s).0, n), false).1 == (if n > 0 {
            PollEnd::Resubmit
        } else {
            PollEnd::Idle
        }),
        end_poll_spec(deliver_n(begin_poll_spec(s).0, n), true).1 == PollEnd::Completed,
        end_poll_spec(deliver_n(begin_poll_spec(s).0, n), true).0.completed,
    decreases n,
{
    if n > 0 {
        lemma_no_lost_wakeup(s, (n - 1) as nat);
        lemma_poll_exclusive(s, (n - 1) as nat);
    }
}

/// One delivery of a task to a worker that finds no poll in progress: the
/// worker claims the poll, `wakes` further deliveries arrive while it polls,
/// and the poll ends with `ready`. Returns the state afterwards and how the
/// poll ended, or `None` when the delivery was dropped without a poll.
pub open spec fn run_round(s: State, wakes: nat, ready: bool) -> (State, Option<PollEnd>) {
    let (s1, start) = begin_poll_spec(s);
    if start == PollStart::Run {
        let (s2, e) = end_poll_spec(deliver_n(s1, wakes), ready);
        (s2, Some(e))
    } else {
        (s1, None)
    }
}

/// The state after a sequence of rounds, each given by its number of
/// wake-ups during the poll and whether the poll was ready, and the number
/// of rounds whose poll completed the task.
pub open spec fn run_rounds(s: State, rounds: Seq<(nat, bool)>) -> (State, nat)
    decreases rounds.len(),
{
    if rounds.len() == 0 {
        (s, 0)
    } else {
        let (s1, n) = run_rounds(s, rounds.drop_last());
        let (s2, e) = run_round(s1, rounds.last().0, rounds.last().1);
        (s2, n + if e == Some(PollEnd::Completed) {
            1nat
        } else {
            0nat
        })
    }
}

/// Whenever no poll is in progress, the task is not running; completion is
/// never undone; the future is polled to its output at most once; and the
/// task is completed exactly when it was completed at the start or some
/// poll returned the output (so the output is stored exactly when the task
/// is completed).
pub proof fn lemma_rounds(s: State, rounds: Seq<(nat, bool)>)
    requires
        state_wf(s),
        !s.running,
    ensures
        !run_rounds(s, rounds).0.running,
        state_wf(run_rounds(s, rounds).0),
        s.completed ==> run_rounds(s, rounds).0.completed && run_rounds(s, rounds).1 == 0,
        run_rounds(s, rounds).0.completed <==> (s.completed || run_rounds(s, rounds).1 > 0),
        run_rounds(s, rounds).1 <= 1,
    decreases rounds.len(),
{
    if rounds.len() > 0 {
        lemma_rounds(s, rounds.drop_last());
        let (s1, n) = run_rounds(s, rounds.drop_last());
        let (w, ready) = rounds.last();
        if !s1.completed {
            assert(begin_poll_spec(s1).1 == PollStart::Run);
            lemma_poll_exclusive(s1, w);
        }
    }
}

/// A task whose poll ended pending is polled again by the next delivery,
/// whether that delivery is its own resubmission or a later wake-up.
pub proof fn lemma_pending_task_runs_again(s: State)
    requires
        !s.completed,
    ensures
        begin_poll_spec(end_poll_spec(s, false).0).1 == PollStart::Run,
{
}

} // verus!
