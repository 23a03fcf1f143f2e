use vstd::prelude::*;

use crate::error::Error;
use crate::model::{FullOpenCloudExecutionTask, OpenCloudState};

verus! {

/// The wait after the first query that finds the task still running.
pub const RETRY_DELAY_NANOS: u64 = 1_000_000_000;

/// The longest wait between two queries.
pub const MAX_DELAY_NANOS: u64 = 60_000_000_000;

/// The overall deadline of a polling run, counted from its start.
pub const POLL_TIMEOUT_NANOS: u64 = 300_000_000_000;

/// The wait that follows a wait of `delay`: half as long again, capped.
pub open spec fn spec_next_delay(delay: nat) -> nat {
    let grown = delay + delay / 2;
    if grown < MAX_DELAY_NANOS { grown } else { MAX_DELAY_NANOS as nat }
}

/// The wait after a still-running observation: the current delay, cut to
/// the time left before the deadline.
pub open spec fn spec_wait(delay: nat, elapsed: nat) -> nat {
    if delay < POLL_TIMEOUT_NANOS - elapsed {
        delay
    } else {
        (POLL_TIMEOUT_NANOS - elapsed) as nat
    }
}

/// Whether a run in which every query finds the task still running, and each
/// query is made as its wait ends, reaches the deadline within `waits` waits,
/// starting from delay `delay` at time `elapsed`.
pub open spec fn spec_running_run_ends(delay: nat, elapsed: nat, waits: nat) -> bool
    decreases waits,
{
    if elapsed >= POLL_TIMEOUT_NANOS {
        true
    } else if waits == 0 {
        false
    } else {
        spec_running_run_ends(
            spec_next_delay(delay),
            elapsed + spec_wait(delay, elapsed),
            (waits - 1) as nat,
        )
    }
}

/// A task that never leaves a running state never ends the run with a task:
/// each wait is at least a second or reaches the deadline, so from any point
/// the run reaches the deadline, where it gives up, within one wait per
/// second left.
pub proof fn lemma_running_task_times_out(delay: nat, elapsed: nat, waits: nat)
    requires
        RETRY_DELAY_NANOS <= delay <= MAX_DELAY_NANOS,
        waits * RETRY_DELAY_NANOS >= POLL_TIMEOUT_NANOS - elapsed,
    ensures
        spec_running_run_ends(delay, elapsed, waits),
    decreases waits,
{
    if elapsed < POLL_TIMEOUT_NANOS {
        assert(waits > 0) by (nonlinear_arith)
            requires
                waits * RETRY_DELAY_NANOS >= POLL_TIMEOUT_NANOS - elapsed,
                elapsed < POLL_TIMEOUT_NANOS,
        ;
        let next = elapsed + spec_wait(delay, elapsed);
        let rest = (waits - 1) as nat;
        if next < POLL_TIMEOUT_NANOS {
            assert(rest * RETRY_DELAY_NANOS >= POLL_TIMEOUT_NANOS - next) by (nonlinear_arith)
                requires
                    waits * RETRY_DELAY_NANOS >= POLL_TIMEOUT_NANOS - elapsed,
                    rest == waits - 1,
                    next >= elapsed + RETRY_DELAY_NANOS,
            ;
            lemma_running_task_times_out(spec_next_delay(delay), next, rest);
        }
        assert(spec_running_run_ends(spec_next_delay(delay), next, rest));
    }
}

/// What the polling run does after a query.
#[derive(Debug, Clone, Copy, PartialEq, Eq)]
pub enum PollAction {
    /// The task reached a terminal state: return it.
    Finish,
    /// The task is still running: wait this long, then query again.
    Wait { nanos: u64 },
    /// The deadline has passed: fail with a timeout and drop the task.
    GiveUp,
}

/// What the polling run does with the outcome of a query.
#[derive(Debug)]
pub enum PollOutcome {
    /// The run is over, with this result.
    Done(Result<FullOpenCloudExecutionTask, Error>),
    /// Wait this long, then query again.
    Wait { nanos: u64 },
}

/// The backoff state of one polling run.
#[derive(Debug)]
pub struct Poller {
    delay_nanos: u64,
}

impl Poller {
    #[verifier::type_invariant]
    spec fn delay_in_range(self) -> bool {
        RETRY_DELAY_NANOS <= self.delay_nanos <= MAX_DELAY_NANOS
    }

    /// The wait that the next still-running observation will bring.
    pub closed spec fn delay(self) -> nat {
        self.delay_nanos as nat
    }

    /// A run that has not waited yet.
    pub fn new() -> (r: Poller)
        ensures
            r.delay() == RETRY_DELAY_NANOS,
    {
        Poller { delay_nanos: RETRY_DELAY_NANOS }
    }

    /// Decides what follows a query that found the task in state `observed`,
    /// `elapsed_nanos` after the run began. Past the deadline the run gives up
    /// whatever the state; before it, a terminal state ends the run and any
    /// other state (unspecified included) brings a wait of the current delay,
    /// cut to the time left, after which the delay grows.
    pub fn step(&mut self, observed: &OpenCloudState, elapsed_nanos: u64) -> (r: PollAction)
        ensures
            elapsed_nanos >= POLL_TIMEOUT_NANOS ==> r is GiveUp && final(self).delay()
                == old(self).delay(),
            elapsed_nanos < POLL_TIMEOUT_NANOS && observed.spec_is_terminal() ==> r is Finish
                && final(self).delay() == old(self).delay(),
            elapsed_nanos < POLL_TIMEOUT_NANOS && !observed.spec_is_terminal() ==> {
                &&& r is Wait
                &&& r->nanos == spec_wait(old(self).delay(), elapsed_nanos as nat)
                &&& final(self).delay() == spec_next_delay(old(self).delay())
            },
            RETRY_DELAY_NANOS <= final(self).delay() <= MAX_DELAY_NANOS,
    {
        proof {
            use_type_invariant(&*self);
        }
        if elapsed_nanos >= POLL_TIMEOUT_NANOS {
            return PollAction::GiveUp;
        }
        if observed.is_terminal() {
            return PollAction::Finish;
        }
        let left = POLL_TIMEOUT_NANOS - elapsed_nanos;
        let wait = if self.delay_nanos < left { self.delay_nanos } else { left };
        let grown = self.delay_nanos + self.delay_nanos / 2;
        self.delay_nanos = if grown < MAX_DELAY_NANOS { grown } else { MAX_DELAY_NANOS };
        PollAction::Wait { nanos: wait }
    }

    /// Decides what follows a query whose outcome was `reply`, `elapsed_nanos`
    /// after the run began. Past the deadline the run fails with a timeout and
    /// drops what came back. Before it, a failed query ends the run with its
    /// error (failures are not retried), a task in a terminal state ends it with
    /// that task, and a running task brings a wait as `step` decides.
    pub fn on_reply(&mut self, reply: Result<FullOpenCloudExecutionTask, Error>, elapsed_nanos: u64) -> (r:
        PollOutcome)
        ensures
            elapsed_nanos >= POLL_TIMEOUT_NANOS ==> r == PollOutcome::Done(
                Err(Error::PollTimeout),
            ),
            elapsed_nanos < POLL_TIMEOUT_NANOS && reply is Err ==> r == PollOutcome::Done(reply),
            elapsed_nanos < POLL_TIMEOUT_NANOS && reply is Ok
                && reply->Ok_0.base_task.state.spec_is_terminal() ==> r == PollOutcome::Done(reply),
            elapsed_nanos < POLL_TIMEOUT_NANOS && reply is Ok
                && !reply->Ok_0.base_task.state.spec_is_terminal() ==> {
                &&& r is Wait
                &&& r->nanos == spec_wait(old(self).delay(), elapsed_nanos as nat)
                &&& final(self).delay() == spec_next_delay(old(self).delay())
            },
            !(elapsed_nanos < POLL_TIMEOUT_NANOS && reply is Ok
                && !reply->Ok_0.base_task.state.spec_is_terminal()) ==> final(self).delay()
                == old(self).delay(),
    {
        if elapsed_nanos >= POLL_TIMEOUT_NANOS {
            return PollOutcome::Done(Err(Error::PollTimeout));
        }
        match reply {
            Err(e) => PollOutcome::Done(Err(e)),
            Ok(task) => match self.step(&task.base_task.state, elapsed_nanos) {
                PollAction::Wait { nanos } => PollOutcome::Wait { nanos },
                _ => PollOutcome::Done(Ok(task)),
            },
        }
    }
}

} // verus!
