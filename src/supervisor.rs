use vstd::prelude::*;
use crate::scheduler::{Action, Event, Scheduler, SchedulerState, next_action, next_state, state_after};

verus! {

/// Where the process stands: no job is scheduled before the repository is unlocked.
#[derive(Clone, Copy, Debug, PartialEq, Eq, Structural)]
pub enum Phase {
    /// The stale-lock removal has not finished yet.
    Unlocking,
    /// The repository is unlocked; jobs take their events.
    Scheduling,
    /// The unlock failed; nothing is scheduled.
    Halted,
}

/// What the supervisor is told.
#[derive(Clone, Copy, Debug, PartialEq, Eq, Structural)]
pub enum Input {
    /// The unlock step has ended.
    UnlockFinished { succeeded: bool },
    /// An event for job number `job`, at time `now` (seconds).
    JobEvent { job: usize, event: Event, now: u64 },
}

/// The schedulers of all jobs of a process, one per watched directory, behind
/// the unlock step.
#[derive(Clone, Debug)]
pub struct Supervisor {
    pub phase: Phase,
    pub jobs: Vec<Scheduler>,
}

/// The phase after `input`: only the first end of the unlock step moves it.
pub open spec fn phase_next(p: Phase, input: Input) -> Phase {
    match input {
        Input::UnlockFinished { succeeded } => if p == Phase::Unlocking {
            if succeeded {
                Phase::Scheduling
            } else {
                Phase::Halted
            }
        } else {
            p
        },
        Input::JobEvent { .. } => p,
    }
}

/// The job's scheduler after `event` at `now`.
pub open spec fn stepped(s: Scheduler, event: Event, now: u64) -> Scheduler {
    Scheduler { throttle: s.throttle, state: next_state(s.state, s.throttle, event, now) }
}

/// The schedulers after `input`: a job event moves the job it names, and only
/// while scheduling.
pub open spec fn jobs_next(p: Phase, jobs: Seq<Scheduler>, input: Input) -> Seq<Scheduler> {
    match input {
        Input::JobEvent { job, event, now } => if p == Phase::Scheduling && job < jobs.len() {
            jobs.update(job as int, stepped(jobs[job as int], event, now))
        } else {
            jobs
        },
        Input::UnlockFinished { .. } => jobs,
    }
}

/// The action asked for by `input`: a failed unlock stops the process.
pub open spec fn action_next(p: Phase, jobs: Seq<Scheduler>, input: Input) -> Action {
    match input {
        Input::JobEvent { job, event, now } => if p == Phase::Scheduling && job < jobs.len() {
            next_action(jobs[job as int].state, jobs[job as int].throttle, event, now)
        } else {
            Action::Nothing
        },
        Input::UnlockFinished { succeeded } => if p == Phase::Unlocking && !succeeded {
            Action::Stop
        } else {
            Action::Nothing
        },
    }
}

impl Supervisor {
    /// One idle scheduler per throttle, in order, waiting for the unlock.
    pub fn new(throttles: &Vec<u64>) -> (r: Supervisor)
        ensures
            r.phase == Phase::Unlocking,
            r.jobs@.len() == throttles@.len(),
            forall|i: int|
                0 <= i < throttles@.len() ==> r.jobs@[i] == (Scheduler { throttle: throttles@[i], state: SchedulerState::Idle }),
    {
        let mut jobs: Vec<Scheduler> = Vec::new();
        let mut i: usize = 0;
        while i < throttles.len()
            invariant
                i <= throttles@.len(),
                jobs@.len() == i,
                forall|k: int| 0 <= k < i ==> jobs@[k] == (Scheduler { throttle: throttles@[k], state: SchedulerState::Idle }),
            decreases throttles@.len() - i,
        {
            jobs.push(Scheduler::new(throttles[i]));
            i = i + 1;
        }
        Supervisor { phase: Phase::Unlocking, jobs }
    }

    /// Takes in one input and says what to do; only the job that an event names moves.
    pub fn handle(&mut self, input: Input) -> (a: Action)
        ensures
            final(self).phase == phase_next(old(self).phase, input),
            final(self).jobs@ == jobs_next(old(self).phase, old(self).jobs@, input),
            a == action_next(old(self).phase, old(self).jobs@, input),
    {
        match input {
            Input::UnlockFinished { succeeded } => {
                if self.phase == Phase::Unlocking {
                    if succeeded {
                        self.phase = Phase::Scheduling;
                        Action::Nothing
                    } else {
                        self.phase = Phase::Halted;
                        Action::Stop
                    }
                } else {
                    Action::Nothing
                }
            },
            Input::JobEvent { job, event, now } => {
                if self.phase == Phase::Scheduling && job < self.jobs.len() {
                    let mut s = self.jobs[job];
                    let a = s.step(event, now);
                    self.jobs.set(job, s);
                    a
                } else {
                    Action::Nothing
                }
            },
        }
    }
}

/// The phase and the schedulers after the first `n` of `inputs`.
pub open spec fn after(phase0: Phase, jobs0: Seq<Scheduler>, inputs: Seq<Input>, n: nat) -> (Phase, Seq<Scheduler>)
    decreases n,
{
    if n == 0 {
        (phase0, jobs0)
    } else {
        let prev = after(phase0, jobs0, inputs, (n - 1) as nat);
        (phase_next(prev.0, inputs[n - 1]), jobs_next(prev.0, prev.1, inputs[n - 1]))
    }
}

/// The action asked for by input `i`.
pub open spec fn action_after(phase0: Phase, jobs0: Seq<Scheduler>, inputs: Seq<Input>, i: int) -> Action {
    let prev = after(phase0, jobs0, inputs, i as nat);
    action_next(prev.0, prev.1, inputs[i])
}

/// The events, with their times, that the first `n` inputs deliver to job `k`.
pub open spec fn job_events(inputs: Seq<Input>, k: int, n: nat) -> Seq<(Event, u64)>
    decreases n,
{
    if n == 0 {
        Seq::empty()
    } else {
        let prev = job_events(inputs, k, (n - 1) as nat);
        match inputs[n - 1] {
            Input::JobEvent { job, event, now } => if job == k {
                prev.push((event, now))
            } else {
                prev
            },
            Input::UnlockFinished { .. } => prev,
        }
    }
}

proof fn lemma_scheduling_needs_unlock(jobs0: Seq<Scheduler>, inputs: Seq<Input>, n: nat)
    requires
        n <= inputs.len(),
    ensures
        after(Phase::Unlocking, jobs0, inputs, n).0 != Phase::Unlocking ==> exists|k: int|
            0 <= k < n && inputs[k] is UnlockFinished,
        after(Phase::Unlocking, jobs0, inputs, n).0 == Phase::Scheduling ==> exists|k: int|
            0 <= k < n && inputs[k] == (Input::UnlockFinished { succeeded: true }),
    decreases n,
{
    if n > 0 {
        lemma_scheduling_needs_unlock(jobs0, inputs, (n - 1) as nat);
        let prev = after(Phase::Unlocking, jobs0, inputs, (n - 1) as nat);
        if prev.0 == Phase::Unlocking && inputs[n - 1] is UnlockFinished {
            let k = n - 1;
            assert(0 <= k < n && inputs[k] is UnlockFinished);
        }
        if prev.0 == Phase::Unlocking && inputs[n - 1] == (Input::UnlockFinished { succeeded: true }) {
            let k = n - 1;
            assert(0 <= k < n && inputs[k] == (Input::UnlockFinished { succeeded: true }));
        }
    }
}

/// The unlock step precedes scheduling: from the start of a process, no job is
/// told to invoke the tool unless an earlier input reported a successful unlock.
pub proof fn lemma_unlock_precedes_scheduling(jobs0: Seq<Scheduler>, inputs: Seq<Input>, i: int)
    requires
        0 <= i < inputs.len(),
        action_after(Phase::Unlocking, jobs0, inputs, i) == Action::Invoke,
    ensures
        exists|k: int| 0 <= k < i && inputs[k] == (Input::UnlockFinished { succeeded: true }),
{
    lemma_scheduling_needs_unlock(jobs0, inputs, i as nat);
}

proof fn lemma_state_after_prefix(s0: SchedulerState, throttle: u64, evs: Seq<(Event, u64)>, x: (Event, u64), m: nat)
    requires
        m <= evs.len(),
    ensures
        state_after(s0, throttle, evs.push(x), m) == state_after(s0, throttle, evs, m),
    decreases m,
{
    if m > 0 {
        lemma_state_after_prefix(s0, throttle, evs, x, (m - 1) as nat);
    }
}

/// Job independence: once scheduling has begun, each job's scheduler is exactly
/// where its own events alone would have taken it, whatever the other jobs are
/// told and whatever their throttles.
pub proof fn lemma_job_independence(jobs0: Seq<Scheduler>, inputs: Seq<Input>, k: int, n: nat)
    requires
        0 <= k < jobs0.len(),
        n <= inputs.len(),
    ensures
        after(Phase::Scheduling, jobs0, inputs, n).0 == Phase::Scheduling,
        after(Phase::Scheduling, jobs0, inputs, n).1.len() == jobs0.len(),
        after(Phase::Scheduling, jobs0, inputs, n).1[k].throttle == jobs0[k].throttle,
        after(Phase::Scheduling, jobs0, inputs, n).1[k].state == state_after(
            jobs0[k].state,
            jobs0[k].throttle,
            job_events(inputs, k, n),
            job_events(inputs, k, n).len(),
        ),
    decreases n,
{
    if n > 0 {
        lemma_job_independence(jobs0, inputs, k, (n - 1) as nat);
        let prev_evs = job_events(inputs, k, (n - 1) as nat);
        match inputs[n - 1] {
            Input::JobEvent { job, event, now } => {
                if job == k {
                    lemma_state_after_prefix(jobs0[k].state, jobs0[k].throttle, prev_evs, (event, now), prev_evs.len());
                }
            },
            Input::UnlockFinished { .. } => {},
        }
    }
}

} // verus!
