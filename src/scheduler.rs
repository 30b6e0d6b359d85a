use vstd::prelude::*;

verus! {

/// Where one job stands in its debounce cycle.
#[derive(Clone, Copy, Debug, PartialEq, Eq, Structural)]
pub enum SchedulerState {
    /// Waiting for the first change signal.
    Idle,
    /// The throttle timer runs; it was started by a signal at time `since` (seconds).
    Pending { since: u64 },
    /// The backup tool runs for this job.
    Running,
    /// The change source failed; the job takes no more work.
    Stopped,
}

/// What the scheduler of one job is told.
#[derive(Clone, Copy, Debug, PartialEq, Eq, Structural)]
pub enum Event {
    /// Something changed under the watched path.
    Signal,
    /// A timer that the scheduler asked for has gone off.
    TimerElapsed,
    /// The backup invocation has ended, successfully or not.
    RunFinished,
    /// The change source can deliver no more signals.
    SourceClosed,
}

/// What the scheduler asks its runner to do after an event.
#[derive(Clone, Copy, Debug, PartialEq, Eq, Structural)]
pub enum Action {
    /// The event is absorbed.
    Nothing,
    /// Start a timer that delivers `TimerElapsed` after `seconds`.
    StartTimer { seconds: u64 },
    /// Invoke the backup tool for the job; deliver `RunFinished` when it ends.
    Invoke,
    /// End the job's task.
    Stop,
}

/// Seconds still to wait when a timer goes off at `now` in a cycle started at `since`.
pub open spec fn remaining(since: u64, throttle: u64, now: u64) -> int {
    if now < since {
        throttle as int
    } else {
        since + throttle - now
    }
}

/// True when, at `now`, the throttle of a cycle started at `since` has run out.
pub open spec fn is_due(since: u64, throttle: u64, now: u64) -> bool {
    now >= since + throttle
}

/// The state after `event` arrives at time `now`.
pub open spec fn next_state(s: SchedulerState, throttle: u64, event: Event, now: u64) -> SchedulerState {
    match event {
        Event::SourceClosed => SchedulerState::Stopped,
        Event::Signal => match s {
            SchedulerState::Idle => SchedulerState::Pending { since: now },
            _ => s,
        },
        Event::TimerElapsed => match s {
            SchedulerState::Pending { since } => if is_due(since, throttle, now) {
                SchedulerState::Running
            } else {
                s
            },
            _ => s,
        },
        Event::RunFinished => match s {
            SchedulerState::Running => SchedulerState::Idle,
            _ => s,
        },
    }
}

/// The action asked for when `event` arrives at time `now`.
pub open spec fn next_action(s: SchedulerState, throttle: u64, event: Event, now: u64) -> Action {
    match event {
        Event::SourceClosed => Action::Stop,
        Event::Signal => match s {
            SchedulerState::Idle => Action::StartTimer { seconds: throttle },
            _ => Action::Nothing,
        },
        Event::TimerElapsed => match s {
            SchedulerState::Pending { since } => if is_due(since, throttle, now) {
                Action::Invoke
            } else {
                Action::StartTimer { seconds: remaining(since, throttle, now) as u64 }
            },
            _ => Action::Nothing,
        },
        Event::RunFinished => Action::Nothing,
    }
}

/// The debounce-and-single-flight scheduler of one job.
#[derive(Clone, Copy, Debug)]
pub struct Scheduler {
    /// Quiet period, in seconds, between the first signal of a cycle and the invocation.
    pub throttle: u64,
    pub state: SchedulerState,
}

impl Scheduler {
    /// A scheduler that waits for its first signal.
    pub fn new(throttle: u64) -> (r: Scheduler)
        ensures
            r.throttle == throttle,
            r.state == SchedulerState::Idle,
    {
        Scheduler { throttle, state: SchedulerState::Idle }
    }

    /// True while a backup invocation of this job is in flight.
    pub fn is_running(&self) -> (r: bool)
        ensures
            r == (self.state == SchedulerState::Running),
    {
        match self.state {
            SchedulerState::Running => true,
            _ => false,
        }
    }

    /// Takes in `event`, which arrived at time `now` (seconds), and says what to do.
    pub fn step(&mut self, event: Event, now: u64) -> (a: Action)
        ensures
            final(self).throttle == old(self).throttle,
            final(self).state == next_state(old(self).state, old(self).throttle, event, now),
            a == next_action(old(self).state, old(self).throttle, event, now),
    {
        let throttle = self.throttle;
        match event {
            Event::SourceClosed => {
                self.state = SchedulerState::Stopped;
                Action::Stop
            },
            Event::Signal => match self.state {
                SchedulerState::Idle => {
                    self.state = SchedulerState::Pending { since: now };
                    Action::StartTimer { seconds: throttle }
                },
                _ => Action::Nothing,
            },
            Event::TimerElapsed => match self.state {
                SchedulerState::Pending { since } => {
                    if now < since {
                        Action::StartTimer { seconds: throttle }
                    } else if now - since >= throttle {
                        self.state = SchedulerState::Running;
                        Action::Invoke
                    } else {
                        Action::StartTimer { seconds: throttle - (now - since) }
                    }
                },
                _ => Action::Nothing,
            },
            Event::RunFinished => {
                if self.is_running() {
                    self.state = SchedulerState::Idle;
                }
                Action::Nothing
            },
        }
    }
}

/// The state after the first `n` events of `evs` (each with its arrival time), from `s0`.
pub open spec fn state_after(s0: SchedulerState, throttle: u64, evs: Seq<(Event, u64)>, n: nat) -> SchedulerState
    decreases n,
{
    if n == 0 {
        s0
    } else {
        let prev = state_after(s0, throttle, evs, (n - 1) as nat);
        next_state(prev, throttle, evs[n - 1].0, evs[n - 1].1)
    }
}

/// The action asked for by event `i` of `evs`, from `s0`.
pub open spec fn action_at(s0: SchedulerState, throttle: u64, evs: Seq<(Event, u64)>, i: int) -> Action {
    next_action(state_after(s0, throttle, evs, i as nat), throttle, evs[i].0, evs[i].1)
}

/// A debounce window from `Idle`: the first event is a signal, and no later one
/// completes a run or closes the source.
pub open spec fn is_window(evs: Seq<(Event, u64)>) -> bool {
    &&& evs.len() >= 1
    &&& evs[0].0 == Event::Signal
    &&& forall|k: int| 1 <= k < evs.len() ==> evs[k].0 != Event::RunFinished && evs[k].0 != Event::SourceClosed
}

proof fn lemma_stays_running(s0: SchedulerState, throttle: u64, evs: Seq<(Event, u64)>, i: nat, m: nat)
    requires
        i < m <= evs.len(),
        state_after(s0, throttle, evs, i + 1) == SchedulerState::Running,
        forall|k: int| i < k < m ==> evs[k].0 != Event::RunFinished,
    ensures
        state_after(s0, throttle, evs, m) == SchedulerState::Running
            || state_after(s0, throttle, evs, m) == SchedulerState::Stopped,
    decreases m,
{
    if m > i + 1 {
        lemma_stays_running(s0, throttle, evs, i, (m - 1) as nat);
    }
}

/// Single flight: between two invocations of the tool for one job, that job's
/// previous run has finished, whatever the events and whatever the start state.
pub proof fn lemma_single_flight(s0: SchedulerState, throttle: u64, evs: Seq<(Event, u64)>, i: int, j: int)
    requires
        0 <= i < j < evs.len(),
        action_at(s0, throttle, evs, i) == Action::Invoke,
        action_at(s0, throttle, evs, j) == Action::Invoke,
    ensures
        exists|k: int| i < k < j && evs[k].0 == Event::RunFinished,
{
    if !(exists|k: int| i < k < j && evs[k].0 == Event::RunFinished) {
        assert(state_after(s0, throttle, evs, (i + 1) as nat) == SchedulerState::Running);
        lemma_stays_running(s0, throttle, evs, i as nat, j as nat);
    }
}

proof fn lemma_window_pending(throttle: u64, evs: Seq<(Event, u64)>, m: nat)
    requires
        is_window(evs),
        1 <= m <= evs.len(),
        forall|k: int| 1 <= k < m ==> action_at(SchedulerState::Idle, throttle, evs, k) != Action::Invoke,
    ensures
        state_after(SchedulerState::Idle, throttle, evs, m) == (SchedulerState::Pending { since: evs[0].1 }),
    decreases m,
{
    if m > 1 {
        lemma_window_pending(throttle, evs, (m - 1) as nat);
        assert(action_at(SchedulerState::Idle, throttle, evs, m - 1) != Action::Invoke);
    } else {
        assert(state_after(SchedulerState::Idle, throttle, evs, 0) == SchedulerState::Idle);
    }
}

/// Throttle timing: within a debounce window the tool is invoked only once the
/// throttle has run out since the window's first signal.
pub proof fn lemma_throttle_timing(throttle: u64, evs: Seq<(Event, u64)>, j: int)
    requires
        is_window(evs),
        0 <= j < evs.len(),
        action_at(SchedulerState::Idle, throttle, evs, j) == Action::Invoke,
    ensures
        evs[j].1 >= evs[0].1 + throttle,
        evs[j].0 == Event::TimerElapsed,
{
    if j > 0 {
        if exists|k: int| 1 <= k < j && action_at(SchedulerState::Idle, throttle, evs, k) == Action::Invoke {
            let k = choose|k: int| 1 <= k < j && action_at(SchedulerState::Idle, throttle, evs, k) == Action::Invoke;
            lemma_single_flight(SchedulerState::Idle, throttle, evs, k, j);
        }
        lemma_window_pending(throttle, evs, j as nat);
    }
}

/// Absorption: in a debounce window that holds one or more signals and a timer
/// event at which the throttle has run out, exactly one invocation occurs, and
/// it occurs no later than that timer event.
pub proof fn lemma_absorption(throttle: u64, evs: Seq<(Event, u64)>, t: int)
    requires
        is_window(evs),
        0 <= t < evs.len(),
        evs[t].0 == Event::TimerElapsed,
        is_due(evs[0].1, throttle, evs[t].1),
    ensures
        exists|i: int|
            #![trigger action_at(SchedulerState::Idle, throttle, evs, i)]
            1 <= i <= t && action_at(SchedulerState::Idle, throttle, evs, i) == Action::Invoke && forall|j: int|
                0 <= j < evs.len() && j != i ==> action_at(SchedulerState::Idle, throttle, evs, j) != Action::Invoke,
{
    let s0 = SchedulerState::Idle;
    let i: int = if exists|k: int| 1 <= k < t && action_at(s0, throttle, evs, k) == Action::Invoke {
        choose|k: int| 1 <= k < t && action_at(s0, throttle, evs, k) == Action::Invoke
    } else {
        lemma_window_pending(throttle, evs, t as nat);
        t
    };
    assert(action_at(s0, throttle, evs, i) == Action::Invoke);
    assert forall|j: int| 0 <= j < evs.len() && j != i implies action_at(s0, throttle, evs, j) != Action::Invoke by {
        if action_at(s0, throttle, evs, j) == Action::Invoke {
            if j < i {
                lemma_single_flight(s0, throttle, evs, j, i);
            } else {
                lemma_single_flight(s0, throttle, evs, i, j);
            }
        }
    }
}

/// Re-arm: a signal that arrives while the job is idle (a cycle has completed, or
/// none has begun) starts a new cycle, timed from that signal.
pub proof fn lemma_re_arm(s0: SchedulerState, throttle: u64, evs: Seq<(Event, u64)>, i: int)
    requires
        0 <= i < evs.len(),
        state_after(s0, throttle, evs, i as nat) == SchedulerState::Idle,
        evs[i].0 == Event::Signal,
    ensures
        state_after(s0, throttle, evs, (i + 1) as nat) == (SchedulerState::Pending { since: evs[i].1 }),
        action_at(s0, throttle, evs, i) == (Action::StartTimer { seconds: throttle }),
{
}

} // verus!
