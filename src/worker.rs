use vstd::prelude::*;

verus! {

/// Where a background refill worker stands in its life.
#[derive(Debug, Clone, Copy, PartialEq, Eq, Structural)]
pub enum WorkerPhase {
    /// Sleeping until the next window boundary or a termination signal.
    Running,
    /// Told to stop; its owner is waiting for it to return.
    Terminating,
    /// Returned and joined; it references no shared state any more.
    Joined,
}

/// Why a sleeping worker woke up.
#[derive(Debug, Clone, Copy, PartialEq, Eq, Structural)]
pub enum Wake {
    /// The next window boundary was reached.
    Deadline,
    /// Its owner asked it to stop.
    Terminate,
}

/// What a worker does after waking up.
#[derive(Debug, Clone, Copy, PartialEq, Eq, Structural)]
pub enum WorkerAction {
    /// Reset the balance to the quota, then sleep until the next boundary.
    Refill,
    /// Return.
    Exit,
}

/// The action taken on a wake-up.
pub open spec fn action_spec(wake: Wake) -> WorkerAction {
    match wake {
        Wake::Deadline => WorkerAction::Refill,
        Wake::Terminate => WorkerAction::Exit,
    }
}

/// The boundary after `deadline`, stopping at the largest representable time.
pub open spec fn next_deadline_spec(deadline: u64, window: u64) -> u64 {
    if deadline + window <= u64::MAX {
        (deadline + window) as u64
    } else {
        u64::MAX
    }
}

/// The window boundaries of a refill worker, in nanoseconds after the
/// instant it started. Each boundary is the previous one plus one window,
/// so waking late never shifts the boundaries that follow.
pub struct RefillSchedule {
    window_nanos: u64,
    deadline_nanos: u64,
}

impl RefillSchedule {
    pub closed spec fn window_spec(&self) -> u64 {
        self.window_nanos
    }

    pub closed spec fn deadline_spec(&self) -> u64 {
        self.deadline_nanos
    }

    /// A schedule whose first boundary is one window after the start.
    pub fn new(window_nanos: u64) -> (r: Self)
        ensures
            r.window_spec() == window_nanos,
            r.deadline_spec() == window_nanos,
    {
        RefillSchedule { window_nanos, deadline_nanos: window_nanos }
    }

    /// The next boundary to sleep until.
    pub fn deadline_nanos(&self) -> (r: u64)
        ensures
            r == self.deadline_spec(),
    {
        self.deadline_nanos
    }

    /// Decides what to do on a wake-up: at a boundary, refill and move on to
    /// the next boundary; on a termination signal, exit.
    pub fn on_wake(&mut self, wake: Wake) -> (r: WorkerAction)
        ensures
            r == action_spec(wake),
            final(self).window_spec() == old(self).window_spec(),
            final(self).deadline_spec() == (match wake {
                Wake::Deadline => next_deadline_spec(
                    old(self).deadline_spec(),
                    old(self).window_spec(),
                ),
                Wake::Terminate => old(self).deadline_spec(),
            }),
    {
        match wake {
            Wake::Deadline => {
                if self.deadline_nanos <= u64::MAX - self.window_nanos {
                    self.deadline_nanos = self.deadline_nanos + self.window_nanos;
                } else {
                    self.deadline_nanos = u64::MAX;
                }
                WorkerAction::Refill
            },
            Wake::Terminate => WorkerAction::Exit,
        }
    }
}

/// The phase after the owner asks the worker to stop.
pub open spec fn stop_spec(phase: WorkerPhase) -> WorkerPhase {
    match phase {
        WorkerPhase::Running => WorkerPhase::Terminating,
        _ => phase,
    }
}

/// The phase after the owner has joined the worker.
pub open spec fn joined_spec(phase: WorkerPhase) -> WorkerPhase {
    match phase {
        WorkerPhase::Terminating => WorkerPhase::Joined,
        _ => phase,
    }
}

/// The owner's record of its background worker, shared by the limiter's
/// clones: the worker is signalled once and joined once, whichever clone
/// tears it down first.
pub struct WorkerLifecycle {
    phase: WorkerPhase,
}

impl WorkerLifecycle {
    pub closed spec fn phase_spec(&self) -> WorkerPhase {
        self.phase
    }

    /// The record of a worker that was just started.
    pub fn new() -> (r: Self)
        ensures
            r.phase_spec() == WorkerPhase::Running,
    {
        WorkerLifecycle { phase: WorkerPhase::Running }
    }

    pub fn phase(&self) -> (r: WorkerPhase)
        ensures
            r == self.phase_spec(),
    {
        self.phase
    }

    /// Starts tearing the worker down. Returns whether the caller must send
    /// the termination signal and join the worker: only the first call does.
    pub fn request_stop(&mut self) -> (signal: bool)
        ensures
            signal == (old(self).phase_spec() == WorkerPhase::Running),
            final(self).phase_spec() == stop_spec(old(self).phase_spec()),
    {
        match self.phase {
            WorkerPhase::Running => {
                self.phase = WorkerPhase::Terminating;
                true
            },
            _ => false,
        }
    }

    /// Records that the worker, told to stop, has returned and been joined.
    pub fn mark_joined(&mut self)
        ensures
            final(self).phase_spec() == joined_spec(old(self).phase_spec()),
    {
        match self.phase {
            WorkerPhase::Terminating => {
                self.phase = WorkerPhase::Joined;
            },
            _ => {},
        }
    }
}

/// How many wake-ups a worker handles: it handles each one in turn and
/// stops after the first termination signal.
pub open spec fn wakes_handled(wakes: Seq<Wake>) -> nat
    decreases wakes.len(),
{
    if wakes.len() == 0 {
        0
    } else if action_spec(wakes[0]) == WorkerAction::Exit {
        1
    } else {
        1 + wakes_handled(wakes.drop_first())
    }
}

/// Stopping a running worker reaches `Joined` with one signal and one join,
/// and any later teardown sends no second signal. The worker handles no
/// wake-up after the signal: if the first signal is its `k`-th wake-up, it
/// returns after `k + 1` of them, whatever its schedule.
pub proof fn lemma_stop_ends_worker(phase: WorkerPhase, wakes: Seq<Wake>, k: int)
    requires
        phase == WorkerPhase::Running,
        0 <= k < wakes.len(),
        wakes[k] == Wake::Terminate,
        forall|i: int| 0 <= i < k ==> wakes[i] == Wake::Deadline,
    ensures
        stop_spec(phase) == WorkerPhase::Terminating,
        joined_spec(stop_spec(phase)) == WorkerPhase::Joined,
        stop_spec(joined_spec(stop_spec(phase))) == WorkerPhase::Joined,
        wakes_handled(wakes) == k + 1,
    decreases k,
{
    if k > 0 {
        let rest = wakes.drop_first();
        assert(rest[k - 1] == wakes[k]);
        assert forall|i: int| 0 <= i < k - 1 implies rest[i] == Wake::Deadline by {
            assert(rest[i] == wakes[i + 1]);
        }
        lemma_stop_ends_worker(phase, rest, k - 1);
    }
}

/// Tearing down a limiter that never served a request leaves its worker
/// joined: a fresh worker is running, and one stop followed by one join
/// ends it, whatever clone asks.
pub proof fn lemma_idle_teardown_joins()
    ensures
        joined_spec(stop_spec(WorkerPhase::Running)) == WorkerPhase::Joined,
        forall|p: WorkerPhase| #[trigger] stop_spec(p) != WorkerPhase::Running,
{
}

} // verus!
