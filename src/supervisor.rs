use vstd::prelude::*;

verus! {

/// How long a process is given to stop after it was asked to: two seconds.
pub const TERMINATE_TIMEOUT_MS: u64 = 2000;

/// How often a stopping process is looked at: every 200 milliseconds.
pub const POLL_INTERVAL_MS: u64 = 200;

/// Where the supervised process is in its life.
#[derive(Clone, Copy, Debug, PartialEq, Eq, Structural)]
pub enum ProcessState {
    NotStarted,
    Running,
    /// Asked to stop at the given time, in milliseconds.
    Terminating { since_ms: u64 },
    Stopped,
}

/// What the caller does next to the process.
#[derive(Clone, Copy, Debug, PartialEq, Eq, Structural)]
pub enum SupervisorAction {
    /// Nothing is to be done.
    Nothing,
    /// Ask the process to stop (a termination signal), then poll it.
    Signal,
    /// Wait this long, then poll the process again.
    Sleep { millis: u64 },
    /// Kill the process and wait for it to end.
    Kill,
}

/// Milliseconds from `start` to `now`; zero when `now` is earlier.
pub open spec fn elapsed(start: u64, now: u64) -> u64 {
    if now >= start {
        (now - start) as u64
    } else {
        0
    }
}

/// Whole milliseconds elapsed from `start` to `now`, or zero when `now` is earlier.
pub fn elapsed_since(start: u64, now: u64) -> (r: u64)
    ensures
        r == elapsed(start, now),
{
    if now >= start {
        now - start
    } else {
        0
    }
}

/// Owns the one slot of the supervised process: asks it to stop, waits a
/// while, then insists.
pub struct Supervisor {
    pub state: ProcessState,
    /// Whether the platform can ask a process to stop before killing it.
    pub graceful: bool,
    pub timeout_ms: u64,
    pub poll_ms: u64,
}

/// The state and action after a request to stop the process at `now`.
pub open spec fn terminate_step(s: ProcessState, graceful: bool, now: u64) -> (
    ProcessState,
    SupervisorAction,
) {
    match s {
        ProcessState::Running => if graceful {
            (ProcessState::Terminating { since_ms: now }, SupervisorAction::Signal)
        } else {
            (ProcessState::Stopped, SupervisorAction::Kill)
        },
        _ => (s, SupervisorAction::Nothing),
    }
}

/// The state and action after looking at a stopping process at `now`.
pub open spec fn poll_step(
    s: ProcessState,
    exited: bool,
    now: u64,
    timeout_ms: u64,
    poll_ms: u64,
) -> (ProcessState, SupervisorAction) {
    match s {
        ProcessState::Terminating { since_ms } => if exited {
            (ProcessState::Stopped, SupervisorAction::Nothing)
        } else if elapsed(since_ms, now) >= timeout_ms {
            (ProcessState::Stopped, SupervisorAction::Kill)
        } else {
            (s, SupervisorAction::Sleep { millis: poll_ms })
        },
        _ => (s, SupervisorAction::Nothing),
    }
}

impl Supervisor {
    /// A supervisor with no process yet, the default timeout and poll
    /// interval.
    pub fn new(graceful: bool) -> (r: Supervisor)
        ensures
            r.state == ProcessState::NotStarted,
            r.graceful == graceful,
            r.timeout_ms == TERMINATE_TIMEOUT_MS,
            r.poll_ms == POLL_INTERVAL_MS,
    {
        Supervisor {
            state: ProcessState::NotStarted,
            graceful,
            timeout_ms: TERMINATE_TIMEOUT_MS,
            poll_ms: POLL_INTERVAL_MS,
        }
    }

    /// Whether a new process may be started: only when none is alive.
    pub fn may_spawn(&self) -> (r: bool)
        ensures
            r == (self.state == ProcessState::NotStarted || self.state == ProcessState::Stopped),
    {
        match self.state {
            ProcessState::NotStarted => true,
            ProcessState::Stopped => true,
            _ => false,
        }
    }

    /// Records that a new process was started.
    pub fn spawned(&mut self)
        requires
            old(self).state == ProcessState::NotStarted || old(self).state == ProcessState::Stopped,
        ensures
            final(self).state == ProcessState::Running,
            final(self).graceful == old(self).graceful,
            final(self).timeout_ms == old(self).timeout_ms,
            final(self).poll_ms == old(self).poll_ms,
    {
        self.state = ProcessState::Running;
    }

    /// Asks the running process to stop at `now`: by a signal where the
    /// platform allows it, else by killing it. Nothing is done to a process
    /// that is not running.
    pub fn terminate(&mut self, now: u64) -> (r: SupervisorAction)
        ensures
            (final(self).state, r) == terminate_step(old(self).state, old(self).graceful, now),
            final(self).graceful == old(self).graceful,
            final(self).timeout_ms == old(self).timeout_ms,
            final(self).poll_ms == old(self).poll_ms,
    {
        match self.state {
            ProcessState::Running => {
                if self.graceful {
                    self.state = ProcessState::Terminating { since_ms: now };
                    SupervisorAction::Signal
                } else {
                    self.state = ProcessState::Stopped;
                    SupervisorAction::Kill
                }
            },
            _ => SupervisorAction::Nothing,
        }
    }

    /// Takes in whether the stopping process has `exited`, looked at `now`:
    /// once it has, it is stopped; past the timeout it is to be killed;
    /// before, it is looked at again after the poll interval.
    pub fn poll(&mut self, exited: bool, now: u64) -> (r: SupervisorAction)
        ensures
            (final(self).state, r) == poll_step(
                old(self).state,
                exited,
                now,
                old(self).timeout_ms,
                old(self).poll_ms,
            ),
            final(self).graceful == old(self).graceful,
            final(self).timeout_ms == old(self).timeout_ms,
            final(self).poll_ms == old(self).poll_ms,
    {
        match self.state {
            ProcessState::Terminating { since_ms } => {
                if exited {
                    self.state = ProcessState::Stopped;
                    SupervisorAction::Nothing
                } else if elapsed_since(since_ms, now) >= self.timeout_ms {
                    self.state = ProcessState::Stopped;
                    SupervisorAction::Kill
                } else {
                    SupervisorAction::Sleep { millis: self.poll_ms }
                }
            },
            _ => SupervisorAction::Nothing,
        }
    }
}

/// Stopping is bounded: a stopping process looked at once the timeout has
/// passed since it was asked to stop is stopped (killed if it had not
/// exited); the caller is told to wait only before the timeout. Asking a
/// process that is already stopped to stop changes nothing and does nothing.
pub proof fn lemma_terminate_bounded(
    since_ms: u64,
    exited: bool,
    now: u64,
    timeout_ms: u64,
    poll_ms: u64,
    graceful: bool,
    later: u64,
)
    ensures
        now >= since_ms + timeout_ms ==> poll_step(
            ProcessState::Terminating { since_ms },
            exited,
            now,
            timeout_ms,
            poll_ms,
        ).0 == ProcessState::Stopped,
        poll_step(ProcessState::Terminating { since_ms }, exited, now, timeout_ms, poll_ms).1
            is Sleep ==> now < since_ms + timeout_ms,
        terminate_step(ProcessState::Stopped, graceful, later) == (
            ProcessState::Stopped,
            SupervisorAction::Nothing,
        ),
{
}

} // verus!
