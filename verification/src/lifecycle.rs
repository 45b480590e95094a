//! The lifecycle of one service: its phase, its child and its last exit, and the
//! transitions between them.
//!
//! The library never touches a process. Each operation is a decision: it takes what
//! the caller observed (a spawn that succeeded, a signal that failed, a poll of the
//! child), moves the state, and answers with what the caller has to do next.

use vstd::prelude::*;

verus! {

/// How long a child is given to exit after the graceful signal, in milliseconds.
pub const GRACEFUL_TIMEOUT_MS: u64 = 10_000;

/// The pause between two polls of a child that was asked to stop: a tenth of the
/// graceful timeout.
pub const STOP_POLL_MS: u64 = 1_000;

/// The pause between two polls of a running child.
pub const MONITOR_POLL_MS: u64 = 30;

/// The phase a service is in.
#[derive(Debug, Clone, Copy, PartialEq, Eq, Structural)]
pub enum CurrState {
    Stopping,
    Stopped,
    Starting,
    Running,
    Failed,
    Restarting,
}

/// How a child ended: with an exit code, or killed by a signal.
#[derive(Debug, Clone, Copy, PartialEq, Eq, Structural)]
pub enum ExitStatus {
    Code(i32),
    Signal(i32),
}

/// The child of a service: one whose spawn was ordered and has not been answered
/// yet, or a process with its id.
#[derive(Debug, Clone, Copy, PartialEq, Eq, Structural)]
pub enum ChildHandle {
    Pending,
    Pid(u32),
}

/// What a non-blocking poll of a child found.
#[derive(Debug, Clone, Copy, PartialEq, Eq, Structural)]
pub enum Polled {
    /// The child has exited.
    Exited(ExitStatus),
    /// The child is still running.
    Alive,
    /// The poll itself failed.
    Error,
}

/// Why a signal could not be delivered.
#[derive(Debug, Clone, Copy, PartialEq, Eq, Structural)]
pub enum SignalError {
    InvalidSignal,
    NoPermission,
    NoSuchProcess,
    Other,
}

/// Why a start was refused.
#[derive(Debug, Clone, Copy, PartialEq, Eq, Structural)]
pub enum StartError {
    /// The service already holds a child; nothing was changed.
    AlreadyRunning,
    /// The command line holds no word; the service is now `Failed`.
    EmptyCommand,
}

/// What the caller has to do next while a service is being stopped.
#[derive(Debug, Clone, Copy, PartialEq, Eq, Structural)]
pub enum StopStep {
    /// Nothing: the service was not running, or the report did not fit its phase.
    Idle,
    /// Send the graceful signal to this process and report how that went.
    Interrupt { pid: u32 },
    /// Poll the child now and report what was found.
    Poll,
    /// Sleep this long, then poll the child and report what was found.
    Sleep { ms: u64 },
    /// Kill this process, reap it, and report its exit.
    Kill { pid: u32 },
    /// The service is stopped.
    Finished,
}

impl CurrState {
    /// The phases in which a service has a child.
    pub open spec fn holds_child(self) -> bool {
        self is Starting || self is Running || self is Stopping
    }
}

/// The mutable part of a service, as plain values.
#[derive(Debug, Clone, Copy, PartialEq, Eq, Structural)]
pub struct Runtime {
    pub state: CurrState,
    pub child: Option<ChildHandle>,
    pub exit_status: Option<ExitStatus>,
}

impl Runtime {
    /// A child is held exactly in the phases `Starting`, `Running` and `Stopping`,
    /// and it is still pending exactly in `Starting`.
    pub open spec fn consistent(self) -> bool {
        &&& self.child is Some <==> self.state.holds_child()
        &&& self.child == Some(ChildHandle::Pending) <==> self.state is Starting
    }

    /// A service that was never started.
    pub open spec fn initial() -> Runtime {
        Runtime { state: CurrState::Stopped, child: None, exit_status: None }
    }

    /// The id of the child process, once it is known.
    pub open spec fn pid(self) -> Option<u32> {
        match self.child {
            Some(ChildHandle::Pid(p)) => Some(p),
            _ => None,
        }
    }

    /// The child is gone: the slot is empty and the phase is `Stopped`. A status
    /// that was observed replaces the last one.
    pub open spec fn stopped(self, status: Option<ExitStatus>) -> Runtime {
        Runtime {
            state: CurrState::Stopped,
            child: None,
            exit_status: if status is Some {
                status
            } else {
                self.exit_status
            },
        }
    }

    /// A start is asked for. With a child in place nothing changes; without a
    /// command the service fails; else a spawn is pending.
    pub open spec fn begin_start(self, has_command: bool) -> Runtime {
        if self.child is Some {
            self
        } else if !has_command {
            Runtime { state: CurrState::Failed, child: None, exit_status: None }
        } else {
            Runtime { state: CurrState::Starting, child: Some(ChildHandle::Pending), ..self }
        }
    }

    /// Why a start is refused, if it is.
    pub open spec fn start_error(self, has_command: bool) -> Option<StartError> {
        if self.child is Some {
            Some(StartError::AlreadyRunning)
        } else if !has_command {
            Some(StartError::EmptyCommand)
        } else {
            None
        }
    }

    /// The answer to a pending spawn: the process id, or nothing if it failed.
    pub open spec fn spawned(self, outcome: Option<u32>) -> Runtime {
        if self.state is Starting {
            match outcome {
                Some(pid) => Runtime {
                    state: CurrState::Running,
                    child: Some(ChildHandle::Pid(pid)),
                    ..self
                },
                None => Runtime { state: CurrState::Failed, child: None, exit_status: None },
            }
        } else {
            self
        }
    }

    /// A stop is asked for: a running service starts stopping, any other stays.
    pub open spec fn begin_stop(self) -> Runtime {
        if self.state is Running {
            Runtime { state: CurrState::Stopping, ..self }
        } else {
            self
        }
    }

    /// The answer to the graceful signal. A process that does not exist any more,
    /// or an error of no known kind, ends the stop at once.
    pub open spec fn interrupted(self, result: Result<(), SignalError>) -> Runtime {
        if self.state is Stopping && (result == Err::<(), SignalError>(SignalError::NoSuchProcess)
            || result == Err::<(), SignalError>(SignalError::Other)) {
            self.stopped(None)
        } else {
            self
        }
    }

    /// What a poll found while stopping. An exit is recorded; a failed poll ends
    /// the stop without a status.
    pub open spec fn stop_polled(self, polled: Polled) -> Runtime {
        if self.state is Stopping {
            match polled {
                Polled::Exited(status) => self.stopped(Some(status)),
                Polled::Alive => self,
                Polled::Error => self.stopped(None),
            }
        } else {
            self
        }
    }

    /// The child was killed and reaped.
    pub open spec fn killed(self, status: Option<ExitStatus>) -> Runtime {
        if self.pid() is Some {
            self.stopped(status)
        } else {
            self
        }
    }

    /// What the monitor's poll found. Only an exit changes the state.
    pub open spec fn monitored(self, polled: Polled) -> Runtime {
        match polled {
            Polled::Exited(status) => if self.pid() is Some {
                self.stopped(Some(status))
            } else {
                self
            },
            _ => self,
        }
    }
}

/// How long to sleep before the next poll of a child that was asked to stop
/// `elapsed_ms` ago: the poll interval, cut short at the deadline.
pub open spec fn stop_sleep_ms(elapsed_ms: u64) -> u64 {
    if elapsed_ms + STOP_POLL_MS <= GRACEFUL_TIMEOUT_MS {
        STOP_POLL_MS
    } else if elapsed_ms < GRACEFUL_TIMEOUT_MS {
        (GRACEFUL_TIMEOUT_MS - elapsed_ms) as u64
    } else {
        0
    }
}

/// The step after the graceful signal was tried, for a service that is stopping
/// the process `pid`.
pub open spec fn step_after_interrupt(pid: u32, result: Result<(), SignalError>) -> StopStep {
    match result {
        Ok(_) => StopStep::Poll,
        Err(SignalError::InvalidSignal) => StopStep::Kill { pid },
        Err(SignalError::NoPermission) => StopStep::Poll,
        Err(SignalError::NoSuchProcess) => StopStep::Finished,
        Err(SignalError::Other) => StopStep::Finished,
    }
}

/// The step after a poll, `elapsed_ms` after the graceful signal, for a service
/// that is stopping the process `pid`.
pub open spec fn step_after_poll(pid: u32, elapsed_ms: u64, polled: Polled) -> StopStep {
    match polled {
        Polled::Exited(_) => StopStep::Finished,
        Polled::Error => StopStep::Finished,
        Polled::Alive => if elapsed_ms >= GRACEFUL_TIMEOUT_MS {
            StopStep::Kill { pid }
        } else {
            StopStep::Sleep { ms: stop_sleep_ms(elapsed_ms) }
        },
    }
}

/// The guarded state of one service. Every value of this type is consistent.
#[derive(Debug, Clone, Copy)]
pub struct Lifecycle {
    inner: Runtime,
}

impl View for Lifecycle {
    type V = Runtime;

    closed spec fn view(&self) -> Runtime {
        self.inner
    }
}

impl Lifecycle {
    #[verifier::type_invariant]
    spec fn inv(self) -> bool {
        self.inner.consistent()
    }

    /// The state of a service that was never started.
    pub fn new() -> (l: Lifecycle)
        ensures
            l@ == Runtime::initial(),
            l@.consistent(),
    {
        Lifecycle { inner: Runtime { state: CurrState::Stopped, child: None, exit_status: None } }
    }

    /// The state as plain values. It is consistent, whatever happened before.
    pub fn snapshot(&self) -> (r: Runtime)
        ensures
            r == self@,
            r.consistent(),
    {
        proof {
            use_type_invariant(self);
        }
        self.inner
    }

    /// The current phase.
    pub fn state(&self) -> (s: CurrState)
        ensures
            s == self@.state,
    {
        self.inner.state
    }

    /// The child's process id, if it is known.
    pub fn pid(&self) -> (p: Option<u32>)
        ensures
            p == self@.pid(),
            p is Some <==> (self@.state is Running || self@.state is Stopping),
            self@.consistent(),
    {
        proof {
            use_type_invariant(self);
        }
        match self.inner.child {
            Some(ChildHandle::Pid(p)) => Some(p),
            _ => None,
        }
    }

    /// Whether a child is held, pending or running.
    pub fn has_child(&self) -> (b: bool)
        ensures
            b == (self@.child is Some),
            b == self@.state.holds_child(),
            self@.consistent(),
    {
        proof {
            use_type_invariant(self);
        }
        self.inner.child.is_some()
    }

    /// The last exit that was observed.
    pub fn exit_status(&self) -> (e: Option<ExitStatus>)
        ensures
            e == self@.exit_status,
    {
        self.inner.exit_status
    }

    /// Asks for a start. The answer is `true` exactly when a spawn is now pending
    /// and the caller has to spawn the child.
    pub fn begin_start(&mut self, has_command: bool) -> (spawn: bool)
        ensures
            final(self)@ == old(self)@.begin_start(has_command),
            final(self)@.consistent(),
            spawn == (old(self)@.child is None && has_command),
            spawn ==> final(self)@.child == Some(ChildHandle::Pending),
    {
        proof {
            use_type_invariant(&*self);
        }
        if self.inner.child.is_some() {
            false
        } else if !has_command {
            self.inner = Runtime { state: CurrState::Failed, child: None, exit_status: None };
            false
        } else {
            self.inner = Runtime {
                state: CurrState::Starting,
                child: Some(ChildHandle::Pending),
                exit_status: self.inner.exit_status,
            };
            true
        }
    }

    /// Takes the answer to a pending spawn. The answer is `true` exactly when a
    /// spawn was pending; else the state is unchanged and the caller holds a
    /// process that the service does not know.
    pub fn spawned(&mut self, outcome: Option<u32>) -> (accepted: bool)
        ensures
            final(self)@ == old(self)@.spawned(outcome),
            final(self)@.consistent(),
            accepted == (old(self)@.state is Starting),
    {
        proof {
            use_type_invariant(&*self);
        }
        match self.inner.state {
            CurrState::Starting => {
                match outcome {
                    Some(pid) => {
                        self.inner = Runtime {
                            state: CurrState::Running,
                            child: Some(ChildHandle::Pid(pid)),
                            exit_status: self.inner.exit_status,
                        };
                    },
                    None => {
                        self.inner = Runtime {
                            state: CurrState::Failed,
                            child: None,
                            exit_status: None,
                        };
                    },
                }
                true
            },
            _ => false,
        }
    }

    /// Asks for a stop.
    pub fn begin_stop(&mut self) -> (step: StopStep)
        ensures
            final(self)@ == old(self)@.begin_stop(),
            final(self)@.consistent(),
            step == (match old(self)@.pid() {
                Some(pid) if old(self)@.state is Running => StopStep::Interrupt { pid },
                _ => StopStep::Idle,
            }),
    {
        proof {
            use_type_invariant(&*self);
        }
        match (self.inner.state, self.inner.child) {
            (CurrState::Running, Some(ChildHandle::Pid(pid))) => {
                self.inner = Runtime {
                    state: CurrState::Stopping,
                    child: self.inner.child,
                    exit_status: self.inner.exit_status,
                };
                StopStep::Interrupt { pid }
            },
            _ => StopStep::Idle,
        }
    }

    /// Takes the answer to the graceful signal.
    pub fn interrupted(&mut self, result: Result<(), SignalError>) -> (step: StopStep)
        ensures
            final(self)@ == old(self)@.interrupted(result),
            final(self)@.consistent(),
            step == (match old(self)@.pid() {
                Some(pid) if old(self)@.state is Stopping => step_after_interrupt(pid, result),
                _ => StopStep::Idle,
            }),
    {
        proof {
            use_type_invariant(&*self);
        }
        match (self.inner.state, self.inner.child) {
            (CurrState::Stopping, Some(ChildHandle::Pid(pid))) => {
                match result {
                    Ok(_) => StopStep::Poll,
                    Err(SignalError::InvalidSignal) => StopStep::Kill { pid },
                    Err(SignalError::NoPermission) => StopStep::Poll,
                    Err(SignalError::NoSuchProcess) => {
                        self.release(None);
                        StopStep::Finished
                    },
                    Err(SignalError::Other) => {
                        self.release(None);
                        StopStep::Finished
                    },
                }
            },
            _ => StopStep::Idle,
        }
    }

    /// Takes what a poll found, `elapsed_ms` after the graceful signal.
    pub fn stop_polled(&mut self, elapsed_ms: u64, polled: Polled) -> (step: StopStep)
        ensures
            final(self)@ == old(self)@.stop_polled(polled),
            final(self)@.consistent(),
            step == (match old(self)@.pid() {
                Some(pid) if old(self)@.state is Stopping => step_after_poll(
                    pid,
                    elapsed_ms,
                    polled,
                ),
                _ => StopStep::Idle,
            }),
    {
        proof {
            use_type_invariant(&*self);
        }
        match (self.inner.state, self.inner.child) {
            (CurrState::Stopping, Some(ChildHandle::Pid(pid))) => {
                match polled {
                    Polled::Exited(status) => {
                        self.release(Some(status));
                        StopStep::Finished
                    },
                    Polled::Error => {
                        self.release(None);
                        StopStep::Finished
                    },
                    Polled::Alive => {
                        if elapsed_ms >= GRACEFUL_TIMEOUT_MS {
                            StopStep::Kill { pid }
                        } else if GRACEFUL_TIMEOUT_MS - elapsed_ms < STOP_POLL_MS {
                            StopStep::Sleep { ms: GRACEFUL_TIMEOUT_MS - elapsed_ms }
                        } else {
                            StopStep::Sleep { ms: STOP_POLL_MS }
                        }
                    },
                }
            },
            _ => StopStep::Idle,
        }
    }

    /// Records that the child was killed and reaped.
    pub fn killed(&mut self, status: Option<ExitStatus>)
        ensures
            final(self)@ == old(self)@.killed(status),
            final(self)@.consistent(),
    {
        proof {
            use_type_invariant(&*self);
        }
        match self.inner.child {
            Some(ChildHandle::Pid(_)) => {
                self.release(status);
            },
            _ => {},
        }
    }

    /// Takes what the monitor's poll found. Only an exit changes the state.
    pub fn monitored(&mut self, polled: Polled)
        ensures
            final(self)@ == old(self)@.monitored(polled),
            final(self)@.consistent(),
    {
        proof {
            use_type_invariant(&*self);
        }
        match (polled, self.inner.child) {
            (Polled::Exited(status), Some(ChildHandle::Pid(_))) => {
                self.release(Some(status));
            },
            _ => {},
        }
    }

    /// Empties the child slot.
    fn release(&mut self, status: Option<ExitStatus>)
        ensures
            final(self)@ == old(self)@.stopped(status),
    {
        let exit_status = match status {
            Some(s) => Some(s),
            None => self.inner.exit_status,
        };
        self.inner = Runtime { state: CurrState::Stopped, child: None, exit_status };
    }
}

/// One call on the state of a service, with what the caller reported in it.
pub enum Op {
    Start { has_command: bool },
    Spawned(Option<u32>),
    Stop,
    Interrupted(Result<(), SignalError>),
    StopPolled(Polled),
    Killed(Option<ExitStatus>),
    Monitored(Polled),
}

/// The state after one call.
pub open spec fn apply(r: Runtime, op: Op) -> Runtime {
    match op {
        Op::Start { has_command } => r.begin_start(has_command),
        Op::Spawned(outcome) => r.spawned(outcome),
        Op::Stop => r.begin_stop(),
        Op::Interrupted(result) => r.interrupted(result),
        Op::StopPolled(polled) => r.stop_polled(polled),
        Op::Killed(status) => r.killed(status),
        Op::Monitored(polled) => r.monitored(polled),
    }
}

/// Whether this call orders the caller to spawn a child.
pub open spec fn orders_spawn(r: Runtime, op: Op) -> bool {
    match op {
        Op::Start { has_command } => r.child is None && has_command,
        _ => false,
    }
}

/// Whether this call gives the child up.
pub open spec fn gives_up_child(r: Runtime, op: Op) -> bool {
    r.child is Some && apply(r, op).child is None
}

/// The state after a series of calls.
pub open spec fn run(r: Runtime, ops: Seq<Op>) -> Runtime
    decreases ops.len(),
{
    if ops.len() == 0 {
        r
    } else {
        apply(run(r, ops.drop_last()), ops.last())
    }
}

/// How many spawns a series of calls orders.
pub open spec fn spawns_ordered(r: Runtime, ops: Seq<Op>) -> nat
    decreases ops.len(),
{
    if ops.len() == 0 {
        0
    } else {
        spawns_ordered(r, ops.drop_last()) + if orders_spawn(run(r, ops.drop_last()), ops.last()) {
            1nat
        } else {
            0nat
        }
    }
}

/// How many children a series of calls gives up.
pub open spec fn children_given_up(r: Runtime, ops: Seq<Op>) -> nat
    decreases ops.len(),
{
    if ops.len() == 0 {
        0
    } else {
        children_given_up(r, ops.drop_last()) + if gives_up_child(
            run(r, ops.drop_last()),
            ops.last(),
        ) {
            1nat
        } else {
            0nat
        }
    }
}

/// The number of children a state holds: none or one.
pub open spec fn children_held(r: Runtime) -> nat {
    if r.child is Some {
        1
    } else {
        0
    }
}

/// Every call keeps the state consistent: a child is held exactly in the phases
/// `Starting`, `Running` and `Stopping`.
pub proof fn lemma_step_keeps_consistent(r: Runtime, op: Op)
    requires
        r.consistent(),
    ensures
        apply(r, op).consistent(),
        apply(r, op).child is Some <==> apply(r, op).state.holds_child(),
{
}

/// Every series of calls keeps the state consistent.
pub proof fn lemma_run_keeps_consistent(r: Runtime, ops: Seq<Op>)
    requires
        r.consistent(),
    ensures
        run(r, ops).consistent(),
        run(r, ops).child is Some <==> run(r, ops).state.holds_child(),
    decreases ops.len(),
{
    if ops.len() > 0 {
        lemma_run_keeps_consistent(r, ops.drop_last());
        lemma_step_keeps_consistent(run(r, ops.drop_last()), ops.last());
    }
}

/// A spawn is ordered only from a state without a child, and fills the slot; a
/// process id enters the state only as the answer to the pending spawn.
pub proof fn lemma_spawn_needs_empty_slot(r: Runtime, op: Op)
    requires
        r.consistent(),
    ensures
        orders_spawn(r, op) ==> r.child is None && apply(r, op).child == Some(
            ChildHandle::Pending,
        ),
        r.child is None && apply(r, op).child is Some ==> orders_spawn(r, op),
        apply(r, op).pid() is Some && apply(r, op).pid() != r.pid() ==> r.child == Some(
            ChildHandle::Pending,
        ) && op == Op::Spawned(apply(r, op).pid()),
{
}

/// At most one child per service: over any series of calls, the spawns ordered and
/// the child held at the start are matched one for one by the children given up
/// and the child held at the end. No spawn is ordered while one is held.
pub proof fn lemma_at_most_one_child(r: Runtime, ops: Seq<Op>)
    requires
        r.consistent(),
    ensures
        spawns_ordered(r, ops) + children_held(r) == children_given_up(r, ops) + children_held(
            run(r, ops),
        ),
        spawns_ordered(r, ops) <= children_given_up(r, ops) + 1,
    decreases ops.len(),
{
    if ops.len() > 0 {
        lemma_at_most_one_child(r, ops.drop_last());
        lemma_run_keeps_consistent(r, ops.drop_last());
        lemma_spawn_needs_empty_slot(run(r, ops.drop_last()), ops.last());
    }
}

/// While the deadline has not passed, the sleep that is ordered is not empty and
/// does not reach past the deadline; from the deadline on, a child that is still
/// alive is killed.
pub proof fn lemma_stop_sleep_within_deadline(pid: u32, elapsed_ms: u64)
    ensures
        elapsed_ms < GRACEFUL_TIMEOUT_MS ==> 0 < stop_sleep_ms(elapsed_ms) <= STOP_POLL_MS
            && elapsed_ms + stop_sleep_ms(elapsed_ms) <= GRACEFUL_TIMEOUT_MS,
        elapsed_ms < GRACEFUL_TIMEOUT_MS ==> step_after_poll(pid, elapsed_ms, Polled::Alive)
            == (StopStep::Sleep { ms: stop_sleep_ms(elapsed_ms) }),
        elapsed_ms >= GRACEFUL_TIMEOUT_MS ==> step_after_poll(pid, elapsed_ms, Polled::Alive)
            == (StopStep::Kill { pid }),
{
}

/// The times of successive polls of a child that stays alive, on a clock that does
/// not run backwards: each poll comes no earlier than the sleep before it ended.
pub open spec fn polls_follow_sleeps(elapsed: Seq<u64>) -> bool {
    forall|k: int|
        0 < k < elapsed.len() ==> if elapsed[k - 1] < GRACEFUL_TIMEOUT_MS {
            #[trigger] elapsed[k] >= elapsed[k - 1] + stop_sleep_ms(elapsed[k - 1])
        } else {
            elapsed[k] >= elapsed[k - 1]
        }
}

/// By the `k`-th poll, `k` poll intervals have passed, or the deadline has.
pub proof fn lemma_polls_advance(elapsed: Seq<u64>, k: int)
    requires
        polls_follow_sleeps(elapsed),
        0 <= k < elapsed.len(),
    ensures
        elapsed[k] >= GRACEFUL_TIMEOUT_MS || elapsed[k] >= k * STOP_POLL_MS,
    decreases k,
{
    if k > 0 {
        lemma_polls_advance(elapsed, k - 1);
        assert(elapsed[k] >= elapsed[k - 1]);
    }
}

/// Stopping is bounded: a child that ignores the graceful signal is slept on at
/// most ten times, and the poll after the tenth sleep orders the kill.
pub proof fn lemma_stop_is_bounded(pid: u32, elapsed: Seq<u64>, k: int)
    requires
        polls_follow_sleeps(elapsed),
        10 <= k < elapsed.len(),
    ensures
        step_after_poll(pid, elapsed[k], Polled::Alive) == (StopStep::Kill { pid }),
{
    lemma_polls_advance(elapsed, k);
}

} // verus!
