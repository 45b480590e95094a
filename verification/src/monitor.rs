//! The monitor of one running child: what to do when it wakes, and what a poll
//! of the child means.

use crate::lifecycle::{ExitStatus, Polled, Runtime, GRACEFUL_TIMEOUT_MS, MONITOR_POLL_MS};
use crate::units::Service;
use vstd::prelude::*;

verus! {

/// What the monitor reports.
#[derive(Debug, Clone, Copy, PartialEq, Eq, Structural)]
pub enum MonitorEvent {
    /// The monitor starts an iteration; `cancelled` is the cancellation flag as
    /// it was read.
    Woke { cancelled: bool },
    /// The child was polled.
    Polled(Polled),
}

/// What the monitor has to do next.
#[derive(Debug, Clone, Copy, PartialEq, Eq, Structural)]
pub enum MonitorStep {
    /// Wait `grace_ms`, kill the process, lower the cancellation flag, then poll
    /// the child and report what was found.
    Terminate { pid: u32, grace_ms: u64 },
    /// Poll the child now and report what was found.
    Poll,
    /// Sleep this long, then start the next iteration.
    Sleep { ms: u64 },
    /// The monitor ends.
    Finished,
}

/// The monitor's next step, for a service in state `r`.
pub open spec fn monitor_step(r: Runtime, event: MonitorEvent) -> MonitorStep {
    match event {
        MonitorEvent::Woke { cancelled } => match r.pid() {
            Some(pid) if cancelled => MonitorStep::Terminate { pid, grace_ms: GRACEFUL_TIMEOUT_MS },
            _ => MonitorStep::Poll,
        },
        MonitorEvent::Polled(Polled::Alive) => MonitorStep::Sleep { ms: MONITOR_POLL_MS },
        MonitorEvent::Polled(_) => MonitorStep::Finished,
    }
}

/// The state of the service after the monitor's report.
pub open spec fn monitor_state(r: Runtime, event: MonitorEvent) -> Runtime {
    match event {
        MonitorEvent::Woke { .. } => r,
        MonitorEvent::Polled(polled) => r.monitored(polled),
    }
}

/// One decision of the monitor. An exit is recorded and stops the service; a
/// child that is alive is polled again after a pause; a poll that failed ends
/// the monitor and changes nothing. A monitor that was cancelled orders the
/// child killed once the grace has passed.
pub fn monitor_proc(service: &mut Service, event: MonitorEvent) -> (step: MonitorStep)
    ensures
        final(service).same_definition(old(service)),
        final(service).runtime@ == monitor_state(old(service).runtime@, event),
        final(service).runtime@.consistent(),
        step == monitor_step(old(service).runtime@, event),
{
    match event {
        MonitorEvent::Woke { cancelled } => {
            match service.pid() {
                Some(pid) => {
                    if cancelled {
                        MonitorStep::Terminate { pid, grace_ms: GRACEFUL_TIMEOUT_MS }
                    } else {
                        MonitorStep::Poll
                    }
                },
                None => MonitorStep::Poll,
            }
        },
        MonitorEvent::Polled(polled) => {
            service.monitored(polled);
            match polled {
                Polled::Alive => MonitorStep::Sleep { ms: MONITOR_POLL_MS },
                _ => MonitorStep::Finished,
            }
        },
    }
}

/// After cancellation the monitor ends and no child is left: a cancelled
/// monitor of a running child orders it killed after the grace, and the poll
/// that finds the exit ends the monitor with the service stopped, its child
/// gone and the exit recorded.
pub proof fn lemma_cancelled_monitor_ends(r: Runtime, pid: u32, status: ExitStatus)
    requires
        r.consistent(),
        r.pid() == Some(pid),
    ensures
        monitor_step(r, MonitorEvent::Woke { cancelled: true }) == (MonitorStep::Terminate {
            pid,
            grace_ms: GRACEFUL_TIMEOUT_MS,
        }),
        monitor_state(r, MonitorEvent::Woke { cancelled: true }) == r,
        monitor_step(r, MonitorEvent::Polled(Polled::Exited(status))) == MonitorStep::Finished,
        monitor_state(r, MonitorEvent::Polled(Polled::Exited(status))).child is None,
        monitor_state(r, MonitorEvent::Polled(Polled::Exited(status))).state is Stopped,
        monitor_state(r, MonitorEvent::Polled(Polled::Exited(status))).exit_status == Some(status),
{
}

} // verus!
