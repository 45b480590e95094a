//! The supervisor: what each message does to the registry, and when a service
//! whose child has exited is started again.

use crate::lifecycle::{ExitStatus, Runtime, StartError, StopStep};
use crate::signals::Message;
use crate::text::texts;
use crate::units::{all_consistent, lookup, AllUnits, RestartMethod, Service, Unit};
use vstd::prelude::*;

verus! {

/// What the supervisor's caller has to do after a message was handled.
#[derive(Debug)]
pub enum Order {
    /// The message named no unit: it is dropped.
    Unknown,
    /// Spawn this command for the unit at `index`, and report with `spawned`.
    Spawn { index: usize, argv: Vec<String> },
    /// The unit at `index` could not be started.
    Refused { index: usize, error: StartError },
    /// Carry on stopping the unit at `index` from this step.
    Stop { index: usize, step: StopStep },
    /// Carry on stopping the unit at `index` from this step; once it has
    /// stopped, start it.
    Restart { index: usize, step: StopStep },
    /// Leave the loop.
    Shutdown,
}

/// The registry `after` is `before` but for the service of the unit at `index`.
pub open spec fn only_service_changed(before: Seq<Unit>, after: Seq<Unit>, index: int) -> bool {
    &&& after.len() == before.len()
    &&& 0 <= index < before.len()
    &&& after[index].same_description(&before[index])
    &&& after[index].service.same_definition(&before[index].service)
    &&& forall|j: int| 0 <= j < before.len() && j != index ==> after[j] == before[j]
}

/// `order` is the answer to a start of the service `before`, which is the unit
/// at `index`.
pub open spec fn answers_start(order: Order, index: int, before: Service) -> bool {
    match before.runtime@.start_error(before.argv().len() > 0) {
        None => order matches Order::Spawn { index: i, argv } && i == index && texts(argv@)
            == before.argv(),
        Some(e) => order == (Order::Refused { index: index as usize, error: e }),
    }
}

/// The first step of a stop, for a service in state `r`.
pub open spec fn stop_step(r: Runtime) -> StopStep {
    match r.pid() {
        Some(pid) if r.state is Running => StopStep::Interrupt { pid },
        _ => StopStep::Idle,
    }
}

/// Whether a service with this policy is started again after its child ended
/// with `exit`: always, never, or only after an exit code other than zero.
/// A child that a signal killed, or of which no exit is known, did not fail.
pub open spec fn restarts(policy: RestartMethod, exit: Option<ExitStatus>) -> bool {
    match policy {
        RestartMethod::Never => false,
        RestartMethod::Always => true,
        RestartMethod::OnFailure => match exit {
            Some(ExitStatus::Code(code)) => code != 0,
            _ => false,
        },
    }
}

/// Whether a service with this policy is started again after its child ended
/// with `exit`.
pub fn should_restart(policy: RestartMethod, exit: Option<ExitStatus>) -> (r: bool)
    ensures
        r == restarts(policy, exit),
{
    match policy {
        RestartMethod::Never => false,
        RestartMethod::Always => true,
        RestartMethod::OnFailure => match exit {
            Some(ExitStatus::Code(code)) => code != 0,
            _ => false,
        },
    }
}

/// After the monitor of a service has ended: starts the service again where its
/// policy asks for it, and leaves it alone where it does not. `Some` holds the
/// answer of the start.
pub fn reconcile(service: &mut Service) -> (r: Option<Result<Vec<String>, StartError>>)
    ensures
        final(service).same_definition(old(service)),
        final(service).runtime@.consistent(),
        restarts(old(service).restart_policy, old(service).runtime@.exit_status) ==> {
            &&& final(service).runtime@ == old(service).runtime@.begin_start(
                old(service).argv().len() > 0,
            )
            &&& match r {
                Some(Ok(argv)) => {
                    &&& old(service).runtime@.start_error(old(service).argv().len() > 0) is None
                    &&& texts(argv@) == old(service).argv()
                },
                Some(Err(e)) => old(service).runtime@.start_error(old(service).argv().len() > 0)
                    == Some(e),
                None => false,
            }
        },
        !restarts(old(service).restart_policy, old(service).runtime@.exit_status) ==> {
            &&& r is None
            &&& final(service).runtime@ == old(service).runtime@
        },
{
    let snapshot = service.snapshot();
    if should_restart(service.restart_policy, snapshot.exit_status) {
        Some(service.start())
    } else {
        None
    }
}

/// Starts the unit at `index`.
fn start_unit(registry: &mut AllUnits, index: usize) -> (order: Order)
    requires
        index < old(registry)@.len(),
    ensures
        only_service_changed(old(registry)@, final(registry)@, index as int),
        final(registry)@[index as int].service.runtime@ == old(registry)@[index as int].service.runtime@.begin_start(
            old(registry)@[index as int].service.argv().len() > 0,
        ),
        answers_start(order, index as int, old(registry)@[index as int].service),
        final(registry)@[index as int].service.runtime@.consistent(),
{
    let service = registry.service_mut(index);
    match service.start() {
        Ok(argv) => Order::Spawn { index, argv },
        Err(error) => Order::Refused { index, error },
    }
}

/// Handles one message. A message that names no unit changes nothing; `Start`
/// asks the unit's service for a start, `Stop` for a stop; `Restart` asks for a
/// stop and, where there is nothing to stop, for a start at once; `Shutdown`
/// changes nothing and ends the loop. Only the service of the unit that the
/// message names can change.
pub fn supervise(registry: &mut AllUnits, msg: &Message) -> (order: Order)
    ensures
        all_consistent(old(registry)@) ==> all_consistent(final(registry)@),
        match *msg {
            Message::Shutdown => order == Order::Shutdown && final(registry)@ == old(registry)@,
            Message::Start(name) => match lookup(old(registry)@, name@) {
                None => order == Order::Unknown && final(registry)@ == old(registry)@,
                Some(i) => {
                    &&& only_service_changed(old(registry)@, final(registry)@, i)
                    &&& final(registry)@[i].service.runtime@ == old(
                        registry,
                    )@[i].service.runtime@.begin_start(old(registry)@[i].service.argv().len() > 0)
                    &&& answers_start(order, i, old(registry)@[i].service)
                },
            },
            Message::Stop(name) => match lookup(old(registry)@, name@) {
                None => order == Order::Unknown && final(registry)@ == old(registry)@,
                Some(i) => {
                    &&& only_service_changed(old(registry)@, final(registry)@, i)
                    &&& final(registry)@[i].service.runtime@ == old(
                        registry,
                    )@[i].service.runtime@.begin_stop()
                    &&& order == (Order::Stop {
                        index: i as usize,
                        step: stop_step(old(registry)@[i].service.runtime@),
                    })
                },
            },
            Message::Restart(name) => match lookup(old(registry)@, name@) {
                None => order == Order::Unknown && final(registry)@ == old(registry)@,
                Some(i) => {
                    &&& only_service_changed(old(registry)@, final(registry)@, i)
                    &&& if old(registry)@[i].service.runtime@.state is Running {
                        &&& final(registry)@[i].service.runtime@ == old(
                            registry,
                        )@[i].service.runtime@.begin_stop()
                        &&& order == (Order::Restart {
                            index: i as usize,
                            step: stop_step(old(registry)@[i].service.runtime@),
                        })
                    } else {
                        &&& final(registry)@[i].service.runtime@ == old(
                            registry,
                        )@[i].service.runtime@.begin_start(
                            old(registry)@[i].service.argv().len() > 0,
                        )
                        &&& answers_start(order, i, old(registry)@[i].service)
                    }
                },
            },
        },
{
    match msg {
        Message::Shutdown => Order::Shutdown,
        Message::Start(name) => {
            match registry.find(name.as_str()) {
                Some(index) => start_unit(registry, index),
                None => Order::Unknown,
            }
        },
        Message::Stop(name) => {
            match registry.find(name.as_str()) {
                Some(index) => {
                    let service = registry.service_mut(index);
                    let step = service.stop();
                    Order::Stop { index, step }
                },
                None => Order::Unknown,
            }
        },
        Message::Restart(name) => {
            match registry.find(name.as_str()) {
                Some(index) => {
                    let service = registry.service_mut(index);
                    let step = service.stop();
                    match step {
                        StopStep::Idle => start_unit(registry, index),
                        _ => Order::Restart { index, step },
                    }
                },
                None => Order::Unknown,
            }
        },
    }
}

} // verus!
