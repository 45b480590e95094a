use getup::lifecycle::{CurrState, ExitStatus, Polled, StartError, StopStep};
use getup::loader::{initialize, UnitSource};
use getup::signals::Message;
use getup::supervisor::{reconcile, should_restart, supervise, Order};
use getup::units::{AllUnits, RestartMethod, Service};

fn registry() -> AllUnits {
    let unit = |path: &str, command: &str| UnitSource {
        path: String::from(path),
        text: format!(
            "[Unit]\nDescription=d\n[Service]\nExecStart={}\nRestart=Never\n",
            command
        ),
    };
    initialize(&vec![
        unit("/s/sleep.service", "/bin/sleep 3600"),
        unit("/s/other.service", "/bin/cat"),
    ])
    .unwrap()
}

fn states(all: &AllUnits) -> Vec<CurrState> {
    (0..all.len()).map(|i| all.get(i).unwrap().service.status()).collect()
}

fn start(name: &str) -> Message {
    Message::Start(String::from(name))
}

fn stop(name: &str) -> Message {
    Message::Stop(String::from(name))
}

fn restart(name: &str) -> Message {
    Message::Restart(String::from(name))
}

#[test]
fn start_orders_the_spawn_of_the_named_unit() {
    let mut all = registry();
    match supervise(&mut all, &start("sleep.service")) {
        Order::Spawn { index, argv } => {
            assert_eq!(index, 0);
            assert_eq!(argv, vec!["/bin/sleep", "3600"]);
        }
        other => panic!("unexpected order {:?}", other),
    }
    assert_eq!(states(&all), vec![CurrState::Starting, CurrState::Stopped]);
    assert!(all.service_mut(0).spawned(Some(500)));
    assert_eq!(states(&all), vec![CurrState::Running, CurrState::Stopped]);
}

#[test]
fn lifecycle_through_the_supervisor() {
    let mut all = registry();
    assert!(matches!(supervise(&mut all, &start("sleep.service")), Order::Spawn { index: 0, .. }));
    all.service_mut(0).spawned(Some(500));
    assert_eq!(all.get(0).unwrap().service.status(), CurrState::Running);
    assert!(matches!(
        supervise(&mut all, &stop("sleep.service")),
        Order::Stop { index: 0, step: StopStep::Interrupt { pid: 500 } }
    ));
    assert_eq!(all.get(0).unwrap().service.status(), CurrState::Stopping);
    assert_eq!(all.service_mut(0).interrupted(Ok(())), StopStep::Poll);
    assert_eq!(
        all.service_mut(0).stop_polled(0, Polled::Exited(ExitStatus::Signal(2))),
        StopStep::Finished
    );
    assert_eq!(states(&all), vec![CurrState::Stopped, CurrState::Stopped]);
}

#[test]
fn a_second_start_is_refused() {
    let mut all = registry();
    supervise(&mut all, &start("sleep.service"));
    all.service_mut(0).spawned(Some(500));
    assert!(matches!(
        supervise(&mut all, &start("sleep.service")),
        Order::Refused { index: 0, error: StartError::AlreadyRunning }
    ));
    assert_eq!(all.get(0).unwrap().service.pid(), Some(500));
    assert_eq!(states(&all), vec![CurrState::Running, CurrState::Stopped]);
}

#[test]
fn a_message_for_an_unknown_unit_is_dropped() {
    let mut all = registry();
    supervise(&mut all, &start("other.service"));
    all.service_mut(1).spawned(Some(9));
    let before = states(&all);
    assert!(matches!(supervise(&mut all, &start("nope.service")), Order::Unknown));
    assert!(matches!(supervise(&mut all, &stop("nope.service")), Order::Unknown));
    assert!(matches!(supervise(&mut all, &restart("nope.service")), Order::Unknown));
    assert_eq!(states(&all), before);
    assert_eq!(all.get(1).unwrap().service.pid(), Some(9));
}

#[test]
fn stop_of_a_stopped_unit_does_nothing() {
    let mut all = registry();
    assert!(matches!(
        supervise(&mut all, &stop("sleep.service")),
        Order::Stop { index: 0, step: StopStep::Idle }
    ));
    assert_eq!(states(&all), vec![CurrState::Stopped, CurrState::Stopped]);
}

#[test]
fn restart_of_a_running_unit_stops_it_first() {
    let mut all = registry();
    supervise(&mut all, &start("other.service"));
    all.service_mut(1).spawned(Some(70));
    assert!(matches!(
        supervise(&mut all, &restart("other.service")),
        Order::Restart { index: 1, step: StopStep::Interrupt { pid: 70 } }
    ));
    assert_eq!(states(&all), vec![CurrState::Stopped, CurrState::Stopping]);
    all.service_mut(1).interrupted(Ok(()));
    all.service_mut(1).stop_polled(0, Polled::Exited(ExitStatus::Code(0)));
    assert_eq!(states(&all), vec![CurrState::Stopped, CurrState::Stopped]);
    match supervise(&mut all, &start("other.service")) {
        Order::Spawn { index, argv } => {
            assert_eq!(index, 1);
            assert_eq!(argv, vec!["/bin/cat"]);
        }
        other => panic!("unexpected order {:?}", other),
    }
}

#[test]
fn restart_of_a_stopped_unit_starts_it() {
    let mut all = registry();
    assert!(matches!(supervise(&mut all, &restart("sleep.service")), Order::Spawn { index: 0, .. }));
    assert_eq!(states(&all), vec![CurrState::Starting, CurrState::Stopped]);
}

#[test]
fn restart_while_a_spawn_is_pending_is_refused() {
    let mut all = registry();
    supervise(&mut all, &start("sleep.service"));
    assert!(matches!(
        supervise(&mut all, &restart("sleep.service")),
        Order::Refused { index: 0, error: StartError::AlreadyRunning }
    ));
    assert_eq!(states(&all), vec![CurrState::Starting, CurrState::Stopped]);
}

#[test]
fn shutdown_ends_the_loop_and_changes_nothing() {
    let mut all = registry();
    supervise(&mut all, &start("sleep.service"));
    all.service_mut(0).spawned(Some(1));
    assert!(matches!(supervise(&mut all, &Message::Shutdown), Order::Shutdown));
    assert_eq!(states(&all), vec![CurrState::Running, CurrState::Stopped]);
}

#[test]
fn the_first_matching_unit_is_the_one_addressed() {
    let mut all = registry();
    assert!(matches!(supervise(&mut all, &start(".service")), Order::Spawn { index: 0, .. }));
}

#[test]
fn never_does_not_restart() {
    assert!(!should_restart(RestartMethod::Never, Some(ExitStatus::Code(1))));
    assert!(!should_restart(RestartMethod::Never, Some(ExitStatus::Code(0))));
    assert!(!should_restart(RestartMethod::Never, Some(ExitStatus::Signal(9))));
    assert!(!should_restart(RestartMethod::Never, None));
}

#[test]
fn always_restarts() {
    assert!(should_restart(RestartMethod::Always, Some(ExitStatus::Code(1))));
    assert!(should_restart(RestartMethod::Always, Some(ExitStatus::Code(0))));
    assert!(should_restart(RestartMethod::Always, Some(ExitStatus::Signal(9))));
    assert!(should_restart(RestartMethod::Always, None));
}

#[test]
fn on_failure_restarts_after_a_code_other_than_zero() {
    assert!(should_restart(RestartMethod::OnFailure, Some(ExitStatus::Code(1))));
    assert!(should_restart(RestartMethod::OnFailure, Some(ExitStatus::Code(-1))));
    assert!(should_restart(RestartMethod::OnFailure, Some(ExitStatus::Code(255))));
    assert!(!should_restart(RestartMethod::OnFailure, Some(ExitStatus::Code(0))));
    assert!(!should_restart(RestartMethod::OnFailure, Some(ExitStatus::Signal(15))));
    assert!(!should_restart(RestartMethod::OnFailure, None));
}

fn exited(policy: RestartMethod, status: ExitStatus) -> Service {
    let mut s = Service::new(String::from("/bin/sh -c 'exit 1'"));
    s.restart_policy = policy;
    s.start().unwrap();
    s.spawned(Some(12));
    s.monitored(Polled::Exited(status));
    assert_eq!(s.status(), CurrState::Stopped);
    s
}

#[test]
fn a_failed_child_is_spawned_again_on_failure() {
    let mut s = exited(RestartMethod::OnFailure, ExitStatus::Code(1));
    assert_eq!(
        reconcile(&mut s),
        Some(Ok(vec![
            String::from("/bin/sh"),
            String::from("-c"),
            String::from("'exit"),
            String::from("1'")
        ]))
    );
    assert_eq!(s.status(), CurrState::Starting);
}

#[test]
fn a_clean_exit_is_not_restarted_on_failure() {
    let mut s = exited(RestartMethod::OnFailure, ExitStatus::Code(0));
    assert_eq!(reconcile(&mut s), None);
    assert_eq!(s.status(), CurrState::Stopped);
    assert_eq!(s.exit_status(), Some(ExitStatus::Code(0)));
}

#[test]
fn a_killed_child_is_not_restarted_on_failure() {
    let mut s = exited(RestartMethod::OnFailure, ExitStatus::Signal(9));
    assert_eq!(reconcile(&mut s), None);
    assert_eq!(s.status(), CurrState::Stopped);
}

#[test]
fn reconcile_follows_always_and_never() {
    let mut s = exited(RestartMethod::Always, ExitStatus::Code(0));
    assert!(matches!(reconcile(&mut s), Some(Ok(_))));
    assert_eq!(s.status(), CurrState::Starting);
    let mut s = exited(RestartMethod::Never, ExitStatus::Code(1));
    assert_eq!(reconcile(&mut s), None);
    assert_eq!(s.status(), CurrState::Stopped);
}

#[test]
fn reconcile_does_not_spawn_beside_a_child() {
    let mut s = Service::new(String::from("/bin/true"));
    s.restart_policy = RestartMethod::Always;
    s.start().unwrap();
    s.spawned(Some(3));
    s.monitored(Polled::Error);
    assert_eq!(reconcile(&mut s), Some(Err(StartError::AlreadyRunning)));
    assert_eq!(s.pid(), Some(3));
}
