use getup::lifecycle::{CurrState, ExitStatus, Polled, GRACEFUL_TIMEOUT_MS};
use getup::monitor::{monitor_proc, MonitorEvent, MonitorStep};
use getup::units::Service;

fn running(pid: u32) -> Service {
    let mut s = Service::new(String::from("/bin/sleep 3600"));
    s.start().unwrap();
    s.spawned(Some(pid));
    s
}

#[test]
fn a_monitor_that_is_not_cancelled_polls() {
    let mut s = running(5);
    assert_eq!(monitor_proc(&mut s, MonitorEvent::Woke { cancelled: false }), MonitorStep::Poll);
    assert_eq!(s.status(), CurrState::Running);
}

#[test]
fn a_child_that_is_alive_is_polled_again_after_thirty_milliseconds() {
    let mut s = running(5);
    assert_eq!(
        monitor_proc(&mut s, MonitorEvent::Polled(Polled::Alive)),
        MonitorStep::Sleep { ms: 30 }
    );
    assert_eq!(s.status(), CurrState::Running);
    assert_eq!(s.pid(), Some(5));
    assert_eq!(s.exit_status(), None);
}

#[test]
fn an_exit_is_recorded_and_ends_the_monitor() {
    let mut s = running(5);
    assert_eq!(
        monitor_proc(&mut s, MonitorEvent::Polled(Polled::Exited(ExitStatus::Code(7)))),
        MonitorStep::Finished
    );
    assert_eq!(s.status(), CurrState::Stopped);
    assert_eq!(s.exit_status(), Some(ExitStatus::Code(7)));
    assert_eq!(s.pid(), None);
}

#[test]
fn a_failed_poll_ends_the_monitor_and_changes_nothing() {
    let mut s = running(5);
    let before = s.snapshot();
    assert_eq!(monitor_proc(&mut s, MonitorEvent::Polled(Polled::Error)), MonitorStep::Finished);
    assert_eq!(s.snapshot(), before);
    assert_eq!(s.status(), CurrState::Running);
}

#[test]
fn cancellation_orders_the_kill_after_the_grace() {
    let mut s = running(5);
    assert_eq!(
        monitor_proc(&mut s, MonitorEvent::Woke { cancelled: true }),
        MonitorStep::Terminate { pid: 5, grace_ms: 10_000 }
    );
    assert_eq!(GRACEFUL_TIMEOUT_MS, 10_000);
    assert_eq!(s.status(), CurrState::Running);
    assert_eq!(
        monitor_proc(&mut s, MonitorEvent::Polled(Polled::Exited(ExitStatus::Signal(9)))),
        MonitorStep::Finished
    );
    assert_eq!(s.status(), CurrState::Stopped);
    assert_eq!(s.pid(), None);
    assert_eq!(s.exit_status(), Some(ExitStatus::Signal(9)));
}

#[test]
fn cancellation_without_a_process_kills_nothing() {
    let mut s = Service::new(String::from("/bin/true"));
    assert_eq!(monitor_proc(&mut s, MonitorEvent::Woke { cancelled: true }), MonitorStep::Poll);
    s.start().unwrap();
    assert_eq!(monitor_proc(&mut s, MonitorEvent::Woke { cancelled: true }), MonitorStep::Poll);
    assert_eq!(s.status(), CurrState::Starting);
}

#[test]
fn a_stopping_child_is_monitored_too() {
    let mut s = running(5);
    s.stop();
    assert_eq!(
        monitor_proc(&mut s, MonitorEvent::Woke { cancelled: true }),
        MonitorStep::Terminate { pid: 5, grace_ms: 10_000 }
    );
    monitor_proc(&mut s, MonitorEvent::Polled(Polled::Exited(ExitStatus::Code(0))));
    assert_eq!(s.status(), CurrState::Stopped);
}

#[test]
fn an_exit_without_a_process_changes_nothing() {
    let mut s = Service::new(String::from("/bin/true"));
    let before = s.snapshot();
    assert_eq!(
        monitor_proc(&mut s, MonitorEvent::Polled(Polled::Exited(ExitStatus::Code(1)))),
        MonitorStep::Finished
    );
    assert_eq!(s.snapshot(), before);
}

#[test]
fn shutdown_with_two_running_units_ends_both_monitors() {
    let mut a = running(1);
    let mut b = running(2);
    for (s, pid) in [(&mut a, 1u32), (&mut b, 2u32)] {
        assert_eq!(
            monitor_proc(s, MonitorEvent::Woke { cancelled: true }),
            MonitorStep::Terminate { pid, grace_ms: 10_000 }
        );
        assert_eq!(
            monitor_proc(s, MonitorEvent::Polled(Polled::Exited(ExitStatus::Signal(9)))),
            MonitorStep::Finished
        );
        assert_eq!(s.status(), CurrState::Stopped);
        assert_eq!(s.pid(), None);
    }
}
