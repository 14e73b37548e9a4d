use echo_gateway::lifecycle::{Lifecycle, Phase, Teardown};

fn running() -> Lifecycle {
    let mut lc = Lifecycle::new();
    lc.spawned();
    assert!(!lc.started(true));
    lc
}

#[test]
fn start_reaches_running() {
    let mut lc = Lifecycle::new();
    assert_eq!(lc.phase, Phase::Created);
    assert!(!lc.joinable);
    lc.spawned();
    assert_eq!(lc.phase, Phase::Starting);
    assert!(lc.joinable);
    assert!(!lc.started(true));
    assert_eq!(lc.phase, Phase::Running);
    assert!(lc.joinable);
}

#[test]
fn shutdown_twice_stops_once() {
    let mut lc = running();
    assert!(lc.shutdown());
    assert_eq!(lc.phase, Phase::Stopping);
    let before = lc;
    assert!(!lc.shutdown());
    assert_eq!(lc, before);
    lc.stopped();
    assert_eq!(lc.phase, Phase::Stopped);
    assert!(!lc.shutdown());
    assert_eq!(lc.phase, Phase::Stopped);
}

#[test]
fn wait_after_shutdown_joins_once() {
    let mut lc = running();
    assert!(lc.shutdown());
    lc.stopped();
    assert!(lc.wait());
    assert!(!lc.joinable);
    assert!(!lc.wait());
}

#[test]
fn wait_while_stopping_joins() {
    let mut lc = running();
    assert!(lc.shutdown());
    assert!(lc.wait());
    lc.stopped();
    assert_eq!(lc.phase, Phase::Stopped);
    assert!(!lc.wait());
}

#[test]
fn bind_failure_joins_and_leaves_nothing() {
    let mut lc = Lifecycle::new();
    lc.spawned();
    assert!(lc.started(false));
    assert_eq!(lc.phase, Phase::BindFailed);
    assert!(!lc.joinable);
    assert!(!lc.shutdown());
    assert!(!lc.wait());
    assert_eq!(lc.teardown(), Teardown { stop: false, join: false });
    assert_eq!(lc.phase, Phase::BindFailed);
}

#[test]
fn second_startup_signal_is_ignored() {
    let mut lc = running();
    assert!(!lc.started(false));
    assert_eq!(lc.phase, Phase::Running);
    let mut failed = Lifecycle::new();
    failed.spawned();
    assert!(failed.started(false));
    assert!(!failed.started(true));
    assert_eq!(failed.phase, Phase::BindFailed);
}

#[test]
fn teardown_of_running_stops_and_joins() {
    let mut lc = running();
    assert_eq!(lc.teardown(), Teardown { stop: true, join: true });
    assert_eq!(lc.phase, Phase::Stopping);
    assert!(!lc.joinable);
    assert_eq!(lc.teardown(), Teardown { stop: false, join: false });
}

#[test]
fn teardown_after_shutdown_and_wait_does_nothing() {
    let mut lc = running();
    assert!(lc.shutdown());
    lc.stopped();
    assert!(lc.wait());
    assert_eq!(lc.teardown(), Teardown { stop: false, join: false });
    assert_eq!(lc.phase, Phase::Stopped);
}

#[test]
fn steps_before_spawn_do_nothing() {
    let mut lc = Lifecycle::new();
    assert!(!lc.started(true));
    assert!(!lc.shutdown());
    lc.stopped();
    assert!(!lc.wait());
    assert_eq!(lc.phase, Phase::Created);
}
