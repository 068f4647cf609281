use shellflip::{ShutdownCoordinator, ShutdownHandle, ShutdownSignal};

#[test]
fn test_shutdown_coordinator() {
    // Shutdown with no active tasks should happen immediately
    let mut sc = ShutdownCoordinator::new(1);
    sc.shutdown();
    assert!(sc.is_complete());

    // Shutdown is delayed with an active task
    let mut sc = ShutdownCoordinator::new(2);
    let handle = sc.handle();
    sc.shutdown();
    assert!(!sc.is_complete());
    sc.release(handle);
    assert!(sc.is_complete());
}

#[test]
fn test_default_shutdown_handle() {
    let handle = ShutdownHandle::default();
    let mut signal = ShutdownSignal::from(&handle);
    let mut sc = ShutdownCoordinator::default();
    assert!(!signal.on_shutdown(&sc));
    sc.shutdown();
    assert!(!signal.on_shutdown(&sc));
}

#[test]
fn a_signal_resolves_once() {
    let mut sc = ShutdownCoordinator::default();
    let handle = sc.handle();
    let mut signal = ShutdownSignal::from(&handle);
    assert!(signal.is_waiting());
    assert!(!signal.on_shutdown(&sc));
    sc.shutdown();
    assert!(signal.on_shutdown(&sc));
    assert!(!signal.is_waiting());
    assert!(!signal.on_shutdown(&sc));
    // A signal that is taken later still gets the announcement.
    let mut late = ShutdownSignal::from(&handle);
    assert!(late.on_shutdown(&sc));
}

#[test]
fn the_default_signal_never_resolves() {
    let mut signal = ShutdownSignal::default();
    let mut sc = ShutdownCoordinator::default();
    assert!(!signal.on_shutdown(&sc));
    sc.shutdown();
    assert!(!signal.on_shutdown(&sc));
    assert!(!signal.on_shutdown(&sc));
}

#[test]
fn a_signal_waits_for_its_own_coordinator() {
    let mut mine = ShutdownCoordinator::new(1);
    let mut other = ShutdownCoordinator::new(2);
    let handle = mine.handle();
    let mut signal = ShutdownSignal::from(&handle);
    assert_eq!(signal, ShutdownSignal::WaitingForSignal(1));
    other.shutdown();
    assert!(!signal.on_shutdown(&other));
    assert!(signal.is_waiting());
    mine.shutdown();
    assert!(signal.on_shutdown(&mine));
}

#[test]
fn a_coordinator_awaits_its_own_handles() {
    let mut mine = ShutdownCoordinator::new(1);
    let mut other = ShutdownCoordinator::new(2);
    assert!(mine.has_room());
    let handle = mine.handle();
    let foreign = other.handle();
    assert!(mine.awaits(&handle));
    assert!(!mine.awaits(&foreign));
    assert!(!other.awaits(&handle));
    assert!(!mine.awaits(&ShutdownHandle::default()));
    mine.shutdown();
    other.shutdown();
    other.release(foreign);
    assert!(other.is_complete());
    assert!(!mine.is_complete());
    mine.release(handle);
    assert!(mine.is_complete());
}

#[test]
fn shutdown_waits_for_all_tasks() {
    let mut sc = ShutdownCoordinator::new(3);
    let handles: Vec<ShutdownHandle> = (0..5).map(|_| sc.handle()).collect();
    sc.shutdown();
    for handle in handles {
        assert!(!sc.is_complete());
        sc.release(handle);
    }
    assert!(sc.is_complete());
}

#[test]
fn a_handle_of_nobody_does_not_count() {
    let mut sc = ShutdownCoordinator::new(4);
    let handle = sc.handle();
    sc.shutdown();
    sc.release(ShutdownHandle::default());
    assert!(!sc.is_complete());
    sc.release(handle);
    assert!(sc.is_complete());
}

#[test]
fn a_weak_handle_upgrades_until_shutdown_starts() {
    let mut sc = ShutdownCoordinator::new(5);
    let weak = sc.handle_weak();
    let handle = sc.upgrade(weak).unwrap();
    let mut signal = ShutdownSignal::from(&handle);
    assert!(signal.is_waiting());
    assert!(!signal.on_shutdown(&sc));
    sc.shutdown();
    assert!(signal.on_shutdown(&sc));
    assert!(!sc.is_complete());
    assert!(sc.upgrade(weak).is_none());
    sc.release(handle);
    assert!(sc.is_complete());
    assert!(sc.upgrade(weak).is_none());
}

#[test]
fn an_abandoned_coordinator_announces_itself() {
    let mut sc = ShutdownCoordinator::new(6);
    let weak = sc.handle_weak();
    let handle = sc.handle();
    let mut signal = ShutdownSignal::from(&handle);
    sc.abandon();
    assert!(signal.on_shutdown(&sc));
    assert!(!sc.is_complete());
    let second = sc.upgrade(weak).unwrap();
    sc.release(handle);
    sc.release(second);
    assert!(sc.upgrade(weak).is_none());
    assert!(!sc.is_complete());
}

#[test]
fn abandoning_does_not_stop_a_shutdown() {
    let mut sc = ShutdownCoordinator::new(7);
    sc.shutdown();
    sc.abandon();
    assert!(sc.is_complete());
}

#[test]
fn a_timeout_is_needed_only_with_tasks() {
    let mut sc = ShutdownCoordinator::new(8);
    assert_eq!(sc.shutdown_with_timeout(30), None);
    assert!(sc.is_complete());

    let mut sc = ShutdownCoordinator::new(9);
    let handle = sc.handle();
    assert_eq!(sc.shutdown_with_timeout(30), Some(30));
    assert!(sc.is_announced());
    sc.release(handle);
    assert!(sc.is_complete());
}
