use enso_build::error::Failure;
use enso_build::watch::may_start_next;
use enso_build::watch::teardown;
use enso_build::watch::wait_ok;
use enso_build::watch::WatchAction;
use enso_build::watch::Watcher;
use enso_build::watch::WatchEvent;
use enso_build::watch::WatchState;

fn built(place: &str) -> WatchEvent {
    WatchEvent::BuildCompleted(place.to_string())
}

#[test]
fn watcher_becomes_ready_with_its_first_build() {
    let watcher = Watcher::new(11);
    assert!(matches!(watcher.state, WatchState::Starting));
    assert!(!watcher.may_start_dependent());
    assert!(watcher.is_live());
    let (watcher, action) = watcher.on(built("dist/1"));
    assert!(matches!(action, WatchAction::AnnounceReady));
    assert!(matches!(watcher.state, WatchState::Ready));
    assert_eq!(watcher.snapshot.as_deref(), Some("dist/1"));
    assert!(watcher.may_start_dependent());
    let (watcher, action) = watcher.on(built("dist/2"));
    assert!(matches!(action, WatchAction::Nothing));
    assert!(matches!(watcher.state, WatchState::Running));
    assert_eq!(watcher.snapshot.as_deref(), Some("dist/2"));
    let (watcher, action) = watcher.on(WatchEvent::Exited(Ok(())));
    assert!(matches!(action, WatchAction::ReportStopped));
    assert!(matches!(watcher.state, WatchState::Stopped));
    assert!(!watcher.is_live());
    assert_eq!(watcher.process, 11);
    // A stopped process stays stopped.
    let (watcher, action) = watcher.on(built("dist/3"));
    assert!(matches!(action, WatchAction::Nothing));
    assert!(matches!(watcher.state, WatchState::Stopped));
    assert_eq!(watcher.snapshot.as_deref(), Some("dist/2"));
}

#[test]
fn watcher_fails_with_its_process() {
    let (watcher, action) = Watcher::new(1).on(WatchEvent::SpawnFailed("no npm".to_string()));
    assert!(matches!(action, WatchAction::ReportFailed(Failure::Watch(report)) if report == "no npm"));
    assert!(matches!(watcher.state, WatchState::Failed(_)));
    assert!(!watcher.is_live());

    let (watcher, action) = Watcher::new(1).on(WatchEvent::Exited(Ok(())));
    assert!(matches!(
        action,
        WatchAction::ReportFailed(Failure::Watch(report))
            if report == "The watching process ended before its first build was done."
    ));
    assert!(matches!(watcher.state, WatchState::Failed(_)));

    let (watcher, _) = Watcher::new(1).on(built("dist"));
    let (watcher, action) = watcher.on(WatchEvent::Exited(Err("crashed".to_string())));
    assert!(matches!(action, WatchAction::ReportFailed(Failure::Watch(report)) if report == "crashed"));
    assert!(matches!(&watcher.state, WatchState::Failed(Failure::Watch(report)) if report == "crashed"));
    assert!(!watcher.may_start_dependent());
    let (watcher, action) = watcher.on(WatchEvent::Exited(Ok(())));
    assert!(matches!(action, WatchAction::Nothing));
    assert!(matches!(watcher.state, WatchState::Failed(_)));
}

#[test]
fn teardown_signals_every_live_process() {
    let starting = Watcher::new(1);
    let (ready, _) = Watcher::new(2).on(built("a"));
    let (stopped, _) = Watcher::new(3).on(built("a"));
    let (stopped, _) = stopped.on(WatchEvent::Exited(Ok(())));
    let (failed, _) = Watcher::new(4).on(WatchEvent::SpawnFailed("x".to_string()));
    let (running, _) = Watcher::new(5).on(built("a"));
    let (running, _) = running.on(built("b"));
    let watchers = vec![starting, ready, stopped, failed, running];
    assert_eq!(teardown(&watchers), vec![1, 2, 5]);
    assert!(teardown(&Vec::new()).is_empty());
}

#[test]
fn joined_wait_fails_fast() {
    let (ready, _) = Watcher::new(1).on(built("a"));
    let (failed, _) = Watcher::new(2).on(WatchEvent::Exited(Err("crashed".to_string())));
    // The first process is still running.
    let watchers = vec![ready, failed];
    assert!(matches!(wait_ok(&watchers), Some(Err(Failure::Watch(report))) if report == "crashed"));
    assert_eq!(teardown(&watchers), vec![1]);

    let (first, _) = Watcher::new(1).on(WatchEvent::SpawnFailed("first".to_string()));
    let (second, _) = Watcher::new(2).on(WatchEvent::SpawnFailed("second".to_string()));
    assert!(matches!(
        wait_ok(&vec![first, second]),
        Some(Err(Failure::Watch(report))) if report == "first"
    ));
}

#[test]
fn joined_wait_ends_when_all_have_stopped() {
    let stopped = |process| {
        let (watcher, _) = Watcher::new(process).on(built("a"));
        watcher.on(WatchEvent::Exited(Ok(()))).0
    };
    assert!(matches!(wait_ok(&vec![stopped(1), stopped(2)]), Some(Ok(()))));
    assert!(wait_ok(&vec![stopped(1), Watcher::new(2)]).is_none());
    assert!(wait_ok(&vec![Watcher::new(1)]).is_none());
    assert!(matches!(wait_ok(&Vec::new()), Some(Ok(()))));
}

#[test]
fn dependent_watch_waits_for_a_snapshot() {
    assert!(may_start_next(&Vec::new()));
    assert!(!may_start_next(&vec![Watcher::new(1)]));
    let (ready, _) = Watcher::new(1).on(built("a"));
    assert!(may_start_next(&vec![ready]));
    let (ready, _) = Watcher::new(1).on(built("a"));
    assert!(!may_start_next(&vec![ready, Watcher::new(2)]));
}
