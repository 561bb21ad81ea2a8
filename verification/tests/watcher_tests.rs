use registration_server::watcher::{is_qualifying_event, FsEventKind, WatcherState, DEBOUNCE_MS};

#[test]
fn pem_modify_event_qualifies() {
    let paths = vec![String::from("certificates/server/server.crt.pem")];
    assert!(is_qualifying_event(FsEventKind::Modify, &paths));
    assert!(is_qualifying_event(FsEventKind::Create, &paths));
}

#[test]
fn non_pem_paths_do_not_qualify() {
    let paths = vec![String::from("certificates/readme.txt"), String::from("certificates/ca")];
    assert!(!is_qualifying_event(FsEventKind::Modify, &paths));
}

#[test]
fn remove_and_other_events_do_not_qualify() {
    let paths = vec![String::from("certificates/server/server.crt.pem")];
    assert!(!is_qualifying_event(FsEventKind::Remove, &paths));
    assert!(!is_qualifying_event(FsEventKind::Other, &paths));
}

#[test]
fn bare_extension_file_does_not_qualify() {
    assert!(!is_qualifying_event(FsEventKind::Modify, &vec![String::from(".pem")]));
    assert!(!is_qualifying_event(FsEventKind::Modify, &vec![String::from("certs/.pem")]));
    assert!(is_qualifying_event(FsEventKind::Modify, &vec![String::from("certs/a.pem")]));
}

#[test]
fn one_path_with_pem_extension_suffices() {
    let paths = vec![String::from("certs/notes.txt"), String::from("certs/ca.crt.pem")];
    assert!(is_qualifying_event(FsEventKind::Create, &paths));
}

#[test]
fn no_reload_before_debounce_window() {
    let mut s = WatcherState::new(1_000);
    s.observe_event(FsEventKind::Modify, &vec![String::from("c/a.pem")]);
    assert!(s.pending_reload);
    assert!(!s.on_tick(1_000 + DEBOUNCE_MS - 1));
    assert!(s.pending_reload);
}

#[test]
fn burst_of_events_collapses_into_one_reload() {
    let mut s = WatcherState::new(1_000);
    for i in 0..10u64 {
        let p = vec![format!("certs/rotated-{i}.pem")];
        s.observe_event(FsEventKind::Modify, &p);
        s.observe_event(FsEventKind::Create, &p);
    }
    let t1 = 1_000 + DEBOUNCE_MS;
    assert!(s.on_tick(t1));
    assert!(!s.pending_reload);
    assert_eq!(s.last_reload_ms, t1);
    // no further event: later ticks inside the next window stay quiet
    assert!(!s.on_tick(t1 + 1));
    assert!(!s.on_tick(t1 + DEBOUNCE_MS - 1));
}

#[test]
fn event_after_reload_waits_for_a_fresh_window() {
    let mut s = WatcherState::new(0);
    s.observe_event(FsEventKind::Modify, &vec![String::from("c/a.pem")]);
    assert!(s.on_tick(DEBOUNCE_MS));
    s.observe_event(FsEventKind::Modify, &vec![String::from("c/a.pem")]);
    assert!(!s.on_tick(DEBOUNCE_MS + 1));
    assert!(s.on_tick(2 * DEBOUNCE_MS));
}

#[test]
fn non_qualifying_event_never_triggers_reload() {
    let mut s = WatcherState::new(0);
    s.observe_event(FsEventKind::Remove, &vec![String::from("c/a.pem")]);
    s.observe_event(FsEventKind::Modify, &vec![String::from("c/a.txt")]);
    assert!(!s.pending_reload);
    assert!(!s.on_tick(10 * DEBOUNCE_MS));
}
