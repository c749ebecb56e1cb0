use sheet_wizard::alphabet::generate_tiangan_map;
use sheet_wizard::classifier::{FsEvent, FsEventKind};
use sheet_wizard::lifecycle::{Action, LifecycleState, WatchConfig};

fn config() -> WatchConfig {
    WatchConfig {
        listened_directory: "/w".to_string(),
        filename_prefix: "A".to_string(),
        hidden_filename_prefix: "~A".to_string(),
        ext_name: "xlsx".to_string(),
        script_directory: "/s".to_string(),
        script_filename: "run.py".to_string(),
        env_name: "base".to_string(),
    }
}

fn listing() -> Vec<String> {
    vec!["/w/A甲.xlsx".to_string(), "/w/A丙.xlsx".to_string(), "/w/~A丙.xlsx".to_string()]
}

fn event(kind: FsEventKind, path: &str) -> FsEvent {
    FsEvent { kind, paths: vec![path.to_string()] }
}

fn feed(s: &mut LifecycleState, e: FsEvent) -> Action {
    s.on_event(&e, &listing(), &config(), &generate_tiangan_map())
}

fn is_idle(s: &LifecycleState) -> bool {
    !s.hidden_file_open && !s.modified_since_open && s.tracked_filename.is_none()
}

#[test]
fn open_modify_close_fires_once() {
    let mut s = LifecycleState::new();
    assert_eq!(feed(&mut s, event(FsEventKind::Create, "/w/~A丙.xlsx")), Action::Continue);
    assert_eq!(s.tracked_filename, Some("~A丙.xlsx".to_string()));
    assert!(s.is_tracking());
    assert_eq!(feed(&mut s, event(FsEventKind::Modify, "/w/A丙.xlsx")), Action::Continue);
    assert!(s.modified_since_open);
    assert_eq!(feed(&mut s, event(FsEventKind::Remove, "/w/~A丙.xlsx")), Action::Fire);
    assert!(is_idle(&s));
    assert_eq!(feed(&mut s, event(FsEventKind::Remove, "/w/~A丙.xlsx")), Action::Continue);
}

#[test]
fn open_close_without_modify_does_not_fire() {
    let mut s = LifecycleState::new();
    feed(&mut s, event(FsEventKind::Create, "/w/~A丙.xlsx"));
    assert_eq!(feed(&mut s, event(FsEventKind::Remove, "/w/~A丙.xlsx")), Action::Continue);
    assert!(s.is_tracking());
}

#[test]
fn removal_of_another_file_keeps_tracking() {
    let mut s = LifecycleState::new();
    feed(&mut s, event(FsEventKind::Create, "/w/~A丙.xlsx"));
    feed(&mut s, event(FsEventKind::Modify, "/w/A丙.xlsx"));
    assert_eq!(feed(&mut s, event(FsEventKind::Remove, "/w/~A甲.xlsx")), Action::Continue);
    assert!(s.is_tracking());
    assert!(s.modified_since_open);
    assert_eq!(s.tracked_filename, Some("~A丙.xlsx".to_string()));
    assert_eq!(feed(&mut s, event(FsEventKind::Remove, "/w/~A丙.xlsx")), Action::Fire);
}

#[test]
fn firing_rearms_for_the_next_session() {
    let mut s = LifecycleState::new();
    for _ in 0..2 {
        assert_eq!(feed(&mut s, event(FsEventKind::Create, "/w/~A丙.xlsx")), Action::Continue);
        assert_eq!(feed(&mut s, event(FsEventKind::Modify, "/w/A丙.xlsx")), Action::Continue);
        assert_eq!(feed(&mut s, event(FsEventKind::Remove, "/w/~A丙.xlsx")), Action::Fire);
        assert!(is_idle(&s));
    }
}

#[test]
fn access_never_changes_state() {
    let mut s = LifecycleState::new();
    assert_eq!(feed(&mut s, event(FsEventKind::Access, "/w/~A丙.xlsx")), Action::Continue);
    assert!(is_idle(&s));
    feed(&mut s, event(FsEventKind::Create, "/w/~A丙.xlsx"));
    assert_eq!(feed(&mut s, event(FsEventKind::Access, "/w/A丙.xlsx")), Action::Continue);
    assert!(s.is_tracking() && !s.modified_since_open);
    feed(&mut s, event(FsEventKind::Modify, "/w/A丙.xlsx"));
    assert_eq!(feed(&mut s, event(FsEventKind::Access, "/w/~A丙.xlsx")), Action::Continue);
    assert!(s.is_tracking() && s.modified_since_open);
    assert_eq!(s.tracked_filename, Some("~A丙.xlsx".to_string()));
}

#[test]
fn other_kind_stops_without_changing_state() {
    let mut s = LifecycleState::new();
    assert_eq!(feed(&mut s, event(FsEventKind::Other, "/w/~A丙.xlsx")), Action::Stop);
    assert!(is_idle(&s));
    feed(&mut s, event(FsEventKind::Create, "/w/~A丙.xlsx"));
    feed(&mut s, event(FsEventKind::Modify, "/w/A丙.xlsx"));
    assert_eq!(feed(&mut s, FsEvent { kind: FsEventKind::Other, paths: vec![] }), Action::Stop);
    assert!(s.is_tracking() && s.modified_since_open);
    assert_eq!(s.tracked_filename, Some("~A丙.xlsx".to_string()));
}

#[test]
fn modify_while_idle_or_of_another_file_is_ignored() {
    let mut s = LifecycleState::new();
    feed(&mut s, event(FsEventKind::Modify, "/w/A丙.xlsx"));
    assert!(is_idle(&s));
    feed(&mut s, event(FsEventKind::Create, "/w/~A丙.xlsx"));
    feed(&mut s, event(FsEventKind::Modify, "/w/A甲.xlsx"));
    assert!(!s.modified_since_open);
    assert_eq!(feed(&mut s, event(FsEventKind::Remove, "/w/~A丙.xlsx")), Action::Continue);
}

#[test]
fn create_of_unexpected_file_is_ignored() {
    let mut s = LifecycleState::new();
    feed(&mut s, event(FsEventKind::Create, "/w/~A甲.xlsx"));
    assert!(is_idle(&s));
    feed(&mut s, event(FsEventKind::Create, "/w/A丙.xlsx"));
    assert!(is_idle(&s));
}

#[test]
fn create_mid_session_restarts_tracking() {
    let mut s = LifecycleState::new();
    feed(&mut s, event(FsEventKind::Create, "/w/~A丙.xlsx"));
    feed(&mut s, event(FsEventKind::Modify, "/w/A丙.xlsx"));
    feed(&mut s, event(FsEventKind::Create, "/w/~A丙.xlsx"));
    assert!(s.is_tracking() && !s.modified_since_open);
    assert_eq!(feed(&mut s, event(FsEventKind::Remove, "/w/~A丙.xlsx")), Action::Continue);
}
