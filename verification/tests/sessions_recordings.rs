use corgiterm::ids::{RecordingId, SessionId};
use corgiterm::recording::{next_events, seek_index, EventType, Recording, RecordingEvent, RecordingStore};
use corgiterm::session::{path_file_name, Project, SessionManager};

#[test]
fn test_project_creation() {
    let project = Project::new("/home/user/myproject");
    assert_eq!(project.name, "myproject");
    assert_eq!(project.icon, "📁");
}

#[test]
fn test_add_session() {
    let mut project = Project::new("/home/user/myproject");
    project.add_session("dev server");
    project.add_session("git");
    assert_eq!(project.session_count(), 2);
    assert_eq!(project.sessions[0].name, "dev server");
    assert_eq!(project.sessions[1].name, "git");
}

#[test]
fn test_session_id() {
    let id1 = SessionId::new();
    let id2 = SessionId::new();
    assert_ne!(id1, id2);
}

#[test]
fn file_names_of_paths() {
    assert_eq!(path_file_name("/a/b/"), Some("b".to_string()));
    assert_eq!(path_file_name("/"), None);
    assert_eq!(path_file_name("x/.."), None);
    assert_eq!(path_file_name("./y/."), Some("y".to_string()));
    assert_eq!(Project::new("/").name, "Untitled");
}

#[test]
fn project_sessions_lifecycle() {
    let mut p = Project::new("/w");
    p.add_session("a");
    p.add_session("b");
    p.add_session("c");
    assert_eq!(p.active_session().map(|s| s.name.clone()), Some("c".to_string()));
    assert_eq!(p.sessions[0].cwd, "/w");
    p.close_session(2);
    assert_eq!(p.active_session, 1);
    p.set_active(0);
    p.close_session(1);
    assert_eq!(p.active_session, 0);
    p.set_active(5);
    assert_eq!(p.active_session, 0);
    p.close_session(0);
    assert!(p.active_session().is_none());
    let s = p.add_session("t");
    assert!(s.thumbnail().is_none());
    s.update_thumbnail(vec![1, 2]);
    assert_eq!(s.thumbnail(), Some(&[1u8, 2][..]));
}

#[test]
fn manager_open_close_reopen() {
    let mut m = SessionManager::new("/cfg");
    m.open_project("/p1").add_session("one");
    m.open_project("/p2");
    assert_eq!(m.projects().len(), 2);
    assert_eq!(m.active_project().map(|p| p.name.clone()), Some("p2".to_string()));
    m.open_project("/p1");
    assert_eq!(m.projects().len(), 2);
    assert_eq!(m.active_project().map(|p| p.session_count()), Some(1));
    m.close_project(0);
    assert_eq!(m.projects().len(), 1);
    assert_eq!(m.projects()[0].name, "p2");
    let r = m.reopen_last_closed().map(|p| p.name.clone());
    assert_eq!(r, Some("p1".to_string()));
    assert_eq!(m.projects().len(), 2);
    assert!(m.reopen_last_closed().is_none());
    for k in 0..12 {
        m.open_project(&format!("/x{}", k));
    }
    for _ in 0..14 {
        m.close_project(0);
    }
    assert_eq!(m.projects().len(), 0);
    let mut n = 0;
    while m.reopen_last_closed().is_some() {
        n += 1;
    }
    assert_eq!(n, 10);
}

#[test]
fn quick_switch_sorted_by_activity() {
    let mut m = SessionManager::new("/cfg");
    {
        let p = m.open_project("/p");
        p.add_session("old").last_activity = 10;
        p.add_session("new").last_activity = 30;
    }
    m.open_project("/q").add_session("mid").last_activity = 20;
    let names: Vec<String> = m.quick_switch_data().iter().map(|i| i.session_name.clone()).collect();
    assert_eq!(names, vec!["new", "mid", "old"]);
}

#[test]
fn recording_events_and_duration() {
    let mut r = Recording::new("Test Recording", "/home/user", 24, 80);
    r.add_output(b"Hello, ");
    r.add_input(b"World");
    r.add_resize(30, 100);
    r.add_marker("test complete");
    assert_eq!(r.events.len(), 4);
    assert_eq!(r.meta.event_count, 4);
    assert!(matches!(r.events[2].event, EventType::Resize { rows: 30, cols: 100 }));
    r.meta.duration_ms = 125_400;
    assert_eq!(r.duration_string(), "2m 5s");
    r.meta.duration_ms = 42_999;
    assert_eq!(r.duration_string(), "42s");
    let start = r.meta.started_at;
    r.finalize_at(start + 1500);
    assert_eq!(r.meta.duration_ms, 1500);
    assert_eq!(r.meta.ended_at, Some(start + 1500));
    r.finalize_at(start - 5);
    assert_eq!(r.meta.duration_ms, 0);
}

fn ev(t: u64, m: &str) -> RecordingEvent {
    RecordingEvent { timestamp_ms: t, event: EventType::Marker(m.to_string()) }
}

#[test]
fn playback_helpers() {
    let events = vec![ev(0, "Start"), ev(100, "Middle"), ev(200, "End")];
    let (due, idx) = next_events(&events, 0, 150, false);
    assert_eq!(due.len(), 2);
    assert_eq!(idx, 2);
    let (due, idx) = next_events(&events, idx, 150, false);
    assert!(due.is_empty());
    assert_eq!(idx, 2);
    let (due, idx2) = next_events(&events, 0, 500, true);
    assert!(due.is_empty());
    assert_eq!(idx2, 0);
    assert_eq!(seek_index(&events, 150), 2);
    assert_eq!(seek_index(&events, 0), 1);
    assert_eq!(seek_index(&events, 999), 3);
}

#[test]
fn recording_store_catalogue() {
    let mut store = RecordingStore::new("/rec");
    let mut a = Recording::new("Alpha demo", "/", 1, 1).meta;
    a.started_at = 10;
    let mut b = Recording::new("Beta", "/", 1, 1).meta;
    b.started_at = 30;
    b.tags = vec!["Demo".to_string()];
    let id_a = a.id;
    store.set_loaded(vec![a, b]);
    assert_eq!(store.list()[0].title, "Beta");
    assert_eq!(store.search("DEMO").len(), 2);
    store.forget(id_a);
    assert_eq!(store.count(), 1);
    let name = RecordingStore::file_name(id_a);
    assert!(name.ends_with(".json"));
    assert_eq!(name.len(), 41);
    assert_eq!(RecordingId::parse(&name[..36]), Some(id_a));
    assert_eq!(RecordingId::parse("nope"), None);
}
