use timetrack::file_session::{detect_project, FileSession};
use timetrack::manager::SessionRegistry;

#[test]
fn duration_accumulates_while_active() {
    let s = FileSession::new("main.rs".to_string(), "Rust".to_string(), None, 0);
    assert!(s.is_active);
    assert_eq!(s.get_current_duration(0), 0);
    assert_eq!(s.get_current_duration(10), 10);
    assert_eq!(s.get_current_duration(500), 500);
}

#[test]
fn duration_constant_while_paused() {
    let mut s = FileSession::new("main.rs".to_string(), "Rust".to_string(), None, 0);
    s.pause(20);
    assert!(!s.is_active);
    assert_eq!(s.total_duration, 20);
    assert_eq!(s.get_current_duration(25), 20);
    assert_eq!(s.get_current_duration(1000), 20);
}

#[test]
fn pause_resume_cycles_sum_segments() {
    // segments: [0,20], [25,30], [40,100] -> 20 + 5 + 60 = 85
    let mut s = FileSession::new("main.rs".to_string(), "Rust".to_string(), None, 0);
    s.pause(20);
    s.resume(25);
    s.pause(30);
    s.resume(40);
    s.pause(100);
    assert_eq!(s.total_duration, 85);
    assert_eq!(s.get_current_duration(200), 85);
}

#[test]
fn pause_and_resume_are_idempotent() {
    let mut s = FileSession::new("main.rs".to_string(), "Rust".to_string(), None, 0);
    s.pause(20);
    s.pause(30);
    assert_eq!(s.total_duration, 20);
    s.resume(40);
    let segment_start = s.current_session_start;
    s.resume(50);
    assert_eq!(s.current_session_start, segment_start);
}

#[test]
fn detect_project_names_nearest_marked_ancestor() {
    let marked = vec!["/home/user/demo".to_string()];
    let r = detect_project(&"/home/user/demo/src/main.rs".to_string(), &marked);
    assert_eq!(r, Some("demo".to_string()));
}

#[test]
fn detect_project_prefers_closest_ancestor() {
    let marked = vec!["/home/user/outer".to_string(), "/home/user/outer/inner".to_string()];
    let r = detect_project(&"/home/user/outer/inner/src/lib.rs".to_string(), &marked);
    assert_eq!(r, Some("inner".to_string()));
}

#[test]
fn detect_project_none_without_marker() {
    let marked: Vec<String> = Vec::new();
    assert_eq!(detect_project(&"/home/user/demo/src/main.rs".to_string(), &marked), None);
    assert_eq!(detect_project(&"main.rs".to_string(), &marked), None);
}

#[test]
fn registry_creates_resumes_and_heartbeats() {
    let mut reg = SessionRegistry::new();
    reg.on_file_event("src/main.rs".to_string(), "Rust".to_string(), None, 0);
    assert_eq!(reg.get_current_duration(&"src/main.rs".to_string(), 10), Some(10));
    // heartbeat while active: no accounting change
    reg.on_file_event("src/main.rs".to_string(), "Rust".to_string(), None, 15);
    assert_eq!(reg.get_current_duration(&"src/main.rs".to_string(), 20), Some(20));
    // idle pauses; next file event resumes
    reg.on_idle_detected(30);
    assert_eq!(reg.get_current_duration(&"src/main.rs".to_string(), 50), Some(30));
    reg.on_file_event("src/main.rs".to_string(), "Rust".to_string(), None, 60);
    assert_eq!(reg.get_current_duration(&"src/main.rs".to_string(), 70), Some(40));
}

#[test]
fn registry_idle_pauses_all_sessions() {
    let mut reg = SessionRegistry::new();
    reg.on_file_event("a.rs".to_string(), "Rust".to_string(), None, 0);
    reg.on_file_event("b.py".to_string(), "Python".to_string(), None, 100);
    reg.on_idle_detected(200);
    assert_eq!(reg.get_current_duration(&"a.rs".to_string(), 500), Some(200));
    assert_eq!(reg.get_current_duration(&"b.py".to_string(), 500), Some(100));
}

#[test]
fn registry_activity_resumed_alone_resumes_nothing() {
    let mut reg = SessionRegistry::new();
    reg.on_file_event("a.rs".to_string(), "Rust".to_string(), None, 0);
    reg.on_idle_detected(20);
    reg.on_activity_resumed();
    // still paused: duration unchanged until the file's own next event
    assert_eq!(reg.get_current_duration(&"a.rs".to_string(), 100), Some(20));
}

#[test]
fn registry_close_session_emits_entry() {
    let mut reg = SessionRegistry::new();
    reg.on_file_event("a.rs".to_string(), "Rust".to_string(), Some("demo".to_string()), 0);
    let entry = reg.close_session(&"a.rs".to_string(), 40).expect("live session");
    assert_eq!(entry.path, "a.rs".to_string());
    assert_eq!(entry.language, "Rust".to_string());
    assert_eq!(entry.project, Some("demo".to_string()));
    assert_eq!(entry.duration, 40);
    assert_eq!(entry.start_time, 0);
    assert_eq!(entry.end_time, 40);
    // removed from the live set
    assert_eq!(reg.get_current_duration(&"a.rs".to_string(), 50), None);
    assert!(reg.close_session(&"a.rs".to_string(), 60).is_none());
}

#[test]
fn registry_close_all_flushes_every_session() {
    let mut reg = SessionRegistry::new();
    reg.on_file_event("a.rs".to_string(), "Rust".to_string(), None, 0);
    reg.on_file_event("b.py".to_string(), "Python".to_string(), None, 10);
    let entries = reg.close_all(50);
    assert_eq!(entries.len(), 2);
    assert_eq!(entries[0].path, "a.rs".to_string());
    assert_eq!(entries[0].duration, 50);
    assert_eq!(entries[1].path, "b.py".to_string());
    assert_eq!(entries[1].duration, 40);
    assert!(reg.get_current_duration(&"a.rs".to_string(), 60).is_none());
    assert!(reg.close_all(70).is_empty());
}
