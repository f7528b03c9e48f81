use timetrack::duration_map::DurationMap;
use timetrack::manager::SessionRegistry;
use timetrack::stats::{DailyStats, TimeEntry};

fn entry(path: &str, lang: &str, project: Option<&str>, duration: u64) -> TimeEntry {
    TimeEntry {
        path: path.to_string(),
        language: lang.to_string(),
        project: project.map(|p| p.to_string()),
        duration,
        start_time: 0,
        end_time: duration,
    }
}

#[test]
fn duration_map_accumulates_per_key() {
    let mut m = DurationMap::new();
    assert_eq!(m.get(&"a".to_string()), None);
    m.add_to(&"a".to_string(), 10);
    assert_eq!(m.get(&"a".to_string()), Some(10));
    m.add_to(&"a".to_string(), 5);
    assert_eq!(m.get(&"a".to_string()), Some(15));
    m.add_to(&"b".to_string(), 7);
    assert_eq!(m.get(&"a".to_string()), Some(15));
    assert_eq!(m.get(&"b".to_string()), Some(7));
    m.put(&"a".to_string(), 3);
    assert_eq!(m.get(&"a".to_string()), Some(3));
}

#[test]
fn same_language_entries_accumulate() {
    // 10 s and 5 s of Rust make 15 s, in the language total and overall
    let mut stats = DailyStats::new("2024-01-02".to_string());
    stats.add_entry(&entry("a.rs", "Rust", None, 10_000));
    stats.add_entry(&entry("b.rs", "Rust", None, 5_000));
    assert_eq!(stats.entries_by_lang.get(&"Rust".to_string()), Some(15_000));
    assert_eq!(stats.total_time, 15_000);
}

#[test]
fn totals_split_by_language_project_and_file() {
    let mut stats = DailyStats::new("2024-01-02".to_string());
    stats.add_entry(&entry("a.rs", "Rust", Some("demo"), 10));
    stats.add_entry(&entry("b.py", "Python", None, 20));
    stats.add_entry(&entry("a.rs", "Rust", Some("demo"), 30));
    assert_eq!(stats.total_time, 60);
    assert_eq!(stats.entries_by_lang.get(&"Rust".to_string()), Some(40));
    assert_eq!(stats.entries_by_lang.get(&"Python".to_string()), Some(20));
    assert_eq!(stats.entries_by_file.get(&"a.rs".to_string()), Some(40));
    assert_eq!(stats.entries_by_file.get(&"b.py".to_string()), Some(20));
    // entries without a project are omitted from the per-project totals
    assert_eq!(stats.entries_by_project.get(&"demo".to_string()), Some(40));
    assert_eq!(stats.date, "2024-01-02".to_string());
}

#[test]
fn applying_an_entry_twice_double_counts() {
    let mut stats = DailyStats::new("2024-01-02".to_string());
    let e = entry("a.rs", "Rust", None, 10);
    stats.add_entry(&e);
    stats.add_entry(&e);
    assert_eq!(stats.total_time, 20);
    assert_eq!(stats.entries_by_lang.get(&"Rust".to_string()), Some(20));
}

#[test]
fn full_session_lifecycle_rolls_into_daily_stats() {
    // session created at t=0 on main.rs (Rust, project "demo"); idle fires
    // at t=20s; resume at t=25s on the same file; close at t=30s
    let mut reg = SessionRegistry::new();
    reg.on_file_event("main.rs".to_string(), "Rust".to_string(), Some("demo".to_string()), 0);

    reg.on_idle_detected(20_000);
    assert_eq!(reg.get_current_duration(&"main.rs".to_string(), 24_000), Some(20_000));

    reg.on_file_event("main.rs".to_string(), "Rust".to_string(), Some("demo".to_string()), 25_000);

    let entry = reg.close_session(&"main.rs".to_string(), 30_000).expect("live session");
    assert_eq!(entry.duration, 25_000);
    assert_eq!(entry.start_time, 0);
    assert_eq!(entry.end_time, 30_000);

    let mut stats = DailyStats::new("2024-01-02".to_string());
    stats.add_entry(&entry);
    assert_eq!(stats.total_time, 25_000);
    assert_eq!(stats.entries_by_lang.get(&"Rust".to_string()), Some(25_000));
    assert_eq!(stats.entries_by_project.get(&"demo".to_string()), Some(25_000));
    assert_eq!(stats.entries_by_file.get(&"main.rs".to_string()), Some(25_000));
}
