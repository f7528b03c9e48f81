use timetrack::file_watcher::{detect_language, FileEvent, FileEventKind, FileWatcher};

fn modify(paths: Vec<&str>) -> FileEvent {
    FileEvent {
        kind: FileEventKind::DataModified,
        paths: paths.into_iter().map(|p| p.to_string()).collect(),
    }
}

#[test]
fn accepts_first_qualifying_modification() {
    let mut w = FileWatcher::new();
    let r = w.process_event(&modify(vec!["src/main.rs"]), 1000);
    assert_eq!(r, Some("src/main.rs".to_string()));
}

#[test]
fn suppresses_repeat_within_window() {
    let mut w = FileWatcher::new();
    assert_eq!(w.process_event(&modify(vec!["src/main.rs"]), 1000), Some("src/main.rs".to_string()));
    assert_eq!(w.process_event(&modify(vec!["src/main.rs"]), 1050), None);
    assert_eq!(w.process_event(&modify(vec!["src/main.rs"]), 1099), None);
    // window elapsed: accepted again
    assert_eq!(w.process_event(&modify(vec!["src/main.rs"]), 1100), Some("src/main.rs".to_string()));
}

#[test]
fn window_applies_per_path() {
    let mut w = FileWatcher::new();
    assert_eq!(w.process_event(&modify(vec!["a.rs"]), 1000), Some("a.rs".to_string()));
    assert_eq!(w.process_event(&modify(vec!["b.py"]), 1010), Some("b.py".to_string()));
    assert_eq!(w.process_event(&modify(vec!["a.rs"]), 1050), None);
}

#[test]
fn ignored_directories_never_returned() {
    let mut w = FileWatcher::new();
    assert_eq!(w.process_event(&modify(vec!["proj/target/debug/main.rs"]), 1000), None);
    assert_eq!(w.process_event(&modify(vec!["proj/node_modules/x/index.js"]), 2000), None);
    assert_eq!(w.process_event(&modify(vec!["proj/.git/config.c"]), 3000), None);
    assert_eq!(w.process_event(&modify(vec!["proj/__pycache__/m.py"]), 4000), None);
}

#[test]
fn unrecognized_extensions_never_returned() {
    let mut w = FileWatcher::new();
    assert_eq!(w.process_event(&modify(vec!["notes.txt"]), 1000), None);
    assert_eq!(w.process_event(&modify(vec!["README.md"]), 2000), None);
    assert_eq!(w.process_event(&modify(vec!["Makefile"]), 3000), None);
    assert_eq!(w.process_event(&modify(vec![".gitignore"]), 4000), None);
}

#[test]
fn first_qualifying_path_wins() {
    let mut w = FileWatcher::new();
    let ev = modify(vec!["proj/target/a.rs", "notes.txt", "src/lib.rs", "src/other.rs"]);
    assert_eq!(w.process_event(&ev, 1000), Some("src/lib.rs".to_string()));
}

#[test]
fn non_modification_kinds_ignored() {
    let mut w = FileWatcher::new();
    let ev = FileEvent { kind: FileEventKind::Created, paths: vec!["src/main.rs".to_string()] };
    assert_eq!(w.process_event(&ev, 1000), None);
    let ev = FileEvent { kind: FileEventKind::MetadataModified, paths: vec!["src/main.rs".to_string()] };
    assert_eq!(w.process_event(&ev, 1000), None);
    let ev = FileEvent { kind: FileEventKind::Removed, paths: vec!["src/main.rs".to_string()] };
    assert_eq!(w.process_event(&ev, 1000), None);
}

#[test]
fn empty_path_list_yields_nothing() {
    let mut w = FileWatcher::new();
    assert_eq!(w.process_event(&modify(vec![]), 1000), None);
}

#[test]
fn detect_language_by_extension() {
    assert_eq!(detect_language(&"src/main.rs".to_string()), Some("Rust"));
    assert_eq!(detect_language(&"app.py".to_string()), Some("Python"));
    assert_eq!(detect_language(&"web/index.tsx".to_string()), Some("TypeScript React"));
    assert_eq!(detect_language(&"lib/util.cc".to_string()), Some("C++"));
    assert_eq!(detect_language(&"inc/defs.hpp".to_string()), Some("C/C++ Header"));
    assert_eq!(detect_language(&"run.bash".to_string()), Some("Bash"));
    assert_eq!(detect_language(&"conf.yaml".to_string()), Some("YAML"));
    assert_eq!(detect_language(&"data.bin".to_string()), Some("Unknown"));
}

#[test]
fn detect_language_by_well_known_filename() {
    assert_eq!(detect_language(&"ops/Dockerfile".to_string()), Some("Docker"));
    assert_eq!(detect_language(&"Makefile".to_string()), Some("Makefile"));
    assert_eq!(detect_language(&"LICENSE".to_string()), Some("Text"));
    // a dotted name classifies by its extension, not by the filename table
    assert_eq!(detect_language(&"CMakeLists.txt".to_string()), Some("Unknown"));
}

#[test]
fn detect_language_leading_dot_is_no_extension() {
    assert_eq!(detect_language(&".gitignore".to_string()), Some("Text"));
}
