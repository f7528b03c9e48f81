use timetrack::path_text::{contains_substring, extension_of, file_name_of, parent_dir_of, str_eq};

#[test]
fn substring_search() {
    assert!(contains_substring("proj/target/debug/a.rs", "/target/"));
    assert!(!contains_substring("proj/src/a.rs", "/target/"));
    assert!(contains_substring("abc", ""));
    assert!(!contains_substring("ab", "abc"));
    assert!(contains_substring("aab", "ab"));
}

#[test]
fn string_equality() {
    assert!(str_eq("rs", "rs"));
    assert!(!str_eq("rs", "r"));
    assert!(!str_eq("rs", "py"));
    assert!(str_eq("", ""));
}

#[test]
fn file_name_component() {
    assert_eq!(file_name_of("a/b/c.rs"), "c.rs".to_string());
    assert_eq!(file_name_of("c.rs"), "c.rs".to_string());
    assert_eq!(file_name_of("a/b/"), "".to_string());
}

#[test]
fn parent_component() {
    assert_eq!(parent_dir_of("a/b/c.rs"), Some("a/b".to_string()));
    assert_eq!(parent_dir_of("/a"), Some("".to_string()));
    assert_eq!(parent_dir_of("c.rs"), None);
}

#[test]
fn extension_component() {
    assert_eq!(extension_of("a/b/c.rs"), Some("rs".to_string()));
    assert_eq!(extension_of("a.b.c"), Some("c".to_string()));
    // no dot, or only a leading dot, means no extension
    assert_eq!(extension_of("Makefile"), None);
    assert_eq!(extension_of("dir/.gitignore"), None);
    // a trailing dot yields an empty extension
    assert_eq!(extension_of("odd."), Some("".to_string()));
}
