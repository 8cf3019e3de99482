use scampi::span::{clean_span, join_path, starts_with, trim_root_context, SpanEnv};

fn env(home: Option<&str>, cwd: Option<&str>) -> SpanEnv {
    SpanEnv { home_dir: home.map(|h| h.to_string()), current_dir: cwd.map(|c| c.to_string()) }
}

#[test]
fn span_inside_home_is_kept() {
    let e = env(Some("/home/u"), None);
    assert_eq!(clean_span("/home/u/lib/src/a.rs:1:2: 3:4 (#0)", &e), "/home/u/lib/src/a.rs:1:2: 3:4");
}

#[test]
fn relative_span_is_joined_to_current_dir() {
    let e = env(Some("/home/u"), Some("/work/crate"));
    assert_eq!(clean_span("src/main.rs:10:5: 10:12 (#0)", &e), "/work/crate/src/main.rs:10:5: 10:12");
}

#[test]
fn absolute_span_outside_home_stays_put() {
    let e = env(Some("/home/u"), Some("/work"));
    assert_eq!(clean_span("/usr/lib/rust/src/x.rs:1:1: 1:2 (#0)", &e), "/usr/lib/rust/src/x.rs:1:1: 1:2");
}

#[test]
fn without_home_only_marker_goes() {
    let e = env(None, None);
    assert_eq!(clean_span("src/lib.rs:1:1: 1:2 (#0)", &e), "src/lib.rs:1:1: 1:2");
}

#[test]
fn other_contexts_are_kept() {
    let e = env(None, None);
    assert_eq!(clean_span("src/lib.rs:1:1: 1:2 (#5)", &e), "src/lib.rs:1:1: 1:2 (#5)");
}

#[test]
fn repeated_marker_is_removed_entirely() {
    assert_eq!(trim_root_context("a (#0) (#0)"), "a");
    assert_eq!(trim_root_context(" (#0)"), "");
    assert_eq!(trim_root_context("a (#0) b"), "a (#0) b");
}

#[test]
fn trimming_twice_changes_nothing_more() {
    let once = trim_root_context("x.rs:1:1 (#0) (#0)");
    assert_eq!(trim_root_context(&once), once);
}

#[test]
fn prefix_check() {
    assert!(starts_with("/home/u/x", "/home/u"));
    assert!(starts_with("abc", ""));
    assert!(!starts_with("/home", "/home/u"));
    assert!(!starts_with("/house/u", "/home"));
}

#[test]
fn paths_are_joined_by_the_unix_rule() {
    assert_eq!(join_path("/w", "src/a.rs"), "/w/src/a.rs");
    assert_eq!(join_path("/w/", "src/a.rs"), "/w/src/a.rs");
    assert_eq!(join_path("", "src/a.rs"), "src/a.rs");
    assert_eq!(join_path("/w", "/abs/a.rs"), "/abs/a.rs");
    assert_eq!(join_path("/w", ""), "/w/");
    assert_eq!(join_path(&std::path::PathBuf::from("/w").join("x").to_string_lossy(), "y"), "/w/x/y");
}
