use buddy::path::{at_root, join_path, parent_dir};

#[test]
fn parent_drops_the_last_name() {
    assert_eq!(parent_dir("/home/user/project"), Some("/home/user".to_string()));
    assert_eq!(parent_dir("/home/user"), Some("/home".to_string()));
}

#[test]
fn parent_of_a_name_below_the_root_is_the_root() {
    assert_eq!(parent_dir("/home"), Some("/".to_string()));
    assert_eq!(parent_dir("//home"), Some("/".to_string()));
}

#[test]
fn parent_ignores_separators_at_the_end_and_runs_of_them() {
    assert_eq!(parent_dir("/a/b/"), Some("/a".to_string()));
    assert_eq!(parent_dir("/a//b"), Some("/a".to_string()));
    assert_eq!(parent_dir("/a/b///"), Some("/a".to_string()));
}

#[test]
fn parent_of_a_single_relative_name_is_empty() {
    assert_eq!(parent_dir("project"), Some(String::new()));
    assert_eq!(parent_dir("a/b"), Some("a".to_string()));
}

#[test]
fn paths_without_a_name_have_no_parent() {
    assert_eq!(parent_dir("/"), None);
    assert_eq!(parent_dir(""), None);
    assert_eq!(parent_dir("///"), None);
}

#[test]
fn parent_counts_characters_not_bytes() {
    assert_eq!(parent_dir("/caf\u{e9}/\u{fc}ber"), Some("/caf\u{e9}".to_string()));
}

#[test]
fn join_puts_one_separator_between() {
    assert_eq!(join_path("/a", "b/c"), "/a/b/c");
    assert_eq!(join_path("/a/", "b"), "/a/b");
    assert_eq!(join_path("/", "b"), "/b");
}

#[test]
fn join_with_an_empty_directory_is_the_relative_path() {
    assert_eq!(join_path("", "b/c"), "b/c");
}

#[test]
fn join_keeps_a_path_that_starts_at_the_root() {
    assert_eq!(join_path("/a", "/etc"), "/etc");
}

#[test]
fn only_a_single_separator_is_the_root() {
    assert!(at_root("/"));
    assert!(!at_root("//"));
    assert!(!at_root(""));
    assert!(!at_root("/a"));
}
