use buddy::locator::{
    ascend_search, checking_line, find_project_path, found_line, hint_line, marker_path,
    no_project_line, not_found_line, project_needle, PROJECT_MARKER, WALK_ROOT,
};

fn strings(items: &[&str]) -> Vec<String> {
    items.iter().map(|s| s.to_string()).collect()
}

#[test]
fn marker_lies_below_the_directory() {
    assert_eq!(PROJECT_MARKER, "storage/framework/core/buddy");
    assert_eq!(marker_path("/home/u/app"), "/home/u/app/storage/framework/core/buddy");
    assert_eq!(marker_path(""), "storage/framework/core/buddy");
}

#[test]
fn needle_is_the_name_and_the_marker_between_separators() {
    assert_eq!(project_needle("foo"), "foo/storage/framework/core/buddy/");
    assert_eq!(project_needle(""), "/storage/framework/core/buddy/");
}

#[test]
fn walk_starts_at_the_root() {
    assert_eq!(WALK_ROOT, "/");
}

#[test]
fn ascend_finds_the_start_itself() {
    let existing = strings(&["/w/app/storage/framework/core/buddy"]);
    assert_eq!(ascend_search("/w/app", &existing), Some("/w/app".to_string()));
}

#[test]
fn ascend_finds_the_one_marked_ancestor() {
    let existing = strings(&["/w/app/storage/framework/core/buddy", "/w/app/src/lib"]);
    assert_eq!(ascend_search("/w/app/src/lib/deep", &existing), Some("/w/app".to_string()));
}

#[test]
fn ascend_takes_the_nearest_of_two_marked_ancestors() {
    let existing = strings(&[
        "/w/storage/framework/core/buddy",
        "/w/app/inner/storage/framework/core/buddy",
    ]);
    assert_eq!(ascend_search("/w/app/inner/src", &existing), Some("/w/app/inner".to_string()));
}

#[test]
fn ascend_without_a_marker_finds_nothing() {
    let existing = strings(&["/w/app/src", "/w/other/storage/framework/core/buddy"]);
    assert_eq!(ascend_search("/w/app/src", &existing), None);
    assert_eq!(ascend_search("/w/app/src", &Vec::new()), None);
}

#[test]
fn ascend_does_not_ask_about_the_root() {
    let existing = strings(&["/storage/framework/core/buddy"]);
    assert_eq!(ascend_search("/w/app", &existing), None);
    assert_eq!(ascend_search("/", &existing), None);
}

#[test]
fn ascend_from_a_relative_path_ends_at_the_empty_path() {
    let existing = strings(&["storage/framework/core/buddy"]);
    assert_eq!(ascend_search("a/b", &existing), Some(String::new()));
    assert_eq!(ascend_search("a/b", &Vec::new()), None);
}

#[test]
fn ascend_ends_on_a_very_deep_path() {
    let mut start = String::new();
    for _ in 0..300 {
        start.push_str("/d");
    }
    assert_eq!(ascend_search(&start, &Vec::new()), None);
    let existing = strings(&["/d/storage/framework/core/buddy"]);
    assert_eq!(ascend_search(&start, &existing), Some("/d".to_string()));
}

#[test]
fn descend_matches_the_project_and_not_its_longer_namesake() {
    let dirs = strings(&[
        "/srv",
        "/srv/foo-bar/storage/framework/core/buddy/",
        "/srv/foo/storage/framework/core/buddy/",
    ]);
    let report = find_project_path(&dirs, "foo");
    assert_eq!(report.found, Some("/srv/foo/storage/framework/core/buddy/".to_string()));
    assert_eq!(
        report.notices,
        strings(&[
            "Checking /srv...",
            "Checking /srv/foo-bar/storage/framework/core/buddy/...",
            "Checking /srv/foo/storage/framework/core/buddy/...",
        ])
    );
}

#[test]
fn descend_takes_the_first_match_and_stops() {
    let dirs = strings(&[
        "/a/foo/storage/framework/core/buddy/src",
        "/b/foo/storage/framework/core/buddy/src",
    ]);
    let report = find_project_path(&dirs, "foo");
    assert_eq!(report.found, Some("/a/foo/storage/framework/core/buddy/src".to_string()));
    assert_eq!(report.notices.len(), 1);
}

#[test]
fn descend_needs_the_separator_after_the_marker() {
    let dirs = strings(&["/srv/foo", "/srv/foo/storage/framework/core/buddy"]);
    let report = find_project_path(&dirs, "foo");
    assert_eq!(report.found, None);
    assert_eq!(report.notices.len(), 2);
}

#[test]
fn descend_matches_a_name_that_ends_in_the_project_name() {
    let dirs = strings(&["/srv/xfoo/storage/framework/core/buddy/bin"]);
    let report = find_project_path(&dirs, "foo");
    assert_eq!(report.found, Some("/srv/xfoo/storage/framework/core/buddy/bin".to_string()));
}

#[test]
fn descend_through_nothing_finds_nothing() {
    let report = find_project_path(&Vec::new(), "foo");
    assert_eq!(report.found, None);
    assert!(report.notices.is_empty());
}

#[test]
fn lines_of_the_searches() {
    assert_eq!(checking_line("/srv/foo"), "Checking /srv/foo...");
    assert_eq!(found_line("/srv/foo"), "Project found at /srv/foo.");
    assert_eq!(
        hint_line("/srv/foo"),
        "Run 'cd /srv/foo' to navigate to the project directory."
    );
    assert_eq!(not_found_line(), "Project directory not found.");
    assert_eq!(
        no_project_line(),
        "No stacks project found. Do you want to create a new stacks project?"
    );
}
