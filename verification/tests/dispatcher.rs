use buddy::dispatcher::{
    begin, change_directory, create_new_project, print_help, print_version, proxy_command, step,
    Action, Command, Event, State, Transition,
};
use buddy::proxy::{ExitOutcome, Fallback};
use buddy::usage::usage_lines;
use buddy::version::{ManifestLookup, VersionError};

fn strings(items: &[&str]) -> Vec<String> {
    items.iter().map(|s| s.to_string()).collect()
}

/// Everything a run printed, the actions it asked for, and its last step.
struct Run {
    printed: Vec<String>,
    actions: Vec<Action>,
    state: State,
}

fn run(first: Transition, events: Vec<Event>) -> Run {
    let mut printed = first.output.clone();
    let mut actions = vec![first.action.clone()];
    let mut state = first.state;
    for event in events {
        let next = step(state, event).expect("the event answers the action");
        printed.extend(next.output.iter().cloned());
        actions.push(next.action.clone());
        state = next.state;
    }
    Run { printed, actions, state }
}

fn spawned(run: &Run) -> usize {
    run.actions.iter().filter(|a| matches!(a, Action::Spawn { .. })).count()
}

fn probed(exists: bool) -> Event {
    Event::Probed { exists }
}

#[test]
fn help_prints_the_usage_and_leaves() {
    let first = begin(Some(Command::Help), strings(&["help"]), "1.0.0");
    assert_eq!(first.output, usage_lines());
    assert_eq!(first.action, Action::Exit { code: 0 });
    assert_eq!(first.state, State::Done);
    assert_eq!(first, print_help());
}

#[test]
fn no_sub_command_asks_for_the_local_script() {
    let first = begin(None, strings(&["build", "--watch"]), "1.0.0");
    assert!(first.output.is_empty());
    assert_eq!(first.action, Action::Probe { path: "./buddy".to_string() });
    assert_eq!(
        first.state,
        State::LocatingProxy {
            program: "./buddy".to_string(),
            args: strings(&["build", "--watch"]),
            fallback: Fallback::Help,
        }
    );
    assert_eq!(first, proxy_command(strings(&["build", "--watch"])));
}

#[test]
fn present_script_gets_the_arguments_unchanged_and_in_order() {
    let args = strings(&["build", "--watch", "", "a b", "build"]);
    let done = run(begin(None, args.clone(), ""), vec![probed(true)]);
    assert_eq!(
        done.actions[1],
        Action::Spawn { program: "./buddy".to_string(), args }
    );
    assert_eq!(done.state, State::AwaitingChild);
    assert!(done.printed.is_empty());
}

#[test]
fn child_success_ends_quietly_with_status_zero() {
    let done = run(
        begin(None, strings(&["test"]), ""),
        vec![probed(true), Event::Exited { outcome: ExitOutcome::Success }],
    );
    assert!(done.printed.is_empty());
    assert_eq!(done.actions[2], Action::Exit { code: 0 });
    assert_eq!(done.state, State::Done);
    assert_eq!(spawned(&done), 1);
}

#[test]
fn child_failure_is_reported_and_the_status_stays_zero() {
    let done = run(
        begin(None, strings(&["test"]), ""),
        vec![probed(true), Event::Exited { outcome: ExitOutcome::Failure { code: Some(3) } }],
    );
    assert_eq!(done.printed, strings(&["Command failed with exit code: Some(3)"]));
    assert_eq!(done.actions[2], Action::Exit { code: 0 });
}

#[test]
fn child_ended_by_a_signal_is_reported_as_unknown() {
    let done = run(
        begin(None, Vec::new(), ""),
        vec![probed(true), Event::Exited { outcome: ExitOutcome::Failure { code: None } }],
    );
    assert_eq!(done.printed, strings(&["Command failed with exit code: unknown"]));
    assert_eq!(done.actions[2], Action::Exit { code: 0 });
}

#[test]
fn absent_script_starts_no_child_and_prints_the_usage() {
    let done = run(begin(None, strings(&["build"]), ""), vec![probed(false)]);
    assert_eq!(spawned(&done), 0);
    assert_eq!(done.printed, usage_lines());
    assert_eq!(done.actions, vec![
        Action::Probe { path: "./buddy".to_string() },
        Action::Exit { code: 0 },
    ]);
    assert_eq!(done.state, State::Done);
}

#[test]
fn help_and_the_fallback_print_the_same_bytes() {
    let help = run(begin(Some(Command::Help), strings(&["help"]), "2.0.0"), Vec::new());
    let fallback = run(begin(None, Vec::new(), ""), vec![probed(false)]);
    assert_eq!(help.printed.join("\n").into_bytes(), fallback.printed.join("\n").into_bytes());
}

#[test]
fn new_asks_for_the_script_by_its_name() {
    let first = begin(
        Some(Command::New { name: "shop".to_string() }),
        strings(&["new", "shop"]),
        "",
    );
    assert_eq!(first.action, Action::Probe { path: "buddy".to_string() });
    assert_eq!(first, create_new_project("shop", strings(&["new", "shop"])));
    assert_eq!(first, create_new_project("", strings(&["new", "shop"])));
}

#[test]
fn new_with_the_script_hands_the_command_line_over() {
    let args = strings(&["new", "shop"]);
    let done = run(
        begin(Some(Command::New { name: "shop".to_string() }), args.clone(), ""),
        vec![probed(true), Event::Exited { outcome: ExitOutcome::Success }],
    );
    assert_eq!(done.actions[1], Action::Spawn { program: "buddy".to_string(), args });
    assert_eq!(done.actions[2], Action::Exit { code: 0 });
    assert!(done.printed.is_empty());
}

#[test]
fn new_without_script_and_project_fails_with_status_one() {
    let done = run(
        begin(Some(Command::New { name: String::new() }), strings(&["new"]), ""),
        vec![
            probed(false),
            Event::WorkingDir { path: "/home/u/work".to_string() },
            probed(false),
            probed(false),
            probed(false),
        ],
    );
    assert_eq!(
        done.printed,
        strings(&["No stacks project found. Do you want to create a new stacks project?"])
    );
    assert_eq!(done.actions, vec![
        Action::Probe { path: "buddy".to_string() },
        Action::WorkingDir,
        Action::Probe { path: "/home/u/work/storage/framework/core/buddy".to_string() },
        Action::Probe { path: "/home/u/storage/framework/core/buddy".to_string() },
        Action::Probe { path: "/home/storage/framework/core/buddy".to_string() },
        Action::Exit { code: 1 },
    ]);
    assert_eq!(spawned(&done), 0);
    assert_eq!(done.state, State::Done);
}

#[test]
fn new_from_the_root_fails_without_asking_about_it() {
    let done = run(
        begin(Some(Command::New { name: String::new() }), strings(&["new"]), ""),
        vec![probed(false), Event::WorkingDir { path: "/".to_string() }],
    );
    assert_eq!(
        done.printed,
        strings(&["No stacks project found. Do you want to create a new stacks project?"])
    );
    assert_eq!(done.actions[2], Action::Exit { code: 1 });
}

#[test]
fn new_in_a_project_above_runs_the_script_with_new_in_front() {
    let done = run(
        begin(Some(Command::New { name: "shop".to_string() }), strings(&["new", "shop"]), ""),
        vec![
            probed(false),
            Event::WorkingDir { path: "/w/app/src".to_string() },
            probed(false),
            probed(true),
            Event::Exited { outcome: ExitOutcome::Failure { code: Some(2) } },
        ],
    );
    assert_eq!(done.actions[2], Action::Probe {
        path: "/w/app/src/storage/framework/core/buddy".to_string(),
    });
    assert_eq!(done.actions[3], Action::Probe {
        path: "/w/app/storage/framework/core/buddy".to_string(),
    });
    assert_eq!(done.actions[4], Action::Spawn {
        program: "./buddy".to_string(),
        args: strings(&["new", "new", "shop"]),
    });
    assert_eq!(done.actions[5], Action::Exit { code: 0 });
    assert_eq!(done.printed, strings(&["Command failed with exit code: Some(2)"]));
    assert_eq!(spawned(&done), 1);
}

#[test]
fn search_upwards_asks_once_for_each_name_of_the_path() {
    let mut cwd = String::new();
    for _ in 0..40 {
        cwd.push_str("/d");
    }
    let mut events = vec![probed(false), Event::WorkingDir { path: cwd }];
    for _ in 0..40 {
        events.push(probed(false));
    }
    let done = run(begin(Some(Command::New { name: String::new() }), Vec::new(), ""), events);
    assert_eq!(done.actions.len(), 43);
    assert_eq!(done.actions[42], Action::Exit { code: 1 });
    assert_eq!(step(done.state, probed(false)), None);
}

#[test]
fn cd_walks_from_the_root_and_follows_links() {
    let first = begin(Some(Command::Cd { project: "foo".to_string() }), strings(&["cd", "foo"]), "");
    assert!(first.output.is_empty());
    assert_eq!(first.action, Action::Walk { root: "/".to_string(), follow_links: true });
    assert_eq!(
        first.state,
        State::Descending { text: "foo/storage/framework/core/buddy/".to_string() }
    );
    assert_eq!(first, change_directory("foo"));
}

#[test]
fn cd_reports_each_directory_and_then_the_match() {
    let done = run(
        begin(Some(Command::Cd { project: "foo".to_string() }), Vec::new(), ""),
        vec![
            Event::Visited { dir: Some("/srv".to_string()) },
            Event::Visited { dir: Some("/srv/foo-bar/storage/framework/core/buddy/".to_string()) },
            Event::Visited { dir: Some("/srv/foo/storage/framework/core/buddy/".to_string()) },
        ],
    );
    assert_eq!(
        done.printed,
        strings(&[
            "Checking /srv...",
            "Checking /srv/foo-bar/storage/framework/core/buddy/...",
            "Checking /srv/foo/storage/framework/core/buddy/...",
            "Project found at /srv/foo/storage/framework/core/buddy/.",
            "Run 'cd /srv/foo/storage/framework/core/buddy/' to navigate to the project directory.",
        ])
    );
    assert_eq!(done.actions[1], Action::Walk { root: "/".to_string(), follow_links: true });
    assert_eq!(done.actions[2], Action::Walk { root: "/".to_string(), follow_links: true });
    assert_eq!(done.actions[3], Action::Exit { code: 0 });
    assert_eq!(done.state, State::Done);
}

#[test]
fn cd_at_the_end_of_the_walk_says_not_found() {
    let done = run(
        begin(Some(Command::Cd { project: "foo".to_string() }), Vec::new(), ""),
        vec![Event::Visited { dir: Some("/srv".to_string()) }, Event::Visited { dir: None }],
    );
    assert_eq!(done.printed, strings(&["Checking /srv...", "Project directory not found."]));
    assert_eq!(done.actions[2], Action::Exit { code: 0 });
}

#[test]
fn version_prints_the_built_in_version_at_once() {
    let first = begin(Some(Command::Version), strings(&["version"]), "0.3.1");
    assert_eq!(first.output, strings(&["0.3.1"]));
    assert_eq!(first.action, Action::Exit { code: 0 });
    assert_eq!(first, print_version("0.3.1"));
}

#[test]
fn version_without_built_in_version_and_manifest_prints_the_default() {
    let done = run(
        begin(Some(Command::Version), strings(&["version"]), ""),
        vec![Event::Program { path: "/opt/stacks/bin/buddy".to_string() }, probed(false)],
    );
    assert_eq!(done.printed, strings(&["0.0.0"]));
    assert_eq!(done.actions, vec![
        Action::Program,
        Action::Probe { path: "/opt/stacks/bin/../package.json".to_string() },
        Action::Exit { code: 0 },
    ]);
}

#[test]
fn version_prints_what_the_manifest_declares() {
    let done = run(
        begin(Some(Command::Version), Vec::new(), ""),
        vec![
            Event::Program { path: "/opt/stacks/bin/buddy".to_string() },
            probed(true),
            Event::Manifest { lookup: ManifestLookup::Declares { version: "0.70.23".to_string() } },
        ],
    );
    assert_eq!(done.printed, strings(&["0.70.23"]));
    assert_eq!(done.actions[2], Action::ReadManifest {
        path: "/opt/stacks/bin/../package.json".to_string(),
    });
    assert_eq!(done.actions[3], Action::Exit { code: 0 });
}

#[test]
fn version_with_a_malformed_manifest_ends_with_the_error() {
    let done = run(
        begin(Some(Command::Version), Vec::new(), ""),
        vec![
            Event::Program { path: "/opt/stacks/bin/buddy".to_string() },
            probed(true),
            Event::Manifest { lookup: ManifestLookup::Malformed },
        ],
    );
    assert!(done.printed.is_empty());
    assert_eq!(done.actions[3], Action::Abort { error: VersionError::Malformed });
}

#[test]
fn version_with_an_unreadable_manifest_ends_with_the_error() {
    let done = run(
        begin(Some(Command::Version), Vec::new(), ""),
        vec![
            Event::Program { path: "/opt/stacks/bin/buddy".to_string() },
            probed(true),
            Event::Manifest { lookup: ManifestLookup::Unreadable },
        ],
    );
    assert_eq!(done.actions[3], Action::Abort { error: VersionError::Unreadable });
}

#[test]
fn version_of_a_program_without_a_directory_ends_with_the_error() {
    let done = run(
        begin(Some(Command::Version), Vec::new(), ""),
        vec![Event::Program { path: "/".to_string() }],
    );
    assert_eq!(done.actions[1], Action::Abort { error: VersionError::NoDirectory });
}

#[test]
fn an_event_that_answers_nothing_is_refused() {
    let first = begin(None, Vec::new(), "");
    assert_eq!(step(first.state, Event::Visited { dir: None }), None);
    let first = begin(Some(Command::Cd { project: "foo".to_string() }), Vec::new(), "");
    assert_eq!(step(first.state, probed(true)), None);
    assert_eq!(step(State::AwaitingChild, probed(true)), None);
    assert_eq!(step(State::Done, Event::Exited { outcome: ExitOutcome::Success }), None);
}
