//! The dispatcher: from a command line to the steps that deal with it.
//!
//! The caller drives it. `begin` gives the first step; the caller prints the
//! step's lines, carries out its action, and hands the answer to `step`,
//! until the action is to leave. The dispatcher itself touches neither files
//! nor processes, and each of its steps is the one that `crate::model` gives.

use vstd::prelude::*;
use vstd::string::*;
use crate::locator::{
    checking_line,
    found_line,
    hint_line,
    marker_path,
    no_project_line,
    not_found_line,
    project_needle,
    WALK_ROOT,
};
use crate::model;
use crate::path::{at_root, parent_dir};
use crate::proxy::{
    failure_notice,
    prefixed_with_new,
    ExitOutcome,
    Fallback,
    LOCAL_PROXY,
    NEW_PROJECT_PROXY,
};
use crate::text::contains;
use crate::usage::usage_lines;
use crate::version::{manifest_path, manifest_version, ManifestLookup, VersionError};

verus! {

/// A sub-command, as the command line gave it.
#[derive(Clone, Debug, PartialEq, Eq)]
pub enum Command {
    /// `new [name]`, or `create`: start a project. Without a name, `name` is
    /// empty.
    New { name: String },
    /// `cd <project>`: tell where a project lies.
    Cd { project: String },
    /// `version`: print the version.
    Version,
    /// `help`: print the usage summary.
    Help,
}

impl View for Command {
    type V = model::Command;

    open spec fn view(&self) -> model::Command {
        match self {
            Command::New { name } => model::Command::New { name: name@ },
            Command::Cd { project } => model::Command::Cd { project: project@ },
            Command::Version => model::Command::Version,
            Command::Help => model::Command::Help,
        }
    }
}

/// What the dispatcher waits for.
#[derive(Clone, Debug, PartialEq, Eq)]
pub enum State {
    /// Whether the script `program` exists.
    LocatingProxy { program: String, args: Vec<String>, fallback: Fallback },
    /// The working directory.
    AwaitingWorkingDir { args: Vec<String> },
    /// Whether `dir` holds the project marker.
    Ascending { dir: String, args: Vec<String> },
    /// The end of the child process.
    AwaitingChild,
    /// The next directory of the walk; `text` is what its path must hold.
    Descending { text: String },
    /// The path of the running program.
    AwaitingProgram,
    /// Whether the manifest at `path` exists.
    LocatingManifest { path: String },
    /// What reading the manifest brings.
    AwaitingManifest,
    /// Nothing: the command is dealt with.
    Done,
}

impl View for State {
    type V = model::State;

    open spec fn view(&self) -> model::State {
        match self {
            State::LocatingProxy { program, args, fallback } => model::State::LocatingProxy {
                program: program@,
                args: args.deep_view(),
                fallback: *fallback,
            },
            State::AwaitingWorkingDir { args } => model::State::AwaitingWorkingDir {
                args: args.deep_view(),
            },
            State::Ascending { dir, args } => model::State::Ascending {
                dir: dir@,
                args: args.deep_view(),
            },
            State::AwaitingChild => model::State::AwaitingChild,
            State::Descending { text } => model::State::Descending { text: text@ },
            State::AwaitingProgram => model::State::AwaitingProgram,
            State::LocatingManifest { path } => model::State::LocatingManifest { path: path@ },
            State::AwaitingManifest => model::State::AwaitingManifest,
            State::Done => model::State::Done,
        }
    }
}

/// What the dispatcher asks its caller to do.
#[derive(Clone, Debug, PartialEq, Eq)]
pub enum Action {
    /// Tell whether `path` exists, as seen from the working directory.
    Probe { path: String },
    /// Tell the working directory.
    WorkingDir,
    /// Run `program` with `args` as a child, on this program's own input and
    /// output, and wait for it to end.
    Spawn { program: String, args: Vec<String> },
    /// Give the next directory of the walk below `root`. The walk starts with
    /// the first such request; what cannot be read is passed over.
    Walk { root: String, follow_links: bool },
    /// Tell the path of the running program.
    Program,
    /// Read the manifest at `path`, and tell which version it declares.
    ReadManifest { path: String },
    /// End the program with this status.
    Exit { code: i32 },
    /// End the program with this error.
    Abort { error: VersionError },
}

impl View for Action {
    type V = model::Action;

    open spec fn view(&self) -> model::Action {
        match self {
            Action::Probe { path } => model::Action::Probe { path: path@ },
            Action::WorkingDir => model::Action::WorkingDir,
            Action::Spawn { program, args } => model::Action::Spawn {
                program: program@,
                args: args.deep_view(),
            },
            Action::Walk { root, follow_links } => model::Action::Walk {
                root: root@,
                follow_links: *follow_links,
            },
            Action::Program => model::Action::Program,
            Action::ReadManifest { path } => model::Action::ReadManifest { path: path@ },
            Action::Exit { code } => model::Action::Exit { code: *code },
            Action::Abort { error } => model::Action::Abort { error: *error },
        }
    }
}

/// The answer to an action.
#[derive(Clone, Debug, PartialEq, Eq)]
pub enum Event {
    /// To `Probe`: whether the path exists.
    Probed { exists: bool },
    /// To `WorkingDir`: the working directory.
    WorkingDir { path: String },
    /// To `Spawn`: how the child ended.
    Exited { outcome: ExitOutcome },
    /// To `Walk`: the next directory, or `None` at the end of the walk.
    Visited { dir: Option<String> },
    /// To `Program`: the path of the running program.
    Program { path: String },
    /// To `ReadManifest`: what reading it brought.
    Manifest { lookup: ManifestLookup },
}

impl View for Event {
    type V = model::Event;

    open spec fn view(&self) -> model::Event {
        match self {
            Event::Probed { exists } => model::Event::Probed { exists: *exists },
            Event::WorkingDir { path } => model::Event::WorkingDir { path: path@ },
            Event::Exited { outcome } => model::Event::Exited { outcome: *outcome },
            Event::Visited { dir } => model::Event::Visited { dir: dir.deep_view() },
            Event::Program { path } => model::Event::Program { path: path@ },
            Event::Manifest { lookup } => model::Event::Manifest { lookup: lookup@ },
        }
    }
}

/// One step of the dispatcher: the lines to print, then the action to take,
/// and the state in which its answer is awaited.
#[derive(Clone, Debug, PartialEq, Eq)]
pub struct Transition {
    pub state: State,
    pub output: Vec<String>,
    pub action: Action,
}

impl View for Transition {
    type V = model::Transition;

    open spec fn view(&self) -> model::Transition {
        model::Transition {
            state: self.state@,
            output: self.output.deep_view(),
            action: self.action@,
        }
    }
}

/// The sub-command as the model sees it.
pub open spec fn command_view(command: Option<Command>) -> Option<model::Command> {
    match command {
        Some(command) => Some(command@),
        None => None,
    }
}

/// The step as the model sees it.
pub open spec fn step_view(next: Option<Transition>) -> Option<model::Transition> {
    match next {
        Some(next) => Some(next@),
        None => None,
    }
}

/// No line.
fn no_lines() -> (lines: Vec<String>)
    ensures
        lines.deep_view() == Seq::<Seq<char>>::empty(),
{
    let lines: Vec<String> = Vec::new();
    proof {
        assert(lines.deep_view() =~= Seq::<Seq<char>>::empty());
    }
    lines
}

/// The line `line` alone.
fn one_line(line: String) -> (lines: Vec<String>)
    ensures
        lines.deep_view() == seq![line@],
{
    let mut lines: Vec<String> = Vec::new();
    lines.push(line);
    proof {
        assert(lines.deep_view() =~= seq![line@]);
    }
    lines
}

/// The step that ends the program: print `output`, leave with `code`.
fn finish(output: Vec<String>, code: i32) -> (last: Transition)
    ensures
        last@ == model::finish(output.deep_view(), code),
{
    Transition { state: State::Done, output, action: Action::Exit { code } }
}

/// The step that asks whether the script `program` exists.
fn try_proxy(program: &str, args: Vec<String>, fallback: Fallback) -> (next: Transition)
    ensures
        next@ == model::try_proxy(program@, args.deep_view(), fallback),
{
    Transition {
        state: State::LocatingProxy { program: program.to_owned(), args, fallback },
        output: no_lines(),
        action: Action::Probe { path: program.to_owned() },
    }
}

/// The step that runs `program` with `args`.
fn spawn(program: String, args: Vec<String>) -> (next: Transition)
    ensures
        next@ == model::spawn(program@, args.deep_view()),
{
    Transition {
        state: State::AwaitingChild,
        output: no_lines(),
        action: Action::Spawn { program, args },
    }
}

/// The step that ends a search upwards without a project.
fn give_up() -> (last: Transition)
    ensures
        last@ == model::give_up(),
{
    finish(one_line(no_project_line()), 1)
}

/// The step that takes the search upwards to `dir`.
fn ascend(dir: String, args: Vec<String>) -> (next: Transition)
    ensures
        next@ == model::ascend(dir@, args.deep_view()),
{
    if at_root(dir.as_str()) {
        give_up()
    } else {
        let path = marker_path(dir.as_str());
        Transition {
            state: State::Ascending { dir, args },
            output: no_lines(),
            action: Action::Probe { path },
        }
    }
}

/// The step that asks the walk for its next directory.
fn walk_on(text: String, output: Vec<String>) -> (next: Transition)
    ensures
        next@ == model::walk_on(text@, output.deep_view()),
{
    Transition {
        state: State::Descending { text },
        output,
        action: Action::Walk { root: WALK_ROOT.to_owned(), follow_links: true },
    }
}

/// `new`: the script in the working directory gets the command line; without
/// it, a project is looked for from the working directory upwards, and the
/// program fails where there is none. The name plays no part in this.
pub fn create_new_project(name: &str, args: Vec<String>) -> (first: Transition)
    ensures
        first@ == model::create_new_project(name@, args.deep_view()),
{
    try_proxy(NEW_PROJECT_PROXY, args, Fallback::Ascend)
}

/// `cd`: the project is looked for in a walk below the root, and where it
/// lies is printed. Nothing changes a directory: the caller's shell is out of
/// reach.
pub fn change_directory(project: &str) -> (first: Transition)
    ensures
        first@ == model::change_directory(project@),
{
    walk_on(project_needle(project), no_lines())
}

/// `version`: the built-in version is printed; where it is empty, the
/// manifest beside the program is looked for, and so the program's own path
/// is asked first.
pub fn print_version(built_in: &str) -> (first: Transition)
    ensures
        first@ == model::print_version(built_in@),
{
    if !built_in.is_empty() {
        finish(one_line(built_in.to_owned()), 0)
    } else {
        Transition { state: State::AwaitingProgram, output: no_lines(), action: Action::Program }
    }
}

/// `help`: the usage summary is printed.
pub fn print_help() -> (first: Transition)
    ensures
        first@ == model::print_help(),
{
    finish(usage_lines(), 0)
}

/// No sub-command: the script in the working directory gets the command
/// line; without it, the usage summary is printed.
pub fn proxy_command(args: Vec<String>) -> (first: Transition)
    ensures
        first@ == model::proxy_command(args.deep_view()),
{
    try_proxy(LOCAL_PROXY, args, Fallback::Help)
}

/// The first step for a command line: `command` is its sub-command, `args`
/// are its arguments after the program's name, and `built_in` is the version
/// built into the program, empty where there is none.
pub fn begin(command: Option<Command>, args: Vec<String>, built_in: &str) -> (first: Transition)
    ensures
        first@ == model::begin(command_view(command), args.deep_view(), built_in@),
{
    match command {
        Some(Command::New { name }) => create_new_project(name.as_str(), args),
        Some(Command::Cd { project }) => change_directory(project.as_str()),
        Some(Command::Version) => print_version(built_in),
        Some(Command::Help) => print_help(),
        None => proxy_command(args),
    }
}

/// The step after the answer on the script.
fn after_proxy_probe(program: String, args: Vec<String>, fallback: Fallback, exists: bool) -> (next:
    Transition)
    ensures
        next@ == model::after_proxy_probe(program@, args.deep_view(), fallback, exists),
{
    if exists {
        spawn(program, args)
    } else {
        match fallback {
            Fallback::Help => print_help(),
            Fallback::Ascend => Transition {
                state: State::AwaitingWorkingDir { args },
                output: no_lines(),
                action: Action::WorkingDir,
            },
        }
    }
}

/// The step after the answer on the marker in `dir`.
fn after_marker_probe(dir: String, args: Vec<String>, exists: bool) -> (next: Transition)
    ensures
        next@ == model::after_marker_probe(dir@, args.deep_view(), exists),
{
    if exists {
        spawn(LOCAL_PROXY.to_owned(), prefixed_with_new(args))
    } else {
        match parent_dir(dir.as_str()) {
            Some(up) => ascend(up, args),
            None => give_up(),
        }
    }
}

/// The step after the child ended.
fn after_child(outcome: ExitOutcome) -> (last: Transition)
    ensures
        last@ == model::after_child(outcome),
{
    match failure_notice(outcome) {
        Some(line) => finish(one_line(line), 0),
        None => finish(no_lines(), 0),
    }
}

/// The step after the walk's answer.
fn after_visit(text: String, dir: Option<String>) -> (next: Transition)
    ensures
        next@ == model::after_visit(text@, dir.deep_view()),
{
    match dir {
        Some(dir) => {
            let mut output = one_line(checking_line(dir.as_str()));
            if contains(dir.as_str(), text.as_str()) {
                let ghost looked = output.deep_view();
                let found = found_line(dir.as_str());
                let hint = hint_line(dir.as_str());
                output.push(found);
                output.push(hint);
                proof {
                    assert(output.deep_view() =~= looked.push(found@).push(hint@));
                    assert(output.deep_view() =~= seq![
                        crate::locator::checking(dir@),
                        crate::locator::found_at(dir@),
                        crate::locator::hint(dir@),
                    ]);
                }
                finish(output, 0)
            } else {
                walk_on(text, output)
            }
        },
        None => finish(one_line(not_found_line()), 0),
    }
}

/// The step after the program's path is known.
fn after_program(program: String) -> (next: Transition)
    ensures
        next@ == model::after_program(program@),
{
    match manifest_path(program.as_str()) {
        Some(path) => {
            let asked = path.clone();
            Transition {
                state: State::LocatingManifest { path },
                output: no_lines(),
                action: Action::Probe { path: asked },
            }
        },
        None => after_manifest(ManifestLookup::NoDirectory),
    }
}

/// The step after the answer on the manifest at `path`.
fn after_manifest_probe(path: String, exists: bool) -> (next: Transition)
    ensures
        next@ == model::after_manifest_probe(path@, exists),
{
    if exists {
        Transition {
            state: State::AwaitingManifest,
            output: no_lines(),
            action: Action::ReadManifest { path },
        }
    } else {
        after_manifest(ManifestLookup::Missing)
    }
}

/// The step after the manifest was looked for.
fn after_manifest(lookup: ManifestLookup) -> (last: Transition)
    ensures
        last@ == model::after_manifest(lookup@),
{
    match manifest_version(lookup) {
        Ok(version) => finish(one_line(version), 0),
        Err(error) => Transition {
            state: State::Done,
            output: no_lines(),
            action: Action::Abort { error },
        },
    }
}

/// The step that `event` leads to in `state`. It is `None` exactly where
/// `event` is no answer to what `state` waits for; in `Done` nothing is.
pub fn step(state: State, event: Event) -> (next: Option<Transition>)
    ensures
        step_view(next) == model::step(state@, event@),
{
    match state {
        State::LocatingProxy { program, args, fallback } => match event {
            Event::Probed { exists } => Some(after_proxy_probe(program, args, fallback, exists)),
            _ => None,
        },
        State::AwaitingWorkingDir { args } => match event {
            Event::WorkingDir { path } => Some(ascend(path, args)),
            _ => None,
        },
        State::Ascending { dir, args } => match event {
            Event::Probed { exists } => Some(after_marker_probe(dir, args, exists)),
            _ => None,
        },
        State::AwaitingChild => match event {
            Event::Exited { outcome } => Some(after_child(outcome)),
            _ => None,
        },
        State::Descending { text } => match event {
            Event::Visited { dir } => Some(after_visit(text, dir)),
            _ => None,
        },
        State::AwaitingProgram => match event {
            Event::Program { path } => Some(after_program(path)),
            _ => None,
        },
        State::LocatingManifest { path } => match event {
            Event::Probed { exists } => Some(after_manifest_probe(path, exists)),
            _ => None,
        },
        State::AwaitingManifest => match event {
            Event::Manifest { lookup } => Some(after_manifest(lookup)),
            _ => None,
        },
        State::Done => None,
    }
}

} // verus!
