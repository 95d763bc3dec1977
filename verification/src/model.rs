//! The dispatcher as a state machine over plain text.
//!
//! The dispatcher does nothing to the world by itself. It answers each event
//! with what is to be printed, the next action, and the state in which it
//! waits for that action's answer. Everything in this file is mathematics:
//! `crate::dispatcher` holds the executable machine, which is proved to take
//! the same steps.

use vstd::prelude::*;
use crate::locator::{
    checking,
    found_at,
    hint,
    marker_at,
    needle,
    no_project,
    not_found,
    WALK_ROOT,
};
use crate::path::{is_root, parent};
use crate::proxy::{notice, with_new, ExitOutcome, Fallback, LOCAL_PROXY, NEW_PROJECT_PROXY};
use crate::text::is_substring;
use crate::usage::usage;
use crate::version::{from_manifest, manifest_of, ManifestLookupView, VersionError};

verus! {

/// A sub-command, as the command line gave it.
pub enum Command {
    /// `new [name]`, or `create`.
    New { name: Seq<char> },
    /// `cd <project>`.
    Cd { project: Seq<char> },
    /// `version`.
    Version,
    /// `help`.
    Help,
}

/// What the dispatcher waits for.
pub enum State {
    /// Whether the script `program` exists.
    LocatingProxy { program: Seq<char>, args: Seq<Seq<char>>, fallback: Fallback },
    /// The working directory.
    AwaitingWorkingDir { args: Seq<Seq<char>> },
    /// Whether `dir` holds the project marker.
    Ascending { dir: Seq<char>, args: Seq<Seq<char>> },
    /// The end of the child process.
    AwaitingChild,
    /// The next directory of the walk; `text` is what its path must hold.
    Descending { text: Seq<char> },
    /// The path of the running program.
    AwaitingProgram,
    /// Whether the manifest at `path` exists.
    LocatingManifest { path: Seq<char> },
    /// What reading the manifest brings.
    AwaitingManifest,
    /// Nothing: the command is dealt with.
    Done,
}

/// What the dispatcher asks for.
pub enum Action {
    /// Tell whether `path` exists, as seen from the working directory.
    Probe { path: Seq<char> },
    /// Tell the working directory.
    WorkingDir,
    /// Run `program` with `args` as a child, on this program's own input and
    /// output, and wait for it to end.
    Spawn { program: Seq<char>, args: Seq<Seq<char>> },
    /// Give the next directory of the walk below `root`. The walk starts with
    /// the first such request; what cannot be read is passed over.
    Walk { root: Seq<char>, follow_links: bool },
    /// Tell the path of the running program.
    Program,
    /// Read the manifest at `path`, and tell which version it declares.
    ReadManifest { path: Seq<char> },
    /// End the program with this status.
    Exit { code: i32 },
    /// End the program with this error.
    Abort { error: VersionError },
}

/// The answer to an action.
pub enum Event {
    /// To `Probe`: whether the path exists.
    Probed { exists: bool },
    /// To `WorkingDir`: the working directory.
    WorkingDir { path: Seq<char> },
    /// To `Spawn`: how the child ended.
    Exited { outcome: ExitOutcome },
    /// To `Walk`: the next directory, or `None` at the end of the walk.
    Visited { dir: Option<Seq<char>> },
    /// To `Program`: the path of the running program.
    Program { path: Seq<char> },
    /// To `ReadManifest`: what reading it brought.
    Manifest { lookup: ManifestLookupView },
}

/// One step of the dispatcher: the lines to print, then the action to take,
/// and the state in which its answer is awaited.
pub struct Transition {
    pub state: State,
    pub output: Seq<Seq<char>>,
    pub action: Action,
}

/// The step that ends the program: print `output`, leave with `code`.
pub open spec fn finish(output: Seq<Seq<char>>, code: i32) -> Transition {
    Transition { state: State::Done, output, action: Action::Exit { code } }
}

/// The step that asks whether the script `program` exists.
pub open spec fn try_proxy(program: Seq<char>, args: Seq<Seq<char>>, fallback: Fallback) -> Transition {
    Transition {
        state: State::LocatingProxy { program, args, fallback },
        output: Seq::empty(),
        action: Action::Probe { path: program },
    }
}

/// The step that runs `program` with `args`.
pub open spec fn spawn(program: Seq<char>, args: Seq<Seq<char>>) -> Transition {
    Transition {
        state: State::AwaitingChild,
        output: Seq::empty(),
        action: Action::Spawn { program, args },
    }
}

/// The step that ends a search upwards without a project: it is reported, and
/// the program fails.
pub open spec fn give_up() -> Transition {
    finish(seq![no_project()], 1)
}

/// The step that takes the search upwards to `dir`: at the root the search is
/// over, anywhere else the marker is asked for.
pub open spec fn ascend(dir: Seq<char>, args: Seq<Seq<char>>) -> Transition {
    if is_root(dir) {
        give_up()
    } else {
        Transition {
            state: State::Ascending { dir, args },
            output: Seq::empty(),
            action: Action::Probe { path: marker_at(dir) },
        }
    }
}

/// The step that asks the walk for its next directory.
pub open spec fn walk_on(text: Seq<char>, output: Seq<Seq<char>>) -> Transition {
    Transition {
        state: State::Descending { text },
        output,
        action: Action::Walk { root: WALK_ROOT@, follow_links: true },
    }
}

/// `new`: the script in the working directory gets the command line; without
/// it, a project is looked for from the working directory upwards.
pub open spec fn create_new_project(name: Seq<char>, args: Seq<Seq<char>>) -> Transition {
    try_proxy(NEW_PROJECT_PROXY@, args, Fallback::Ascend)
}

/// `cd`: the project is looked for in a walk below the root.
pub open spec fn change_directory(project: Seq<char>) -> Transition {
    walk_on(needle(project), Seq::empty())
}

/// The step that ends the program with `error`, and prints nothing.
pub open spec fn abort(error: VersionError) -> Transition {
    Transition { state: State::Done, output: Seq::empty(), action: Action::Abort { error } }
}

/// `version`: the built-in version is printed; where there is none, the
/// manifest beside the program is looked for, and so the program's own path
/// is asked first.
pub open spec fn print_version(built_in: Seq<char>) -> Transition {
    if built_in.len() > 0 {
        finish(seq![built_in], 0)
    } else {
        Transition {
            state: State::AwaitingProgram,
            output: Seq::empty(),
            action: Action::Program,
        }
    }
}

/// `help`: the usage summary is printed.
pub open spec fn print_help() -> Transition {
    finish(usage(), 0)
}

/// No sub-command: the script in the working directory gets the command
/// line; without it, the usage summary is printed.
pub open spec fn proxy_command(args: Seq<Seq<char>>) -> Transition {
    try_proxy(LOCAL_PROXY@, args, Fallback::Help)
}

/// The first step, for a command line whose arguments are `args`.
pub open spec fn begin(command: Option<Command>, args: Seq<Seq<char>>, built_in: Seq<char>) -> Transition {
    match command {
        Some(Command::New { name }) => create_new_project(name, args),
        Some(Command::Cd { project }) => change_directory(project),
        Some(Command::Version) => print_version(built_in),
        Some(Command::Help) => print_help(),
        None => proxy_command(args),
    }
}

/// The step after the answer on the script: it is run where it exists, with
/// the arguments as they came; else the fallback takes over.
pub open spec fn after_proxy_probe(
    program: Seq<char>,
    args: Seq<Seq<char>>,
    fallback: Fallback,
    exists: bool,
) -> Transition {
    if exists {
        spawn(program, args)
    } else {
        match fallback {
            Fallback::Help => print_help(),
            Fallback::Ascend => Transition {
                state: State::AwaitingWorkingDir { args },
                output: Seq::empty(),
                action: Action::WorkingDir,
            },
        }
    }
}

/// The step after the answer on the marker in `dir`: where it exists, the
/// script is run with `new` in front of the arguments; else the search goes
/// on in the directory above, and ends where there is none.
pub open spec fn after_marker_probe(dir: Seq<char>, args: Seq<Seq<char>>, exists: bool) -> Transition {
    if exists {
        spawn(LOCAL_PROXY@, with_new(args))
    } else {
        match parent(dir) {
            Some(up) => ascend(up, args),
            None => give_up(),
        }
    }
}

/// The step after the child ended: a failure is reported, and the program
/// ends well either way.
pub open spec fn after_child(outcome: ExitOutcome) -> Transition {
    match notice(outcome) {
        Some(line) => finish(seq![line], 0),
        None => finish(Seq::empty(), 0),
    }
}

/// The step after the walk's answer: a directory is reported as looked at,
/// and ends the search where its path holds `text`; the end of the walk ends
/// it without a result.
pub open spec fn after_visit(text: Seq<char>, dir: Option<Seq<char>>) -> Transition {
    match dir {
        Some(dir) => if is_substring(text, dir) {
            finish(seq![checking(dir), found_at(dir), hint(dir)], 0)
        } else {
            walk_on(text, seq![checking(dir)])
        },
        None => finish(seq![not_found()], 0),
    }
}

/// The step after the program's path is known: the manifest beside it is
/// asked for, and without a directory that holds the program, the program
/// ends with an error.
pub open spec fn after_program(program: Seq<char>) -> Transition {
    match manifest_of(program) {
        Some(path) => Transition {
            state: State::LocatingManifest { path },
            output: Seq::empty(),
            action: Action::Probe { path },
        },
        None => after_manifest(ManifestLookupView::NoDirectory),
    }
}

/// The step after the answer on the manifest at `path`: where it exists it is
/// read, else the default version is printed.
pub open spec fn after_manifest_probe(path: Seq<char>, exists: bool) -> Transition {
    if exists {
        Transition {
            state: State::AwaitingManifest,
            output: Seq::empty(),
            action: Action::ReadManifest { path },
        }
    } else {
        after_manifest(ManifestLookupView::Missing)
    }
}

/// The step after the manifest was looked for: its version is printed, or the
/// program ends with the error.
pub open spec fn after_manifest(lookup: ManifestLookupView) -> Transition {
    match from_manifest(lookup) {
        Ok(version) => finish(seq![version], 0),
        Err(error) => abort(error),
    }
}

/// The step that `event` leads to in `state`, or `None` where `event` does
/// not answer what `state` waits for.
pub open spec fn step(state: State, event: Event) -> Option<Transition> {
    match state {
        State::LocatingProxy { program, args, fallback } => match event {
            Event::Probed { exists } => Some(after_proxy_probe(program, args, fallback, exists)),
            _ => None,
        },
        State::AwaitingWorkingDir { args } => match event {
            Event::WorkingDir { path } => Some(ascend(path, args)),
            _ => None,
        },
        State::Ascending { dir, args } => match event {
            Event::Probed { exists } => Some(after_marker_probe(dir, args, exists)),
            _ => None,
        },
        State::AwaitingChild => match event {
            Event::Exited { outcome } => Some(after_child(outcome)),
            _ => None,
        },
        State::Descending { text } => match event {
            Event::Visited { dir } => Some(after_visit(text, dir)),
            _ => None,
        },
        State::AwaitingProgram => match event {
            Event::Program { path } => Some(after_program(path)),
            _ => None,
        },
        State::LocatingManifest { path } => match event {
            Event::Probed { exists } => Some(after_manifest_probe(path, exists)),
            _ => None,
        },
        State::AwaitingManifest => match event {
            Event::Manifest { lookup } => Some(after_manifest(lookup)),
            _ => None,
        },
        State::Done => None,
    }
}

/// `next` taken after `so_far`: what was printed adds up.
pub open spec fn followed_by(so_far: Transition, next: Transition) -> Transition {
    Transition { state: next.state, output: so_far.output + next.output, action: next.action }
}

/// Where the dispatcher stands after `events`, one after the other, from
/// `from` on, with all that it printed on the way; `None` where one of them
/// does not answer what was asked.
pub open spec fn replay(from: Transition, events: Seq<Event>) -> Option<Transition>
    decreases events.len(),
{
    if events.len() == 0 {
        Some(from)
    } else {
        match step(from.state, events[0]) {
            Some(next) => replay(followed_by(from, next), events.drop_first()),
            None => None,
        }
    }
}

/// How many children the run through `events` from `from` on asks for,
/// `from`'s own action included.
pub open spec fn children(from: Transition, events: Seq<Event>) -> nat
    decreases events.len(),
{
    let own: nat = if from.action is Spawn {
        1
    } else {
        0
    };
    if events.len() == 0 {
        own
    } else {
        match step(from.state, events[0]) {
            Some(next) => own + children(next, events.drop_first()),
            None => own,
        }
    }
}

} // verus!
