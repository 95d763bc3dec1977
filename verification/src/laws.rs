//! What holds of every search and of every run of the dispatcher.

use vstd::prelude::*;
use crate::locator::{
    ascent,
    checking,
    found_at,
    hint,
    is_first_match,
    marker_at,
    needle,
    no_match,
    no_project,
    not_found,
    search_up,
    visited,
};
use crate::model::{
    abort,
    after_child,
    after_program,
    ascend,
    begin,
    change_directory,
    children,
    finish,
    followed_by,
    give_up,
    print_help,
    replay,
    spawn,
    step,
    try_proxy,
    walk_on,
    Action,
    Command,
    Event,
    State,
    Transition,
};
use crate::path::{depth, is_root, lemma_parent_depth, lemma_parent_is_shorter, parent};
use crate::proxy::{notice, with_new, ExitOutcome, Fallback, LOCAL_PROXY};
use crate::text::is_substring;
use crate::usage::usage;
use crate::version::{
    lookup_of,
    manifest_of,
    resolve,
    ManifestLookupView,
    VersionError,
    DEFAULT_VERSION,
};

verus! {

/// A search upwards asks about at most one directory for each name of the
/// path it starts from, and one more: the path from which a relative start
/// is seen.
pub proof fn law_ascent_within_depth(start: Seq<char>)
    ensures
        ascent(start).len() <= depth(start) + 1,
    decreases start.len(),
{
    if !is_root(start) {
        lemma_parent_is_shorter(start);
        lemma_parent_depth(start);
        match parent(start) {
            Some(up) => {
                law_ascent_within_depth(up);
            },
            None => {},
        }
    }
}

/// The directories of an ascent lie one above the other: each next one is the
/// parent of the one before, and none is the root.
pub proof fn law_ascent_climbs(start: Seq<char>, at: int)
    requires
        0 <= at < ascent(start).len(),
    ensures
        ascent(start)[0] == start,
        !is_root(ascent(start)[at]),
        at + 1 < ascent(start).len() ==> parent(ascent(start)[at]) == Some(ascent(start)[at + 1]),
    decreases start.len(),
{
    lemma_parent_is_shorter(start);
    if at > 0 {
        let up = parent(start).unwrap();
        law_ascent_climbs(up, at - 1);
        if at < ascent(up).len() {
            law_ascent_climbs(up, at);
        }
    } else if ascent(start).len() > 1 {
        let up = parent(start).unwrap();
        law_ascent_climbs(up, 0);
    }
}

/// A search upwards returns the nearest directory that holds the marker:
/// where `ascent(start)[at]` holds it and none before it does, that one is
/// found. Where exactly one directory of the ascent holds the marker, it is
/// therefore the one found.
pub proof fn law_search_up_finds_nearest(start: Seq<char>, existing: Set<Seq<char>>, at: int)
    requires
        0 <= at < ascent(start).len(),
        existing.contains(marker_at(ascent(start)[at])),
        forall|j: int| 0 <= j < at ==> !existing.contains(marker_at(#[trigger] ascent(start)[j])),
    ensures
        search_up(start, existing) == Some(ascent(start)[at]),
    decreases start.len(),
{
    lemma_parent_is_shorter(start);
    if at > 0 {
        let up = parent(start).unwrap();
        assert(ascent(start)[0] == start);
        assert forall|j: int| 0 <= j < at - 1 implies !existing.contains(
            marker_at(#[trigger] ascent(up)[j]),
        ) by {
            assert(ascent(up)[j] == ascent(start)[j + 1]);
        }
        assert(ascent(up)[at - 1] == ascent(start)[at]);
        law_search_up_finds_nearest(up, existing, at - 1);
    }
}

/// A search upwards finds nothing where no directory of the ascent holds the
/// marker.
pub proof fn law_search_up_finds_nothing(start: Seq<char>, existing: Set<Seq<char>>)
    requires
        forall|j: int|
            0 <= j < ascent(start).len() ==> !existing.contains(
                marker_at(#[trigger] ascent(start)[j]),
            ),
    ensures
        search_up(start, existing) is None,
    decreases start.len(),
{
    lemma_parent_is_shorter(start);
    if !is_root(start) {
        assert(ascent(start)[0] == start);
        match parent(start) {
            Some(up) => {
                assert forall|j: int| 0 <= j < ascent(up).len() implies !existing.contains(
                    marker_at(#[trigger] ascent(up)[j]),
                ) by {
                    assert(ascent(up)[j] == ascent(start)[j + 1]);
                }
                law_search_up_finds_nothing(up, existing);
            },
            None => {},
        }
    }
}

/// What a search upwards finds is a directory of the ascent that holds the
/// marker, and no directory before it does.
pub proof fn law_search_up_is_sound(start: Seq<char>, existing: Set<Seq<char>>) -> (at: int)
    requires
        search_up(start, existing) is Some,
    ensures
        0 <= at < ascent(start).len(),
        search_up(start, existing) == Some(ascent(start)[at]),
        existing.contains(marker_at(ascent(start)[at])),
        forall|j: int| 0 <= j < at ==> !existing.contains(marker_at(#[trigger] ascent(start)[j])),
    decreases start.len(),
{
    lemma_parent_is_shorter(start);
    assert(ascent(start)[0] == start);
    if existing.contains(marker_at(start)) {
        0
    } else {
        let up = parent(start).unwrap();
        let above = law_search_up_is_sound(up, existing);
        assert forall|j: int| 0 <= j < above + 1 implies !existing.contains(
            marker_at(#[trigger] ascent(start)[j]),
        ) by {
            if j > 0 {
                assert(ascent(start)[j] == ascent(up)[j - 1]);
            }
        }
        assert(ascent(start)[above + 1] == ascent(up)[above]);
        above + 1
    }
}

/// The answers that a search upwards from `dir` gets where exactly the paths
/// in `existing` exist: one for each directory asked about, up to the first
/// that holds the marker.
pub open spec fn probes(dir: Seq<char>, existing: Set<Seq<char>>) -> Seq<Event>
    decreases dir.len(),
    via probes_decreases
{
    if is_root(dir) {
        Seq::empty()
    } else if existing.contains(marker_at(dir)) {
        seq![Event::Probed { exists: true }]
    } else {
        match parent(dir) {
            Some(up) => seq![Event::Probed { exists: false }] + probes(up, existing),
            None => seq![Event::Probed { exists: false }],
        }
    }
}

#[via_fn]
proof fn probes_decreases(dir: Seq<char>, existing: Set<Seq<char>>) {
    lemma_parent_is_shorter(dir);
}

/// How many more events a search upwards can take in `state`, the end of the
/// child it may start included.
pub open spec fn steps_left(state: State) -> nat {
    match state {
        State::Ascending { dir, args } => if is_root(dir) {
            2
        } else {
            ascent(dir).len() + 1
        },
        State::AwaitingChild => 1,
        _ => 0,
    }
}

/// `state` is one that a search upwards passes through.
pub open spec fn in_search_up(state: State) -> bool {
    state is Ascending || state is AwaitingChild || state is Done
}

/// A run goes through its first event, then through the rest.
pub proof fn lemma_replay_first(from: Transition, first: Event, rest: Seq<Event>)
    ensures
        replay(from, seq![first] + rest) == match step(from.state, first) {
            Some(next) => replay(followed_by(from, next), rest),
            None => None,
        },
{
    let events = seq![first] + rest;
    assert(events[0] == first);
    assert(events.drop_first() =~= rest);
}

/// A step that follows one that printed nothing stands as it is.
pub proof fn lemma_followed_by_silent(so_far: Transition, next: Transition)
    requires
        so_far.output.len() == 0,
    ensures
        followed_by(so_far, next) == next,
{
    assert(so_far.output + next.output =~= next.output);
}

/// Each event takes a search upwards nearer to its end.
proof fn lemma_search_up_advances(state: State, event: Event)
    requires
        in_search_up(state),
        step(state, event) is Some,
    ensures
        in_search_up(step(state, event).unwrap().state),
        steps_left(step(state, event).unwrap().state) < steps_left(state),
{
    match state {
        State::Ascending { dir, args } => {
            lemma_parent_is_shorter(dir);
        },
        _ => {},
    }
}

/// No run of a search upwards is longer than what is left of it.
proof fn lemma_search_up_run_is_bounded(from: Transition, events: Seq<Event>)
    requires
        in_search_up(from.state),
        replay(from, events) is Some,
    ensures
        events.len() <= steps_left(from.state),
    decreases events.len(),
{
    if events.len() > 0 {
        let next = step(from.state, events[0]).unwrap();
        lemma_search_up_advances(from.state, events[0]);
        lemma_search_up_run_is_bounded(followed_by(from, next), events.drop_first());
    }
}

/// A search upwards ends: whatever the answers, it takes no more events than
/// there are directories in the ascent, and one for the child that it may
/// start. With the bound on the ascent, that is at most two more than the
/// path it starts from has names.
pub proof fn law_search_up_ends(dir: Seq<char>, args: Seq<Seq<char>>, events: Seq<Event>)
    requires
        replay(ascend(dir, args), events) is Some,
    ensures
        events.len() <= ascent(dir).len() + 1,
        events.len() <= depth(dir) + 2,
{
    lemma_search_up_run_is_bounded(ascend(dir, args), events);
    law_ascent_within_depth(dir);
}

/// The dispatcher's search upwards does what `search_up` says: answered as
/// the file system `existing` answers, it runs the script with `new` in front
/// of the arguments where a project is found, and else reports that there is
/// none and leaves with status 1. It prints nothing else.
pub proof fn law_search_up_runs(dir: Seq<char>, args: Seq<Seq<char>>, existing: Set<Seq<char>>)
    ensures
        replay(ascend(dir, args), probes(dir, existing)) == Some(
            if search_up(dir, existing) is Some {
                spawn(LOCAL_PROXY@, with_new(args))
            } else {
                give_up()
            },
        ),
    decreases dir.len(),
{
    lemma_parent_is_shorter(dir);
    let from = ascend(dir, args);
    if !is_root(dir) {
        if existing.contains(marker_at(dir)) {
            let hit = Event::Probed { exists: true };
            lemma_replay_first(from, hit, Seq::empty());
            assert(seq![hit] + Seq::<Event>::empty() =~= seq![hit]);
            lemma_followed_by_silent(from, spawn(LOCAL_PROXY@, with_new(args)));
        } else {
            let miss = Event::Probed { exists: false };
            match parent(dir) {
                Some(up) => {
                    lemma_replay_first(from, miss, probes(up, existing));
                    lemma_followed_by_silent(from, ascend(up, args));
                    law_search_up_runs(up, args, existing);
                },
                None => {
                    lemma_replay_first(from, miss, Seq::empty());
                    assert(seq![miss] + Seq::<Event>::empty() =~= seq![miss]);
                    lemma_followed_by_silent(from, give_up());
                },
            }
        }
    }
}

/// `new` without the script in the working directory `cwd`: the project is
/// looked for from `cwd` upwards. Where there is none, the run ends by
/// reporting so, and the program leaves with status 1; where there is one,
/// its script is run with `new` in front of the arguments.
pub proof fn law_new_project_falls_back(
    name: Seq<char>,
    args: Seq<Seq<char>>,
    built_in: Seq<char>,
    cwd: Seq<char>,
    existing: Set<Seq<char>>,
)
    ensures
        replay(
            begin(Some(Command::New { name }), args, built_in),
            seq![Event::Probed { exists: false }, Event::WorkingDir { path: cwd }] + probes(
                cwd,
                existing,
            ),
        ) == Some(
            if search_up(cwd, existing) is Some {
                spawn(LOCAL_PROXY@, with_new(args))
            } else {
                give_up()
            },
        ),
        give_up().output == seq![no_project()],
        give_up().action == (Action::Exit { code: 1 }),
{
    let first = begin(Some(Command::New { name }), args, built_in);
    let absent = Event::Probed { exists: false };
    let told = Event::WorkingDir { path: cwd };
    let rest = probes(cwd, existing);
    assert(seq![absent, told] + rest =~= seq![absent] + (seq![told] + rest));
    lemma_replay_first(first, absent, seq![told] + rest);
    let asked = step(first.state, absent).unwrap();
    lemma_followed_by_silent(first, asked);
    lemma_replay_first(asked, told, rest);
    lemma_followed_by_silent(asked, ascend(cwd, args));
    law_search_up_runs(cwd, args, existing);
}

/// Where the script exists, it is run with exactly the arguments of the
/// command line, in their order, and the run ends after the child: a failure
/// is reported in one line, success in none, and the program leaves with
/// status 0 either way.
pub proof fn law_proxy_delegates(
    program: Seq<char>,
    args: Seq<Seq<char>>,
    fallback: Fallback,
    outcome: ExitOutcome,
)
    ensures
        step(try_proxy(program, args, fallback).state, Event::Probed { exists: true }) == Some(
            spawn(program, args),
        ),
        spawn(program, args).action == (Action::Spawn { program, args }),
        replay(
            try_proxy(program, args, fallback),
            seq![Event::Probed { exists: true }, Event::Exited { outcome }],
        ) == Some(after_child(outcome)),
        after_child(outcome).action == (Action::Exit { code: 0 }),
        after_child(outcome).output == match notice(outcome) {
            Some(line) => seq![line],
            None => Seq::empty(),
        },
        notice(outcome) is None <==> outcome is Success,
{
    let first = try_proxy(program, args, fallback);
    let present = Event::Probed { exists: true };
    let ended = Event::Exited { outcome };
    assert(seq![present, ended] =~= seq![present] + seq![ended]);
    lemma_replay_first(first, present, seq![ended]);
    lemma_followed_by_silent(first, spawn(program, args));
    assert(seq![ended] =~= seq![ended] + Seq::<Event>::empty());
    lemma_replay_first(spawn(program, args), ended, Seq::empty());
    lemma_followed_by_silent(spawn(program, args), after_child(outcome));
}

/// Where the script does not exist, nothing is run on that account: the step
/// that follows starts no child, and the fallback takes over. Without a
/// sub-command that is the usage summary.
pub proof fn law_proxy_absent(program: Seq<char>, args: Seq<Seq<char>>, fallback: Fallback)
    ensures
        !(try_proxy(program, args, fallback).action is Spawn),
        step(try_proxy(program, args, fallback).state, Event::Probed { exists: false }) is Some,
        !(step(
            try_proxy(program, args, fallback).state,
            Event::Probed { exists: false },
        ).unwrap().action is Spawn),
        children(try_proxy(program, args, fallback), seq![Event::Probed { exists: false }]) == 0,
        fallback == Fallback::Help ==> step(
            try_proxy(program, args, fallback).state,
            Event::Probed { exists: false },
        ) == Some(print_help()),
{
    let first = try_proxy(program, args, fallback);
    let absent = Event::Probed { exists: false };
    let events = seq![absent];
    assert(events.drop_first().len() == 0);
    reveal_with_fuel(children, 2);
}

/// The usage summary is one text: `help` prints it, and so does a command
/// line without a sub-command where the script is not there, whatever the
/// arguments. Both leave with status 0.
pub proof fn law_help_is_one_text(
    args: Seq<Seq<char>>,
    built_in: Seq<char>,
    other_args: Seq<Seq<char>>,
    other_built_in: Seq<char>,
)
    ensures
        begin(Some(Command::Help), args, built_in) == print_help(),
        replay(begin(None, other_args, other_built_in), seq![Event::Probed { exists: false }])
            == Some(print_help()),
        print_help().output == usage(),
        print_help().action == (Action::Exit { code: 0 }),
{
    let first = begin(None, other_args, other_built_in);
    let absent = Event::Probed { exists: false };
    assert(seq![absent] =~= seq![absent] + Seq::<Event>::empty());
    lemma_replay_first(first, absent, Seq::empty());
    lemma_followed_by_silent(first, print_help());
}

/// The answers that `version` gets where the running program lies at
/// `program`, `exists` tells whether its manifest is there, and `read` is
/// what reading the manifest gives: each is asked for only as far as the one
/// before allows.
pub open spec fn version_events(program: Seq<char>, exists: bool, read: ManifestLookupView) -> Seq<Event> {
    if manifest_of(program) is None {
        seq![Event::Program { path: program }]
    } else if !exists {
        seq![Event::Program { path: program }, Event::Probed { exists }]
    } else {
        seq![
            Event::Program { path: program },
            Event::Probed { exists },
            Event::Manifest { lookup: read },
        ]
    }
}

/// How `version` ends, given the version or the error in its place.
pub open spec fn version_ending(outcome: Result<Seq<char>, VersionError>) -> Transition {
    match outcome {
        Ok(version) => finish(seq![version], 0),
        Err(error) => abort(error),
    }
}

/// `version` prints what `resolve` gives, and only that: the built-in
/// version, without a look at anything else; else the version that the
/// manifest beside the program declares; else, without a manifest, the
/// default. Where the manifest is there and cannot be used, the program ends
/// with that error.
pub proof fn law_version_is_resolved(
    args: Seq<Seq<char>>,
    built_in: Seq<char>,
    program: Seq<char>,
    exists: bool,
    read: ManifestLookupView,
)
    ensures
        built_in.len() > 0 ==> begin(Some(Command::Version), args, built_in) == version_ending(
            resolve(built_in, lookup_of(program, exists, read)),
        ),
        built_in.len() == 0 ==> replay(
            begin(Some(Command::Version), args, built_in),
            version_events(program, exists, read),
        ) == Some(version_ending(resolve(built_in, lookup_of(program, exists, read)))),
{
    if built_in.len() == 0 {
        let first = begin(Some(Command::Version), args, built_in);
        let told = Event::Program { path: program };
        let probed = Event::Probed { exists };
        let found = Event::Manifest { lookup: read };
        let located = after_program(program);
        if manifest_of(program) is None {
            assert(seq![told] =~= seq![told] + Seq::<Event>::empty());
            lemma_replay_first(first, told, Seq::empty());
            lemma_followed_by_silent(first, located);
        } else if !exists {
            assert(seq![told, probed] =~= seq![told] + seq![probed]);
            lemma_replay_first(first, told, seq![probed]);
            lemma_followed_by_silent(first, located);
            assert(seq![probed] =~= seq![probed] + Seq::<Event>::empty());
            lemma_replay_first(located, probed, Seq::empty());
            lemma_followed_by_silent(located, step(located.state, probed).unwrap());
        } else {
            assert(seq![told, probed, found] =~= seq![told] + seq![probed, found]);
            lemma_replay_first(first, told, seq![probed, found]);
            lemma_followed_by_silent(first, located);
            assert(seq![probed, found] =~= seq![probed] + seq![found]);
            lemma_replay_first(located, probed, seq![found]);
            let reading = step(located.state, probed).unwrap();
            lemma_followed_by_silent(located, reading);
            assert(seq![found] =~= seq![found] + Seq::<Event>::empty());
            lemma_replay_first(reading, found, Seq::empty());
            lemma_followed_by_silent(reading, step(reading.state, found).unwrap());
        }
    }
}

/// Without a built-in version and without a manifest beside the program,
/// `version` prints the default, `0.0.0`, nothing else, and leaves with
/// status 0.
pub proof fn law_version_default(args: Seq<Seq<char>>, program: Seq<char>)
    requires
        manifest_of(program) is Some,
    ensures
        replay(
            begin(Some(Command::Version), args, Seq::empty()),
            seq![Event::Program { path: program }, Event::Probed { exists: false }],
        ) == Some(finish(seq![DEFAULT_VERSION@], 0)),
        DEFAULT_VERSION@ == seq!['0', '.', '0', '.', '0'],
{
    law_version_is_resolved(args, Seq::empty(), program, false, ManifestLookupView::Missing);
    reveal_strlit("0.0.0");
    assert(DEFAULT_VERSION@ =~= seq!['0', '.', '0', '.', '0']);
}

/// How many children a run may still start from `state`.
pub open spec fn children_left(state: State) -> nat {
    match state {
        State::LocatingProxy { .. } => 1,
        State::AwaitingWorkingDir { .. } => 1,
        State::Ascending { .. } => 1,
        _ => 0,
    }
}

/// The child that `at` asks for, and those that may follow it.
pub open spec fn children_due(at: Transition) -> nat {
    children_left(at.state) + if at.action is Spawn {
        1nat
    } else {
        0nat
    }
}

/// A step uses up what it starts.
proof fn lemma_step_spends_children(state: State, event: Event)
    requires
        step(state, event) is Some,
    ensures
        children_due(step(state, event).unwrap()) <= children_left(state),
{
}

/// A run starts no more children than are due where it begins.
proof fn lemma_children_are_bounded(from: Transition, events: Seq<Event>)
    ensures
        children(from, events) <= children_due(from),
    decreases events.len(),
{
    if events.len() > 0 {
        match step(from.state, events[0]) {
            Some(next) => {
                lemma_step_spends_children(from.state, events[0]);
                lemma_children_are_bounded(next, events.drop_first());
            },
            None => {},
        }
    }
}

/// Whatever the command line and whatever the answers, a run starts at most
/// one child.
pub proof fn law_at_most_one_child(
    command: Option<Command>,
    args: Seq<Seq<char>>,
    built_in: Seq<char>,
    events: Seq<Event>,
)
    ensures
        children(begin(command, args, built_in), events) <= 1,
{
    lemma_children_are_bounded(begin(command, args, built_in), events);
}

/// The program leaves with status 0, but for one case: a search upwards that
/// finds no project, which leaves with status 1. How a child ended does not
/// change the status.
pub proof fn law_exit_status(state: State, event: Event)
    requires
        step(state, event) is Some,
    ensures
        step(state, event).unwrap().action matches Action::Exit { code } ==> code == 0 || (code
            == 1 && step(state, event).unwrap() == give_up() && (state is Ascending
            || state is AwaitingWorkingDir)),
{
}

/// The first step of a command never ends the program with a failure.
pub proof fn law_begin_status(command: Option<Command>, args: Seq<Seq<char>>, built_in: Seq<char>)
    ensures
        begin(command, args, built_in).action matches Action::Exit { code } ==> code == 0,
        !(begin(command, args, built_in).action is Abort),
        !(begin(command, args, built_in).action is Spawn),
{
}

/// The answers that a walk gives which yields `dirs`, in their order, to a
/// search downwards for `text`: one directory after the other up to the first
/// whose path holds `text`, and the end of the walk where none does.
pub open spec fn visits(dirs: Seq<Seq<char>>, text: Seq<char>) -> Seq<Event>
    decreases dirs.len(),
{
    if dirs.len() == 0 {
        seq![Event::Visited { dir: None }]
    } else if is_substring(text, dirs[0]) {
        seq![Event::Visited { dir: Some(dirs[0]) }]
    } else {
        seq![Event::Visited { dir: Some(dirs[0]) }] + visits(dirs.drop_first(), text)
    }
}

/// What a search downwards for `text` prints on a walk that yields `dirs`:
/// a line for each directory looked at, and then either the two lines on the
/// first directory whose path holds `text`, or the line that says that there
/// is none.
pub open spec fn descent_report(dirs: Seq<Seq<char>>, text: Seq<char>) -> Seq<Seq<char>> {
    let looked = Seq::new(visited(dirs, text), |j: int| checking(dirs[j]));
    if visited(dirs, text) > 0 && is_substring(text, dirs[visited(dirs, text) - 1]) {
        looked + seq![
            found_at(dirs[visited(dirs, text) - 1]),
            hint(dirs[visited(dirs, text) - 1]),
        ]
    } else {
        looked + seq![not_found()]
    }
}

/// A search downwards looks at the directories up to the first whose path
/// holds the text, that one included, or at all of them.
pub proof fn law_visited_stops_at_first_match(dirs: Seq<Seq<char>>, text: Seq<char>)
    ensures
        visited(dirs, text) <= dirs.len(),
        forall|j: int| 0 <= j < visited(dirs, text) - 1 ==> !is_substring(text, #[trigger] dirs[j]),
        no_match(dirs, text) ==> visited(dirs, text) == dirs.len(),
        !no_match(dirs, text) ==> is_first_match(dirs, text, visited(dirs, text) - 1),
        forall|at: int| is_first_match(dirs, text, at) ==> visited(dirs, text) == at + 1,
    decreases dirs.len(),
{
    if dirs.len() > 0 && !is_substring(text, dirs[0]) {
        let rest = dirs.drop_first();
        law_visited_stops_at_first_match(rest, text);
        assert forall|j: int| 0 <= j < visited(dirs, text) - 1 implies !is_substring(
            text,
            #[trigger] dirs[j],
        ) by {
            if j > 0 {
                assert(dirs[j] == rest[j - 1]);
            }
        }
        if no_match(dirs, text) {
            assert forall|j: int| 0 <= j < rest.len() implies !is_substring(
                text,
                #[trigger] rest[j],
            ) by {
                assert(rest[j] == dirs[j + 1]);
            }
        } else {
            let hit = choose|j: int| 0 <= j < dirs.len() && is_substring(text, #[trigger] dirs[j]);
            assert(rest[hit - 1] == dirs[hit]);
            assert(!no_match(rest, text));
            let first = visited(rest, text) - 1;
            assert(dirs[first + 1] == rest[first]);
        }
        assert forall|at: int| is_first_match(dirs, text, at) implies visited(dirs, text) == at
            + 1 by {
            assert(at > 0);
            assert(rest[at - 1] == dirs[at]);
            assert forall|j: int| 0 <= j < at - 1 implies !is_substring(text, #[trigger] rest[j]) by {
                assert(rest[j] == dirs[j + 1]);
            }
            assert(is_first_match(rest, text, at - 1));
        }
    } else if dirs.len() > 0 {
        assert(is_first_match(dirs, text, 0));
        assert forall|at: int| is_first_match(dirs, text, at) implies visited(dirs, text) == at
            + 1 by {
            if at > 0 {
                assert(!is_substring(text, dirs[0]));
            }
        }
    }
}

/// The dispatcher's search downwards, answered by a walk that yields `dirs`:
/// it reports each directory as looked at before it tests it, stops at the
/// first whose path holds the text and tells where that one lies, or says at
/// the end of the walk that there is none; and it leaves with status 0 either
/// way. What was printed before stays in front.
pub proof fn law_search_down_runs(from: Transition, dirs: Seq<Seq<char>>, text: Seq<char>)
    requires
        from.state == (State::Descending { text }),
    ensures
        replay(from, visits(dirs, text)) == Some(
            finish(from.output + descent_report(dirs, text), 0),
        ),
    decreases dirs.len(),
{
    if dirs.len() == 0 {
        let end = Event::Visited { dir: None };
        assert(seq![end] =~= seq![end] + Seq::<Event>::empty());
        lemma_replay_first(from, end, Seq::empty());
        assert(descent_report(dirs, text) =~= seq![not_found()]);
    } else if is_substring(text, dirs[0]) {
        let hit = Event::Visited { dir: Some(dirs[0]) };
        assert(seq![hit] =~= seq![hit] + Seq::<Event>::empty());
        lemma_replay_first(from, hit, Seq::empty());
        assert(descent_report(dirs, text) =~= seq![
            checking(dirs[0]),
            found_at(dirs[0]),
            hint(dirs[0]),
        ]);
    } else {
        let miss = Event::Visited { dir: Some(dirs[0]) };
        let rest = dirs.drop_first();
        lemma_replay_first(from, miss, visits(rest, text));
        let next = followed_by(from, walk_on(text, seq![checking(dirs[0])]));
        law_search_down_runs(next, rest, text);
        law_visited_stops_at_first_match(rest, text);
        let seen = visited(rest, text);
        assert(Seq::new(visited(dirs, text), |j: int| checking(dirs[j])) =~= seq![
            checking(dirs[0]),
        ] + Seq::new(seen, |j: int| checking(rest[j])));
        if seen > 0 {
            assert(rest[seen - 1] == dirs[seen as int]);
        }
        assert(next.output + descent_report(rest, text) =~= from.output + descent_report(
            dirs,
            text,
        ));
    }
}

/// `cd` reports the first directory of the walk whose path holds the name of
/// the project followed by the marker, between separators.
pub proof fn law_change_directory_runs(project: Seq<char>, dirs: Seq<Seq<char>>)
    ensures
        replay(change_directory(project), visits(dirs, needle(project))) == Some(
            finish(descent_report(dirs, needle(project)), 0),
        ),
{
    let first = change_directory(project);
    law_search_down_runs(first, dirs, needle(project));
    assert(first.output + descent_report(dirs, needle(project)) =~= descent_report(
        dirs,
        needle(project),
    ));
}

} // verus!
