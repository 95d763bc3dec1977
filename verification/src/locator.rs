//! Finding a project: upwards from a directory, or downwards through a walk.
//!
//! A directory is a project root when it holds the project marker. The search
//! upwards asks, for a directory and then for each directory above it, whether
//! the marker is there. The search downwards looks at the paths of the
//! directories that a walk yields, and takes the first whose text holds the
//! name of the project followed by the marker.

use vstd::prelude::*;
use vstd::string::*;
use crate::path::{at_root, is_root, join, join_path, parent, parent_dir, lemma_parent_is_shorter};
use crate::text::{contains, is_substring, same_text};

verus! {

/// The path, below a project's root, whose existence marks the project.
pub const PROJECT_MARKER: &'static str = "storage/framework/core/buddy";

/// Where the walk of a search downwards starts.
pub const WALK_ROOT: &'static str = "/";

/// Where the marker of a project rooted at `dir` lies.
pub open spec fn marker_at(dir: Seq<char>) -> Seq<char> {
    join(dir, PROJECT_MARKER@)
}

/// The text that the path of a directory inside the project `project` holds:
/// the project's name, the marker, and a separator on either side of it.
pub open spec fn needle(project: Seq<char>) -> Seq<char> {
    project + "/"@ + PROJECT_MARKER@ + "/"@
}

/// The directories that a search upwards from `start` may ask about, nearest
/// first: `start`, then each directory above it. The root is never among
/// them: the search ends when it gets there.
pub open spec fn ascent(start: Seq<char>) -> Seq<Seq<char>>
    decreases start.len(),
    via ascent_decreases
{
    if is_root(start) {
        Seq::empty()
    } else {
        match parent(start) {
            Some(up) => seq![start] + ascent(up),
            None => seq![start],
        }
    }
}

#[via_fn]
proof fn ascent_decreases(start: Seq<char>) {
    lemma_parent_is_shorter(start);
}

/// What a search upwards from `start` finds where exactly the paths in
/// `existing` exist: the nearest directory of the ascent that holds the
/// marker.
pub open spec fn search_up(start: Seq<char>, existing: Set<Seq<char>>) -> Option<Seq<char>>
    decreases start.len(),
    via search_up_decreases
{
    if is_root(start) {
        None
    } else if existing.contains(marker_at(start)) {
        Some(start)
    } else {
        match parent(start) {
            Some(up) => search_up(up, existing),
            None => None,
        }
    }
}

#[via_fn]
proof fn search_up_decreases(start: Seq<char>, existing: Set<Seq<char>>) {
    lemma_parent_is_shorter(start);
}

/// The paths that a list names.
pub open spec fn listed(paths: Seq<Seq<char>>) -> Set<Seq<char>> {
    Set::new(|p: Seq<char>| paths.contains(p))
}

/// `dirs[at]` is the first of `dirs` whose path holds `text`.
pub open spec fn is_first_match(dirs: Seq<Seq<char>>, text: Seq<char>, at: int) -> bool {
    &&& 0 <= at < dirs.len()
    &&& is_substring(text, dirs[at])
    &&& forall|j: int| 0 <= j < at ==> !is_substring(text, #[trigger] dirs[j])
}

/// None of `dirs` holds `text` in its path.
pub open spec fn no_match(dirs: Seq<Seq<char>>, text: Seq<char>) -> bool {
    forall|j: int| 0 <= j < dirs.len() ==> !is_substring(text, #[trigger] dirs[j])
}

/// How many of `dirs` a search downwards looks at: all up to and including
/// the first match, or all of them.
pub open spec fn visited(dirs: Seq<Seq<char>>, text: Seq<char>) -> nat
    decreases dirs.len(),
{
    if dirs.len() == 0 {
        0
    } else if is_substring(text, dirs[0]) {
        1
    } else {
        1 + visited(dirs.drop_first(), text)
    }
}

/// The line that reports a directory as looked at.
pub open spec fn checking(dir: Seq<char>) -> Seq<char> {
    "Checking "@ + dir + "..."@
}

/// The line that reports where the project was found.
pub open spec fn found_at(dir: Seq<char>) -> Seq<char> {
    "Project found at "@ + dir + "."@
}

/// The line that tells the user how to get to the project.
pub open spec fn hint(dir: Seq<char>) -> Seq<char> {
    "Run 'cd "@ + dir + "' to navigate to the project directory."@
}

/// The line that reports a search downwards without a match.
pub open spec fn not_found() -> Seq<char> {
    "Project directory not found."@
}

/// The line that reports a search upwards without a match.
pub open spec fn no_project() -> Seq<char> {
    "No stacks project found. Do you want to create a new stacks project?"@
}

/// Where the marker of a project rooted at `dir` lies.
pub fn marker_path(dir: &str) -> (path: String)
    ensures
        path@ == marker_at(dir@),
{
    join_path(dir, PROJECT_MARKER)
}

/// The text by which a search downwards knows a directory of `project`.
pub fn project_needle(project: &str) -> (text: String)
    ensures
        text@ == needle(project@),
{
    project.to_owned().concat("/").concat(PROJECT_MARKER).concat("/")
}

/// The line that reports `dir` as looked at.
pub fn checking_line(dir: &str) -> (line: String)
    ensures
        line@ == checking(dir@),
{
    "Checking ".to_owned().concat(dir).concat("...")
}

/// The line that reports `dir` as the place of the project.
pub fn found_line(dir: &str) -> (line: String)
    ensures
        line@ == found_at(dir@),
{
    "Project found at ".to_owned().concat(dir).concat(".")
}

/// The line that tells the user how to get to `dir`.
pub fn hint_line(dir: &str) -> (line: String)
    ensures
        line@ == hint(dir@),
{
    "Run 'cd ".to_owned().concat(dir).concat("' to navigate to the project directory.")
}

/// The line that reports a search downwards without a match.
pub fn not_found_line() -> (line: String)
    ensures
        line@ == not_found(),
{
    "Project directory not found.".to_owned()
}

/// The line that reports a search upwards without a match.
pub fn no_project_line() -> (line: String)
    ensures
        line@ == no_project(),
{
    "No stacks project found. Do you want to create a new stacks project?".to_owned()
}

/// Whether `path` is one of `paths`.
fn is_listed(paths: &Vec<String>, path: &str) -> (yes: bool)
    ensures
        yes == listed(paths.deep_view()).contains(path@),
{
    let mut k: usize = 0;
    while k < paths.len()
        invariant
            k <= paths.len(),
            forall|j: int| 0 <= j < k ==> paths.deep_view()[j] != path@,
        decreases paths.len() - k,
    {
        if same_text(paths[k].as_str(), path) {
            proof {
                assert(paths.deep_view()[k as int] == path@);
            }
            return true;
        }
        k += 1;
    }
    false
}

/// The search upwards from `start`, in a file system where exactly the paths
/// in `existing` exist: the nearest directory, `start` or one above it, that
/// holds the project marker. The root is not asked about.
pub fn ascend_search(start: &str, existing: &Vec<String>) -> (found: Option<String>)
    ensures
        found.deep_view() == search_up(start@, listed(existing.deep_view())),
{
    let mut dir: String = start.to_owned();
    loop
        invariant
            search_up(start@, listed(existing.deep_view())) == search_up(
                dir@,
                listed(existing.deep_view()),
            ),
        decreases dir@.len(),
    {
        if at_root(dir.as_str()) {
            return None;
        }
        let marker = marker_path(dir.as_str());
        if is_listed(existing, marker.as_str()) {
            return Some(dir);
        }
        proof {
            lemma_parent_is_shorter(dir@);
        }
        match parent_dir(dir.as_str()) {
            Some(up) => {
                dir = up;
            },
            None => {
                return None;
            },
        }
    }
}

/// What a search downwards found, and what it reported on its way.
#[derive(Clone, Debug, PartialEq, Eq)]
pub struct DescendReport {
    /// The first directory whose path names the project, if there is one.
    pub found: Option<String>,
    /// One line for each directory looked at, in the order of the walk.
    pub notices: Vec<String>,
}

/// The search downwards for `project` through `dirs`, the directories that a
/// walk yielded, in its order. Each directory is reported as looked at, then
/// tested; the first whose path holds the project's name followed by the
/// marker is the result, and nothing after it is looked at.
pub fn find_project_path(dirs: &Vec<String>, project: &str) -> (report: DescendReport)
    ensures
        match report.found {
            Some(dir) => exists|at: int|
                is_first_match(dirs.deep_view(), needle(project@), at) && dirs.deep_view()[at]
                    == dir@,
            None => no_match(dirs.deep_view(), needle(project@)),
        },
        report.notices.len() == visited(dirs.deep_view(), needle(project@)),
        forall|j: int|
            0 <= j < report.notices.len() ==> #[trigger] report.notices.deep_view()[j] == checking(
                dirs.deep_view()[j],
            ),
{
    let text = project_needle(project);
    let mut notices: Vec<String> = Vec::new();
    let mut k: usize = 0;
    proof {
        assert(dirs.deep_view().skip(0) =~= dirs.deep_view());
    }
    while k < dirs.len()
        invariant
            k <= dirs.len(),
            text@ == needle(project@),
            notices.len() == k,
            forall|j: int| 0 <= j < k ==> !is_substring(text@, #[trigger] dirs.deep_view()[j]),
            forall|j: int|
                0 <= j < k ==> #[trigger] notices.deep_view()[j] == checking(dirs.deep_view()[j]),
            visited(dirs.deep_view(), text@) == k + visited(
                dirs.deep_view().skip(k as int),
                text@,
            ),
        decreases dirs.len() - k,
    {
        let dir: &String = &dirs[k];
        let ghost reported = notices.deep_view();
        let line = checking_line(dir.as_str());
        notices.push(line);
        proof {
            assert(notices.deep_view() =~= reported.push(checking(dirs.deep_view()[k as int])));
            let rest = dirs.deep_view().skip(k as int);
            assert(rest[0] == dirs.deep_view()[k as int]);
            assert(rest.drop_first() =~= dirs.deep_view().skip(k + 1));
        }
        if contains(dir.as_str(), text.as_str()) {
            proof {
                assert(is_first_match(dirs.deep_view(), text@, k as int));
            }
            return DescendReport { found: Some(dir.clone()), notices };
        }
        k += 1;
    }
    proof {
        assert(dirs.deep_view().skip(k as int).len() == 0);
    }
    DescendReport { found: None, notices }
}

} // verus!
