//! Directory paths as text.
//!
//! A path is a sequence of characters in which `/` separates names. A run of
//! separators counts as one, and separators at the end are ignored. The names
//! `.` and `..` are names like any other: nothing here looks at the file
//! system.

use vstd::prelude::*;
use vstd::string::*;
use crate::text::chars_of;

verus! {

/// The character that separates the names of a path.
pub const SEPARATOR: char = '/';

/// The path of the file system's root.
pub open spec fn root() -> Seq<char> {
    seq![SEPARATOR]
}

/// `path` is the root, written as a single separator.
pub open spec fn is_root(path: Seq<char>) -> bool {
    path == root()
}

/// Where the run of separators that ends just before `end` begins.
pub open spec fn separators_back(path: Seq<char>, end: int) -> int
    decreases end,
{
    if 0 < end <= path.len() && path[end - 1] == SEPARATOR {
        separators_back(path, end - 1)
    } else {
        end
    }
}

/// Where the run of name characters that ends just before `end` begins.
pub open spec fn name_back(path: Seq<char>, end: int) -> int
    decreases end,
{
    if 0 < end <= path.len() && path[end - 1] != SEPARATOR {
        name_back(path, end - 1)
    } else {
        end
    }
}

/// How many characters of `path` make up its parent, if it has one.
///
/// The last name goes, with the separators around it; of a path that then
/// holds separators only, one separator stays, the root. A path without a
/// name, the root among them, has no parent.
pub open spec fn parent_len(path: Seq<char>) -> Option<int> {
    let named = separators_back(path, path.len() as int);
    if named == 0 {
        None
    } else {
        let stem = name_back(path, named);
        let dir = separators_back(path, stem);
        if dir == 0 && stem > 0 {
            Some(1)
        } else {
            Some(dir)
        }
    }
}

/// The directory that holds `path`, if there is one.
pub open spec fn parent(path: Seq<char>) -> Option<Seq<char>> {
    match parent_len(path) {
        Some(len) => Some(path.take(len)),
        None => None,
    }
}

/// `rel` as seen from `dir`: `rel` itself where it starts at the root, else
/// `dir` and `rel` with one separator between them, unless `dir` is empty or
/// brings its own.
pub open spec fn join(dir: Seq<char>, rel: Seq<char>) -> Seq<char> {
    if rel.len() > 0 && rel[0] == SEPARATOR {
        rel
    } else if dir.len() == 0 || dir.last() == SEPARATOR {
        dir + rel
    } else {
        dir + seq![SEPARATOR] + rel
    }
}

/// A name of `path` starts at position `at`.
pub open spec fn starts_name(path: Seq<char>, at: int) -> bool {
    &&& 0 <= at < path.len()
    &&& path[at] != SEPARATOR
    &&& (at == 0 || path[at - 1] == SEPARATOR)
}

/// How many names of `path` start before position `end`.
pub open spec fn names_before(path: Seq<char>, end: int) -> nat
    decreases end,
{
    if end <= 0 {
        0
    } else if starts_name(path, end - 1) {
        names_before(path, end - 1) + 1
    } else {
        names_before(path, end - 1)
    }
}

/// The number of names in `path`: how deep it lies below the root, or below
/// the directory it is relative to.
pub open spec fn depth(path: Seq<char>) -> nat {
    names_before(path, path.len() as int)
}

/// What `separators_back` skips is separators, and it stops at a name
/// character or at the start.
pub proof fn lemma_separators_back(path: Seq<char>, end: int)
    requires
        0 <= end <= path.len(),
    ensures
        0 <= separators_back(path, end) <= end,
        forall|i: int| separators_back(path, end) <= i < end ==> path[i] == SEPARATOR,
        separators_back(path, end) == 0 || path[separators_back(path, end) - 1] != SEPARATOR,
    decreases end,
{
    if 0 < end && path[end - 1] == SEPARATOR {
        lemma_separators_back(path, end - 1);
    }
}

/// What `name_back` skips is name characters, and it stops at a separator or
/// at the start.
pub proof fn lemma_name_back(path: Seq<char>, end: int)
    requires
        0 <= end <= path.len(),
    ensures
        0 <= name_back(path, end) <= end,
        forall|i: int| name_back(path, end) <= i < end ==> path[i] != SEPARATOR,
        name_back(path, end) == 0 || path[name_back(path, end) - 1] == SEPARATOR,
    decreases end,
{
    if 0 < end && path[end - 1] != SEPARATOR {
        lemma_name_back(path, end - 1);
    }
}

/// A parent is a proper prefix of its path.
pub proof fn lemma_parent_is_shorter(path: Seq<char>)
    ensures
        parent_len(path) matches Some(len) ==> 0 <= len < path.len(),
        parent(path) matches Some(up) ==> up.len() < path.len(),
{
    let named = separators_back(path, path.len() as int);
    lemma_separators_back(path, path.len() as int);
    if named != 0 {
        lemma_name_back(path, named);
        let stem = name_back(path, named);
        lemma_separators_back(path, stem);
    }
}

/// Across a stretch in which no name starts, the count of names stands still.
proof fn lemma_names_before_flat(path: Seq<char>, lo: int, hi: int)
    requires
        0 <= lo <= hi <= path.len(),
        forall|i: int| lo <= i < hi ==> !starts_name(path, i),
    ensures
        names_before(path, hi) == names_before(path, lo),
    decreases hi - lo,
{
    if lo < hi {
        lemma_names_before_flat(path, lo, hi - 1);
    }
}

/// The names that start before `end` are those of the first `end` characters.
proof fn lemma_names_before_prefix(path: Seq<char>, len: int, end: int)
    requires
        0 <= end <= len <= path.len(),
    ensures
        names_before(path.take(len), end) == names_before(path, end),
    decreases end,
{
    if end > 0 {
        lemma_names_before_prefix(path, len, end - 1);
        assert(starts_name(path.take(len), end - 1) == starts_name(path, end - 1));
    }
}

/// A parent has one name less than its path.
pub proof fn lemma_parent_depth(path: Seq<char>)
    ensures
        parent(path) matches Some(up) ==> depth(up) + 1 == depth(path),
{
    let len = path.len() as int;
    let named = separators_back(path, len);
    lemma_separators_back(path, len);
    if named != 0 {
        let stem = name_back(path, named);
        lemma_name_back(path, named);
        let dir = separators_back(path, stem);
        lemma_separators_back(path, stem);
        let kept = parent_len(path).unwrap();
        lemma_names_before_flat(path, named, len);
        assert(starts_name(path, stem));
        lemma_names_before_flat(path, stem + 1, named);
        lemma_names_before_flat(path, dir, stem);
        if dir == 0 && stem > 0 {
            lemma_names_before_flat(path, 0, 1);
        }
        lemma_names_before_prefix(path, kept, kept);
    }
}

/// Where the run of separators that ends just before `end` begins.
fn skip_separators(chars: &Vec<char>, end: usize) -> (at: usize)
    requires
        end <= chars.len(),
    ensures
        at == separators_back(chars@, end as int),
        at <= end,
{
    let mut at: usize = end;
    while at > 0 && chars[at - 1] == SEPARATOR
        invariant
            at <= end <= chars.len(),
            separators_back(chars@, end as int) == separators_back(chars@, at as int),
        decreases at,
    {
        at -= 1;
    }
    at
}

/// Where the run of name characters that ends just before `end` begins.
fn skip_name(chars: &Vec<char>, end: usize) -> (at: usize)
    requires
        end <= chars.len(),
    ensures
        at == name_back(chars@, end as int),
        at <= end,
{
    let mut at: usize = end;
    while at > 0 && chars[at - 1] != SEPARATOR
        invariant
            at <= end <= chars.len(),
            name_back(chars@, end as int) == name_back(chars@, at as int),
        decreases at,
    {
        at -= 1;
    }
    at
}

/// Whether `path` is the root.
pub fn at_root(path: &str) -> (yes: bool)
    ensures
        yes == is_root(path@),
{
    let chars = chars_of(path);
    let yes = chars.len() == 1 && chars[0] == SEPARATOR;
    proof {
        if yes {
            assert(path@ =~= root());
        }
    }
    yes
}

/// The directory that holds `path`, or `None` for a path without a name.
pub fn parent_dir(path: &str) -> (up: Option<String>)
    ensures
        up.deep_view() == parent(path@),
{
    let chars = chars_of(path);
    let named = skip_separators(&chars, chars.len());
    if named == 0 {
        return None;
    }
    let stem = skip_name(&chars, named);
    let dir = skip_separators(&chars, stem);
    let kept: usize = if dir == 0 && stem > 0 {
        1
    } else {
        dir
    };
    Some(path.substring_char(0, kept).to_owned())
}

/// `rel` as seen from `dir`.
pub fn join_path(dir: &str, rel: &str) -> (joined: String)
    ensures
        joined@ == join(dir@, rel@),
{
    let head = chars_of(dir);
    let tail = chars_of(rel);
    if tail.len() > 0 && tail[0] == SEPARATOR {
        rel.to_owned()
    } else if head.len() == 0 || head[head.len() - 1] == SEPARATOR {
        dir.to_owned().concat(rel)
    } else {
        proof {
            reveal_strlit("/");
            assert("/"@ =~= seq![SEPARATOR]);
        }
        dir.to_owned().concat("/").concat(rel)
    }
}

} // verus!
