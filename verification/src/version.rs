//! Which version to report.
//!
//! The version built into the program comes first. Where there is none, the
//! manifest beside the program decides, and where there is no manifest either,
//! a fixed default. A manifest that is there but cannot be used is an error:
//! the default does not cover it.

use vstd::prelude::*;
use vstd::string::*;
use crate::path::{join, join_path, parent, parent_dir};

verus! {

/// The version reported where nothing else gives one.
pub const DEFAULT_VERSION: &'static str = "0.0.0";

/// Where the manifest lies, as seen from the directory of the program.
pub const MANIFEST_LOCATION: &'static str = "../package.json";

/// What looking for the manifest brought.
#[derive(Clone, Debug, PartialEq, Eq)]
pub enum ManifestLookup {
    /// The program's own directory could not be told.
    NoDirectory,
    /// There is no manifest.
    Missing,
    /// There is one, and it could not be read.
    Unreadable,
    /// It was read, and it does not declare a version in the form expected.
    Malformed,
    /// It declares this version.
    Declares { version: String },
}

/// `ManifestLookup` with its text as a sequence of characters.
pub enum ManifestLookupView {
    NoDirectory,
    Missing,
    Unreadable,
    Malformed,
    Declares { version: Seq<char> },
}

impl View for ManifestLookup {
    type V = ManifestLookupView;

    open spec fn view(&self) -> ManifestLookupView {
        match self {
            ManifestLookup::NoDirectory => ManifestLookupView::NoDirectory,
            ManifestLookup::Missing => ManifestLookupView::Missing,
            ManifestLookup::Unreadable => ManifestLookupView::Unreadable,
            ManifestLookup::Malformed => ManifestLookupView::Malformed,
            ManifestLookup::Declares { version } => ManifestLookupView::Declares {
                version: version@,
            },
        }
    }
}

/// Why no version can be reported.
#[derive(Clone, Copy, Debug, PartialEq, Eq)]
pub enum VersionError {
    /// The program's own directory could not be told.
    NoDirectory,
    /// The manifest could not be read.
    Unreadable,
    /// The manifest does not declare a version in the form expected.
    Malformed,
}

/// The version that a manifest lookup gives: the declared one, the default
/// where no manifest exists, an error in every other case.
pub open spec fn from_manifest(lookup: ManifestLookupView) -> Result<Seq<char>, VersionError> {
    match lookup {
        ManifestLookupView::NoDirectory => Err(VersionError::NoDirectory),
        ManifestLookupView::Missing => Ok(DEFAULT_VERSION@),
        ManifestLookupView::Unreadable => Err(VersionError::Unreadable),
        ManifestLookupView::Malformed => Err(VersionError::Malformed),
        ManifestLookupView::Declares { version } => Ok(version),
    }
}

/// The version to report: the built-in one unless it is empty, else what the
/// manifest gives.
pub open spec fn resolve(built_in: Seq<char>, lookup: ManifestLookupView) -> Result<
    Seq<char>,
    VersionError,
> {
    if built_in.len() > 0 {
        Ok(built_in)
    } else {
        from_manifest(lookup)
    }
}

/// Where the manifest of the program at `program` lies: at
/// `MANIFEST_LOCATION`, seen from the directory that holds the program. A
/// path without a name has no such directory.
pub open spec fn manifest_of(program: Seq<char>) -> Option<Seq<char>> {
    match parent(program) {
        Some(dir) => Some(join(dir, MANIFEST_LOCATION@)),
        None => None,
    }
}

/// What looking for the manifest of the program at `program` brings, where
/// `exists` tells whether the manifest is there and `read` what reading it
/// gave.
pub open spec fn lookup_of(program: Seq<char>, exists: bool, read: ManifestLookupView) -> ManifestLookupView {
    if manifest_of(program) is None {
        ManifestLookupView::NoDirectory
    } else if !exists {
        ManifestLookupView::Missing
    } else {
        read
    }
}

/// What the error says, in words.
pub open spec fn explanation(error: VersionError) -> Seq<char> {
    match error {
        VersionError::NoDirectory => "Failed to get executable directory"@,
        VersionError::Unreadable => "Failed to read package.json"@,
        VersionError::Malformed => "Failed to parse package.json"@,
    }
}

/// The characters of a version or the error in its place.
pub open spec fn outcome_view(outcome: Result<String, VersionError>) -> Result<
    Seq<char>,
    VersionError,
> {
    match outcome {
        Ok(version) => Ok(version@),
        Err(error) => Err(error),
    }
}

impl VersionError {
    /// What the error says, in words.
    pub fn message(&self) -> (text: String)
        ensures
            text@ == explanation(*self),
    {
        match self {
            VersionError::NoDirectory => "Failed to get executable directory".to_owned(),
            VersionError::Unreadable => "Failed to read package.json".to_owned(),
            VersionError::Malformed => "Failed to parse package.json".to_owned(),
        }
    }
}

/// Where the manifest of the program at `program` lies, or `None` where the
/// path names no directory that holds the program.
pub fn manifest_path(program: &str) -> (path: Option<String>)
    ensures
        path.deep_view() == manifest_of(program@),
{
    match parent_dir(program) {
        Some(dir) => Some(join_path(dir.as_str(), MANIFEST_LOCATION)),
        None => None,
    }
}

/// The version that a manifest lookup gives.
pub fn manifest_version(lookup: ManifestLookup) -> (outcome: Result<String, VersionError>)
    ensures
        outcome_view(outcome) == from_manifest(lookup@),
{
    match lookup {
        ManifestLookup::NoDirectory => Err(VersionError::NoDirectory),
        ManifestLookup::Missing => Ok(DEFAULT_VERSION.to_owned()),
        ManifestLookup::Unreadable => Err(VersionError::Unreadable),
        ManifestLookup::Malformed => Err(VersionError::Malformed),
        ManifestLookup::Declares { version } => Ok(version),
    }
}

/// The version to report, given the one built into the program, empty where
/// there is none, and what looking for the manifest brought.
pub fn get_version(built_in: &str, lookup: ManifestLookup) -> (outcome: Result<
    String,
    VersionError,
>)
    ensures
        outcome_view(outcome) == resolve(built_in@, lookup@),
{
    if !built_in.is_empty() {
        Ok(built_in.to_owned())
    } else {
        manifest_version(lookup)
    }
}

} // verus!
