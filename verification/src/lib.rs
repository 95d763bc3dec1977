//! The decision core of `buddy`, a command-line dispatcher for Stacks
//! projects.
//!
//! `buddy` hands its command line to the `buddy` script of a project where it
//! finds one, and else starts a project, tells where a project lies, or prints
//! its version or its usage. This library decides; it reads no file and starts
//! no process. Its caller does that, step by step, as `dispatcher` asks.
//!
//! - `text` and `path`: strings and directory paths as sequences of
//!   characters.
//! - `locator`: the search for a project, upwards and downwards.
//! - `proxy`, `version`, `usage`: the script, the version, the usage summary.
//! - `model`: the dispatcher as a state machine over plain text.
//! - `dispatcher`: the executable machine, proved to take the model's steps.
//! - `laws`: what holds of every search and of every run.

pub mod dispatcher;
pub mod laws;
pub mod locator;
pub mod model;
pub mod path;
pub mod proxy;
pub mod text;
pub mod usage;
pub mod version;
