//! Handing a command over to the project's own script.
//!
//! The script is a program of the project. Where it stands in the working
//! directory, the command line goes to it as it came, and how the child ended
//! is reported; it never becomes an error of this program.

use vstd::prelude::*;
use vstd::string::*;
use crate::text::{decimal, render_decimal};

verus! {

/// The script in the working directory that commands are handed to.
pub const LOCAL_PROXY: &'static str = "./buddy";

/// The name under which a new project looks for the script.
pub const NEW_PROJECT_PROXY: &'static str = "buddy";

/// The argument put in front of the command line when the script of a
/// project found above the working directory is run.
pub const NEW_SUBCOMMAND: &'static str = "new";

/// How a child process ended.
#[derive(Clone, Copy, Debug, PartialEq, Eq)]
pub enum ExitOutcome {
    /// It reported success.
    Success,
    /// It failed, with an exit code, or with none where a signal ended it.
    Failure { code: Option<i32> },
}

/// What is done where the script is not in the working directory.
#[derive(Clone, Copy, Debug, PartialEq, Eq)]
pub enum Fallback {
    /// Look for a project in the working directory and above it.
    Ascend,
    /// Print the usage summary.
    Help,
}

/// The line that reports a failed child: it names the exit code, or says that
/// none is known. A child that succeeded is not reported.
pub open spec fn notice(outcome: ExitOutcome) -> Option<Seq<char>> {
    match outcome {
        ExitOutcome::Success => None,
        ExitOutcome::Failure { code: Some(code) } => Some(
            "Command failed with exit code: Some("@ + decimal(code as int) + ")"@,
        ),
        ExitOutcome::Failure { code: None } => Some("Command failed with exit code: unknown"@),
    }
}

/// The command line of the script of a project found above the working
/// directory: `new`, then the arguments as they came.
pub open spec fn with_new(args: Seq<Seq<char>>) -> Seq<Seq<char>> {
    seq![NEW_SUBCOMMAND@] + args
}

/// The line that reports how a child ended, if it failed.
pub fn failure_notice(outcome: ExitOutcome) -> (line: Option<String>)
    ensures
        line.deep_view() == notice(outcome),
{
    match outcome {
        ExitOutcome::Success => None,
        ExitOutcome::Failure { code: Some(code) } => {
            let number = render_decimal(code);
            Some("Command failed with exit code: Some(".to_owned().concat(number.as_str()).concat(")"))
        },
        ExitOutcome::Failure { code: None } => Some(
            "Command failed with exit code: unknown".to_owned(),
        ),
    }
}

/// `args` with `new` in front.
pub fn prefixed_with_new(args: Vec<String>) -> (line: Vec<String>)
    ensures
        line.deep_view() == with_new(args.deep_view()),
{
    let mut line = args;
    line.insert(0, NEW_SUBCOMMAND.to_owned());
    proof {
        assert(line.deep_view() =~= with_new(args.deep_view()));
    }
    line
}

} // verus!
