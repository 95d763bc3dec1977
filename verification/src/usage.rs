//! The usage summary.

use vstd::prelude::*;
use vstd::string::*;

verus! {

/// The usage summary, line by line. It is the same on every call.
pub open spec fn usage() -> Seq<Seq<char>> {
    seq![
        "Usage: buddy [command] [options]"@,
        ""@,
        "Commands:"@,
        "  new, create       Create a new Stacks project"@,
        "  cd <project>      Change the current working directory to a different Stacks project"@,
        "  version           Show the version of the Stacks CLI"@,
        "  help              Show this help message"@,
        ""@,
    ]
}

/// The lines of the usage summary.
pub fn usage_lines() -> (lines: Vec<String>)
    ensures
        lines.deep_view() == usage(),
{
    let mut lines: Vec<String> = Vec::new();
    lines.push("Usage: buddy [command] [options]".to_owned());
    lines.push("".to_owned());
    lines.push("Commands:".to_owned());
    lines.push("  new, create       Create a new Stacks project".to_owned());
    lines.push(
        "  cd <project>      Change the current working directory to a different Stacks project".to_owned(),
    );
    lines.push("  version           Show the version of the Stacks CLI".to_owned());
    lines.push("  help              Show this help message".to_owned());
    lines.push("".to_owned());
    proof {
        assert(lines.deep_view() =~= usage());
    }
    lines
}

} // verus!
