//! Command-line argument handling of the `tensbook` tool: which action a
//! list of arguments asks for.

use vstd::prelude::*;
use crate::text::{str_eq, strings_view};

verus! {

/// What the command line asks for.
#[derive(Debug, Clone, PartialEq, Eq)]
pub enum Command {
    /// `--version` or `-V`.
    Version,
    /// `--help` or `-h`.
    Help,
    /// `run <file>`, or a bare file name.
    Run(String),
    /// Anything else: print the usage and fail.
    Usage,
}

/// Mathematical model of a [`Command`].
pub enum CommandModel {
    Version,
    Help,
    Run(Seq<char>),
    Usage,
}

impl View for Command {
    type V = CommandModel;

    open spec fn view(&self) -> CommandModel {
        match self {
            Command::Version => CommandModel::Version,
            Command::Help => CommandModel::Help,
            Command::Run(p) => CommandModel::Run(p@),
            Command::Usage => CommandModel::Usage,
        }
    }
}

/// The action for the arguments after the program name: a lone
/// `--version`/`-V` or `--help`/`-h`; `run <file>`; a lone argument that
/// does not start with `-` names the file to run; anything else is a usage
/// error.
pub open spec fn command_spec(args: Seq<Seq<char>>) -> CommandModel {
    if args.len() == 1 && (args[0] == "--version"@ || args[0] == "-V"@) {
        CommandModel::Version
    } else if args.len() == 1 && (args[0] == "--help"@ || args[0] == "-h"@) {
        CommandModel::Help
    } else if args.len() == 2 && args[0] == "run"@ {
        CommandModel::Run(args[1])
    } else if args.len() == 1 && !(args[0].len() > 0 && args[0][0] == '-') {
        CommandModel::Run(args[0])
    } else {
        CommandModel::Usage
    }
}

fn starts_with_dash(s: &str) -> (b: bool)
    ensures
        b == (s@.len() > 0 && s@[0] == '-'),
{
    let cs = crate::text::chars_of(s);
    cs.len() > 0 && cs[0] == '-'
}

/// The action the arguments ask for (see [`command_spec`]).
pub fn command_for(args: &Vec<String>) -> (c: Command)
    ensures
        c@ == command_spec(strings_view(args@)),
{
    let ghost a = strings_view(args@);
    if args.len() == 1 {
        assert(a[0] == args@[0]@);
        let only = args[0].as_str();
        if str_eq(only, "--version") || str_eq(only, "-V") {
            return Command::Version;
        }
        if str_eq(only, "--help") || str_eq(only, "-h") {
            return Command::Help;
        }
        if !starts_with_dash(only) {
            return Command::Run(args[0].clone());
        }
        return Command::Usage;
    }
    if args.len() == 2 {
        assert(a[0] == args@[0]@ && a[1] == args@[1]@);
        if str_eq(args[0].as_str(), "run") {
            return Command::Run(args[1].clone());
        }
    }
    Command::Usage
}

/// The help text of the tool.
pub fn usage() -> (s: &'static str)
    ensures
        s@ == "Tensbook — a symbolic math notebook: tensors, calculus, ODEs, and plots\n\nUsage:\n  tensbook run <file.tens>     parse, derive, and print LaTeX results\n  tensbook --version | -V      print the version\n  tensbook --help    | -h      print this help\n\nExamples:\n  tensbook run examples/start.tens"@,
{
    "Tensbook — a symbolic math notebook: tensors, calculus, ODEs, and plots\n\nUsage:\n  tensbook run <file.tens>     parse, derive, and print LaTeX results\n  tensbook --version | -V      print the version\n  tensbook --help    | -h      print this help\n\nExamples:\n  tensbook run examples/start.tens"
}

} // verus!
