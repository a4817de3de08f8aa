//! The command-line surface of the tool suite, as plain data.  The host
//! parses the real command line and hands the library one of these values.

use vstd::prelude::*;

verus! {

/// The parsed invocation: which tool to run, with its arguments.
pub struct Cli {
    pub command: Commands,
}

/// Every tool of the suite, with the arguments it takes.
pub enum Commands {
    /// Fuzzy file finder with live preview.
    Find { path: String, extensions: Option<String>, search: Option<String> },
    /// Process manager and killer with selection.
    Kill { filter: Option<String> },
    /// Git operations and history browser.
    Git { subcommand: GitCommands },
    /// Command history browser and executor.
    Hist { limit: usize },
    /// Interactive file and directory explorer.
    Dir { path: String },
    /// Environment variable viewer.
    Env { filter: Option<String> },
    /// Recent files browser.
    Recent { limit: usize },
    /// Manual page browser.
    Man { search: Option<String> },
    /// Content search over file contents.
    Search { pattern: Option<String>, path: String, file_type: Option<String>, ignore_case: bool },
}

/// The git subcommands.
pub enum GitCommands {
    Log,
    Branch,
    Status,
    Diff,
}

} // verus!
