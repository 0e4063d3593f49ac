//! The sub commands of `utils`.

use vstd::prelude::*;
use vstd::string::*;

use crate::commands::utils::list_crates::UtilsListCrates;

verus! {

/// Utils sub command
#[derive(Clone, Debug, PartialEq)]
pub enum UtilsSubCommand {
    /// list_crates subcommand
    ListCrates(UtilsListCrates),
    /// Launch pngtools cli
    PngTools,
    /// Launch git-mover cli
    GitMover {
        /// Accept many arguments
        args: Vec<String>,
    },
}

/// The message that stands before the failure of a tool that was launched.
pub open spec fn tool_failure(tool: Seq<char>) -> Seq<char> {
    "Error with "@ + tool
}

impl UtilsSubCommand {
    /// The name of the tool that the sub command launches.
    pub open spec fn tool(self) -> Seq<char> {
        match self {
            UtilsSubCommand::ListCrates(_) => "list_crates"@,
            UtilsSubCommand::PngTools => "pngtools"@,
            UtilsSubCommand::GitMover { .. } => "git-mover"@,
        }
    }

    /// The name of the tool that the sub command launches.
    pub fn invoke(&self) -> (r: &'static str)
        ensures
            r@ == self.tool(),
    {
        match self {
            UtilsSubCommand::ListCrates(_) => "list_crates",
            UtilsSubCommand::PngTools => "pngtools",
            UtilsSubCommand::GitMover { .. } => "git-mover",
        }
    }

    /// The message that stands before the failure of the picture tool.
    pub fn pngtools() -> (r: String)
        ensures
            r@ == tool_failure("pngtools"@),
    {
        let mut out = String::from_str("Error with ");
        out.append("pngtools");
        out
    }

    /// The message that stands before the failure of the repository mover.
    pub fn git_mover() -> (r: String)
        ensures
            r@ == tool_failure("git-mover"@),
    {
        let mut out = String::from_str("Error with ");
        out.append("git-mover");
        out
    }
}

} // verus!
