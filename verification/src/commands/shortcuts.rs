//! Shortcuts related subcommands

use vstd::prelude::*;

verus! {

/// A place that keeps git repositories.
#[derive(Clone, Copy, PartialEq, Eq, Structural, Debug)]
pub enum GitPlatform {
    Github,
    Codeberg,
}

/// A run of the repository mover.
#[derive(Clone, Copy, PartialEq, Eq, Structural, Debug)]
pub struct GitMoverRequest {
    /// Where the repositories are taken from
    pub source: GitPlatform,
    /// Where the repositories are brought to
    pub destination: GitPlatform,
    /// Whether each repository is confirmed by hand
    pub manual: bool,
}

/// Shortcuts related subcommands
#[derive(Clone, Copy, PartialEq, Eq, Structural, Debug)]
pub enum ShortcutsSubcommand {
    /// Sync git repos between GitHub and Codeberg
    SyncGit,
}

impl ShortcutsSubcommand {
    /// Run the selected shortcut subcommand: the run of the repository
    /// mover that it stands for.
    pub fn run(&self) -> (request: GitMoverRequest)
        ensures
            request == (GitMoverRequest {
                source: GitPlatform::Github,
                destination: GitPlatform::Codeberg,
                manual: true,
            }),
    {
        match self {
            ShortcutsSubcommand::SyncGit => GitMoverRequest {
                source: GitPlatform::Github,
                destination: GitPlatform::Codeberg,
                manual: true,
            },
        }
    }
}

} // verus!
