//! Generation of shell completions and manual pages.

use vstd::prelude::*;

use crate::errors::GeneralError;
use crate::location::{home_dir, no_output_home_error, output_directory, tool_entry};

verus! {

/// Helpers sub command
#[derive(Clone, Copy, PartialEq, Eq, Structural, Debug)]
pub enum HelpersSubcommand {
    /// generate completions
    Completions,
    /// generate man
    Man,
}

/// A shell for which completions are generated.
#[derive(Clone, Copy, PartialEq, Eq, Structural, Debug)]
pub enum CompletionShell {
    Bash,
    Zsh,
    Fish,
    PowerShell,
    Elvish,
}

/// The files that a helpers sub command generates and the directory that
/// receives them.
#[derive(Clone, Debug, PartialEq)]
pub struct Generation {
    /// The sub command that was invoked
    pub kind: HelpersSubcommand,
    /// The directory, to be created where it does not exist
    pub directory: String,
    /// The shells to generate completions for, in order; none for the
    /// manual pages
    pub shells: Vec<CompletionShell>,
}

/// Whether a generation is that of a sub command below a home directory:
/// the files of the sub command, into its directory among the files of the
/// tool.
pub open spec fn generates(kind: HelpersSubcommand, home: Seq<char>, g: Generation) -> bool {
    &&& g.kind == kind
    &&& g.shells@ == kind.shells()
    &&& g.directory@ == tool_entry(home, kind.directory_name())
}

impl HelpersSubcommand {
    /// The name of the directory that receives the generated files.
    pub open spec fn directory_name(self) -> Seq<char> {
        match self {
            HelpersSubcommand::Completions => "completions"@,
            HelpersSubcommand::Man => "man"@,
        }
    }

    /// The shells that completions are generated for, in order.
    pub open spec fn shells(self) -> Seq<CompletionShell> {
        match self {
            HelpersSubcommand::Completions => seq![
                CompletionShell::Bash,
                CompletionShell::Zsh,
                CompletionShell::Fish,
                CompletionShell::PowerShell,
                CompletionShell::Elvish,
            ],
            HelpersSubcommand::Man => Seq::empty(),
        }
    }

    /// What to generate and where, for a given answer to the question of the
    /// home directory.
    pub fn plan(self, home: Option<Option<String>>) -> (r: Result<Generation, GeneralError>)
        ensures
            match r {
                Ok(g) => {
                    &&& home matches Some(Some(path))
                    &&& g.kind == self
                    &&& g.shells@ == self.shells()
                    &&& g.directory@ == tool_entry(path@, self.directory_name())
                },
                Err(e) => !(home matches Some(Some(_))) && e@ == no_output_home_error(),
            },
    {
        let mut shells: Vec<CompletionShell> = Vec::new();
        let directory = match self {
            HelpersSubcommand::Completions => {
                shells.push(CompletionShell::Bash);
                shells.push(CompletionShell::Zsh);
                shells.push(CompletionShell::Fish);
                shells.push(CompletionShell::PowerShell);
                shells.push(CompletionShell::Elvish);
                output_directory(home, "completions")
            },
            HelpersSubcommand::Man => output_directory(home, "man"),
        };
        assert(shells@ =~= self.shells());
        match directory {
            Ok(directory) => Ok(Generation { kind: self, directory, shells }),
            Err(e) => Err(e),
        }
    }

    /// invoke subcommand: what to generate and where. The directory lies
    /// below the home directory that the system tells, whichever that is;
    /// where it tells none, that is the error.
    pub fn invoke(self) -> (r: Result<Generation, GeneralError>)
        ensures
            match r {
                Ok(g) => exists|home: Seq<char>| generates(self, home, g),
                Err(e) => e@ == no_output_home_error(),
            },
    {
        let home = home_dir();
        let r = self.plan(home);
        proof {
            if r is Ok {
                assert(generates(self, home->0->0@, r->Ok_0));
            }
        }
        r
    }

    /// The plan for the shell completions.
    pub fn gen_completions() -> (r: Result<Generation, GeneralError>)
        ensures
            match r {
                Ok(g) => exists|home: Seq<char>| generates(HelpersSubcommand::Completions, home, g),
                Err(e) => e@ == no_output_home_error(),
            },
    {
        HelpersSubcommand::Completions.invoke()
    }

    /// The plan for the manual pages.
    pub fn gen_man() -> (r: Result<Generation, GeneralError>)
        ensures
            match r {
                Ok(g) => exists|home: Seq<char>| generates(HelpersSubcommand::Man, home, g),
                Err(e) => e@ == no_output_home_error(),
            },
    {
        HelpersSubcommand::Man.invoke()
    }
}

} // verus!
