//! The CLI module

use vstd::prelude::*;

use crate::commands::config::ConfigSubcommand;
use crate::commands::gh::lib::GhSubCommand;
use crate::commands::helpers::{generates, Generation, HelpersSubcommand};
use crate::commands::movies::MoviesSubCommand;
use crate::commands::music::MusicSubcommand;
use crate::commands::sync::SyncSubcommand;
use crate::commands::utils::lib::UtilsSubCommand;
use crate::config::{Config, ConfigView};
use crate::errors::GeneralError;
use crate::location::no_output_home_error;
use crate::text::opt_text;

verus! {

/// The arguments of the command line
#[derive(Clone, Debug, PartialEq)]
pub struct CliArgs {
    /// Sets a custom config file
    pub config: Option<String>,
    /// Turn debugging information on
    pub debug: u8,
    /// Subcommands
    pub command: Commands,
}

/// The commands of the tool
#[derive(Clone, Debug, PartialEq)]
pub enum Commands {
    /// utils subcommand
    Utils {
        /// list of subcommands
        subcommand: UtilsSubCommand,
    },
    /// music subcommand
    Music {
        /// list of subcommands
        subcommand: MusicSubcommand,
    },
    /// config subcommand
    Config {
        /// list of subcommands
        subcommand: ConfigSubcommand,
    },
    /// gh subcommand
    Gh {
        /// list of subcommands
        subcommand: GhSubCommand,
    },
    /// movies subcommand
    Movies {
        /// list of subcommands
        subcommand: MoviesSubCommand,
    },
    /// sync subcommand
    Sync {
        /// list of subcommands
        subcommand: SyncSubcommand,
    },
    /// generate completions
    Completions,
    /// generate man
    Man,
}

/// Where the configuration is read from.
#[derive(Clone, Debug, PartialEq)]
pub enum ConfigSource {
    /// The file that the command line names
    Custom(String),
    /// The file of the user
    Default,
}

impl CliArgs {
    /// Where the configuration is read from: the file that the command
    /// line names, and the file of the user where it names none.
    pub fn config_source(&self) -> (source: ConfigSource)
        ensures
            match source {
                ConfigSource::Custom(path) => opt_text(self.config) == Some(path@),
                ConfigSource::Default => self.config is None,
            },
    {
        match &self.config {
            Some(path) => ConfigSource::Custom(path.clone()),
            None => ConfigSource::Default,
        }
    }
}

impl Commands {
    /// The plan for the shell completions.
    pub fn gen_completions() -> (r: Result<Generation, GeneralError>)
        ensures
            match r {
                Ok(g) => exists|home: Seq<char>| generates(HelpersSubcommand::Completions, home, g),
                Err(e) => e@ == no_output_home_error(),
            },
    {
        HelpersSubcommand::gen_completions()
    }

    /// The plan for the manual pages.
    pub fn gen_man() -> (r: Result<Generation, GeneralError>)
        ensures
            match r {
                Ok(g) => exists|home: Seq<char>| generates(HelpersSubcommand::Man, home, g),
                Err(e) => e@ == no_output_home_error(),
            },
    {
        HelpersSubcommand::gen_man()
    }
}

/// The CLI main function: takes the debug level of the command line into
/// the configuration that was read and hands back the command to run.
pub fn cli_main(cli: CliArgs, config: &mut Config) -> (command: Commands)
    ensures
        command == cli.command,
        final(config)@ == (ConfigView { debug: cli.debug, ..old(config)@ }),
{
    config.set_debug(cli.debug);
    cli.command
}

} // verus!
