use n4n5::cli::{cli_main, CliArgs, Commands, ConfigSource};
use n4n5::commands::config::{ConfigSubcommand, OpenPlan};
use n4n5::commands::helpers::{CompletionShell, HelpersSubcommand};
use n4n5::commands::music::{MusicCliCommand, MusicPlatform, MusicSubcommand};
use n4n5::commands::shortcuts::{GitMoverRequest, GitPlatform, ShortcutsSubcommand};
use n4n5::config::{Config, ConfigData};
use n4n5::errors::GeneralError;
use n4n5::location::{checked_home, config_location, output_directory, ConfigLocation};

fn home(path: &str) -> Option<Option<String>> {
    Some(Some(path.to_string()))
}

fn config() -> Config {
    Config {
        debug: 0,
        use_input: true,
        config_path: "/h/.config/.n4n5/config.toml".to_string(),
        config_data: ConfigData::default(),
    }
}

#[test]
fn cli_main_takes_the_debug_level_and_hands_the_command_back() {
    let mut c = config();
    let cli = CliArgs {
        config: None,
        debug: 2,
        command: Commands::Music { subcommand: MusicSubcommand::Sync },
    };
    let command = cli_main(cli, &mut c);
    assert_eq!(command, Commands::Music { subcommand: MusicSubcommand::Sync });
    assert_eq!(c.debug, 2);
    assert_eq!(c.config_data, ConfigData::default());
    assert!(c.use_input);
}

#[test]
fn configuration_comes_from_the_named_file_or_the_default() {
    let cli = CliArgs { config: Some("/x.toml".to_string()), debug: 0, command: Commands::Man };
    assert_eq!(cli.config_source(), ConfigSource::Custom("/x.toml".to_string()));
    let cli = CliArgs { config: None, debug: 0, command: Commands::Completions };
    assert_eq!(cli.config_source(), ConfigSource::Default);
}

#[test]
fn configuration_lies_below_the_home_directory() {
    assert_eq!(
        config_location(home("/home/u")),
        Ok(ConfigLocation {
            directory: "/home/u/.config/.n4n5".to_string(),
            file: "/home/u/.config/.n4n5/config.toml".to_string(),
        })
    );
    assert_eq!(
        config_location(home("/home/u/")).ok().unwrap().directory,
        "/home/u/.config/.n4n5"
    );
}

#[test]
fn configuration_needs_a_home_directory() {
    let failure = GeneralError::new("Unable to get your home dir! home::home_dir() isn't working");
    assert_eq!(config_location(None), Err(failure.clone()));
    assert_eq!(config_location(Some(None)), Err(failure.clone()));
    assert_eq!(config_location(home("")), Err(failure.clone()));
    assert_eq!(checked_home(home("")), Err(failure));
    assert_eq!(checked_home(home("/h")), Ok("/h".to_string()));
}

#[test]
fn generated_files_go_below_the_home_directory() {
    assert_eq!(
        output_directory(home("/home/u"), "completions"),
        Ok("/home/u/.config/.n4n5/completions".to_string())
    );
    assert_eq!(output_directory(None, "man"), Err(GeneralError::new("Cannot get home dir")));
    assert_eq!(output_directory(Some(None), "man"), Err(GeneralError::new("Cannot get home dir")));
}

#[test]
fn helpers_plan_their_files() {
    let plan = HelpersSubcommand::Completions.plan(home("/home/u")).ok().unwrap();
    assert_eq!(plan.kind, HelpersSubcommand::Completions);
    assert_eq!(plan.directory, "/home/u/.config/.n4n5/completions");
    assert_eq!(
        plan.shells,
        vec![
            CompletionShell::Bash,
            CompletionShell::Zsh,
            CompletionShell::Fish,
            CompletionShell::PowerShell,
            CompletionShell::Elvish,
        ]
    );
    let plan = HelpersSubcommand::Man.plan(home("/home/u")).ok().unwrap();
    assert_eq!(plan.kind, HelpersSubcommand::Man);
    assert_eq!(plan.directory, "/home/u/.config/.n4n5/man");
    assert!(plan.shells.is_empty());
    assert_eq!(HelpersSubcommand::Man.plan(None), Err(GeneralError::new("Cannot get home dir")));
}

#[test]
fn config_file_is_opened_or_its_path_printed() {
    let c = config();
    assert_eq!(
        ConfigSubcommand::Open { show_path_only: true }.invoke(&c),
        OpenPlan::PrintPath("/h/.config/.n4n5/config.toml".to_string())
    );
    assert_eq!(
        ConfigSubcommand::Open { show_path_only: false }.invoke(&c),
        OpenPlan::Edit {
            message: "Opening config /h/.config/.n4n5/config.toml".to_string(),
            editor: "vi".to_string(),
            path: "/h/.config/.n4n5/config.toml".to_string(),
        }
    );
    assert_eq!(Config::open(&c, true), OpenPlan::PrintPath(c.config_path.clone()));
}

#[test]
fn music_commands() {
    assert_eq!(
        MusicCliCommand::sync_music(),
        vec![MusicPlatform::Deezer, MusicPlatform::Spotify, MusicPlatform::Youtube]
    );
    assert_eq!(MusicCliCommand::music_file_text("/m.json"), "music file: '/m.json'");
    assert_eq!(
        MusicCliCommand::open_music_file("/m.json", true),
        OpenPlan::PrintPath("/m.json".to_string())
    );
    assert_eq!(
        MusicCliCommand::open_music_file("/m.json", false),
        OpenPlan::Edit {
            message: "Opening music file at /m.json".to_string(),
            editor: "vi".to_string(),
            path: "/m.json".to_string(),
        }
    );
}

#[test]
fn shortcut_moves_from_github_to_codeberg() {
    assert_eq!(
        ShortcutsSubcommand::SyncGit.run(),
        GitMoverRequest {
            source: GitPlatform::Github,
            destination: GitPlatform::Codeberg,
            manual: true,
        }
    );
}
