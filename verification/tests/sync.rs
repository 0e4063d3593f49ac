use n4n5::commands::gh::lib::Gh;
use n4n5::commands::movies::Movies;
use n4n5::commands::settings::Settings;
use n4n5::commands::sync::{
    CopyJob, ProgramList, ProgramsConfig, ProgramsStep, SettingsAction, SettingsCommand,
    SyncCliCommand, SyncJob, SyncLine, SyncStep, SyncSubcommand,
};
use n4n5::config::{Config, ConfigData};
use n4n5::errors::GeneralError;
use n4n5::paths::PathSetting;

fn config_with(data: ConfigData) -> Config {
    Config { debug: 0, use_input: true, config_path: "/c.toml".to_string(), config_data: data }
}

fn sync_section(programs: Option<ProgramsConfig>) -> SyncCliCommand {
    SyncCliCommand { file_paths: vec!["/a".to_string()], save_folder_path: None, programs }
}

#[test]
fn sync_all_runs_the_jobs_of_the_sections_that_are_present() {
    let mut config = config_with(ConfigData {
        movies: Some(Movies::default()),
        sync: Some(sync_section(None)),
        gh: Some(Gh::default()),
        music: None,
    });
    let steps = SyncCliCommand::sync_all(&mut config);
    assert_eq!(
        steps,
        vec![
            SyncStep::Run(SyncJob::Movies { print_json: false }),
            SyncStep::Say(SyncLine::Blank),
            SyncStep::Run(SyncJob::SaveFiles),
            SyncStep::Say(SyncLine::Blank),
            SyncStep::Run(SyncJob::Programs),
            SyncStep::Say(SyncLine::Blank),
            SyncStep::Run(SyncJob::Github),
        ]
    );
    assert!(!config.use_input);
}

#[test]
fn sync_all_of_an_empty_configuration_does_nothing() {
    let mut config = config_with(ConfigData::default());
    assert!(SyncCliCommand::sync_all(&mut config).is_empty());
    assert!(!config.use_input);
    assert_eq!(config.config_data, ConfigData::default());
}

#[test]
fn sync_all_announces_itself_at_a_high_debug_level() {
    let mut config = config_with(ConfigData { gh: Some(Gh::default()), ..ConfigData::default() });
    config.debug = 2;
    assert_eq!(
        SyncCliCommand::sync_all(&mut config),
        vec![SyncStep::Say(SyncLine::SyncingAll), SyncStep::Run(SyncJob::Github)]
    );
    config.debug = 1;
    assert_eq!(SyncCliCommand::sync_all(&mut config), vec![SyncStep::Run(SyncJob::Github)]);
}

#[test]
fn sync_sub_commands_select_their_job() {
    let mut config = config_with(ConfigData::default());
    assert_eq!(SyncSubcommand::Music.invoke(&mut config), vec![SyncStep::Run(SyncJob::Music)]);
    assert_eq!(
        SyncSubcommand::Movies { print_json: true }.invoke(&mut config),
        vec![SyncStep::Run(SyncJob::Movies { print_json: true })]
    );
    assert_eq!(SyncSubcommand::Programs.invoke(&mut config), vec![SyncStep::Run(SyncJob::Programs)]);
    assert_eq!(
        SyncSubcommand::Settings(SettingsCommand { action: SettingsAction::Add })
            .invoke(&mut config),
        vec![SyncStep::Run(SyncJob::AddFile)]
    );
    assert_eq!(
        SyncSubcommand::Settings(SettingsCommand { action: SettingsAction::All })
            .invoke(&mut config),
        vec![SyncStep::Run(SyncJob::SaveFiles)]
    );
    assert!(config.use_input);
    assert!(SyncSubcommand::All.invoke(&mut config).is_empty());
    assert!(!config.use_input);
}

#[test]
fn programs_are_skipped_without_input() {
    let mut config = config_with(ConfigData::default());
    config.use_input = false;
    assert_eq!(SyncCliCommand::sync_programs_step(&config, ProgramList::Cargo), ProgramsStep::Skip);
}

#[test]
fn programs_are_asked_about_when_the_record_lacks_the_path() {
    let record = ProgramsConfig {
        path_cargo_programs: Some("/cargo.txt".to_string()),
        path_vscode_extensions: None,
        path_nix: None,
    };
    let config = config_with(ConfigData {
        sync: Some(sync_section(Some(record))),
        ..ConfigData::default()
    });
    assert_eq!(
        SyncCliCommand::sync_programs_step(&config, ProgramList::Cargo),
        ProgramsStep::Resolve
    );
    assert_eq!(SyncCliCommand::sync_programs_step(&config, ProgramList::Nix), ProgramsStep::Ask);
    assert_eq!(SyncCliCommand::sync_programs_step(&config, ProgramList::Vscode), ProgramsStep::Ask);
}

#[test]
fn programs_are_resolved_when_there_is_no_record() {
    let config = config_with(ConfigData::default());
    assert_eq!(SyncCliCommand::sync_programs_step(&config, ProgramList::Nix), ProgramsStep::Resolve);
    let config =
        config_with(ConfigData { sync: Some(sync_section(None)), ..ConfigData::default() });
    assert_eq!(SyncCliCommand::sync_programs_step(&config, ProgramList::Nix), ProgramsStep::Resolve);
}

#[test]
fn program_lists_know_their_command_and_their_messages() {
    assert_eq!(
        SyncCliCommand::sync_programs(),
        vec![ProgramList::Cargo, ProgramList::Nix, ProgramList::Vscode]
    );
    assert_eq!(
        ProgramList::Cargo.command_text(),
        "cargo install --list | grep -v ':$' | sed 's/^ *//'"
    );
    assert_eq!(ProgramList::Nix.command_text(), "nix-env --query | cut -d'-' -f 1");
    assert_eq!(ProgramList::Vscode.command_text(), "code --list-extensions");
    assert_eq!(ProgramList::Cargo.path_setting(), PathSetting::CargoPrograms);
    assert_eq!(ProgramList::Nix.path_setting(), PathSetting::NixPrograms);
    assert_eq!(ProgramList::Vscode.path_setting(), PathSetting::VscodeExtensions);
    assert_eq!(
        ProgramList::Cargo.question_text(),
        "No cargo programs path found, do you want to add one? (y/n)"
    );
    assert_eq!(
        ProgramList::Vscode.question_text(),
        "No vscode extensions path found, do you want to add one? (y/n)"
    );
    assert_eq!(ProgramList::Nix.saved_text("/n.txt"), "Saved nix programs to /n.txt");
}

#[test]
fn files_below_home_keep_their_place_in_the_mirror() {
    let files = vec![
        "/home/u/.bashrc".to_string(),
        "/home/u/.config/app/settings.json".to_string(),
        "notes/list.txt".to_string(),
    ];
    let jobs = SyncCliCommand::save_files(&files, "/home/u", "/backup");
    assert_eq!(
        jobs.ok().unwrap(),
        vec![
            CopyJob {
                input_path: "/home/u/.bashrc".to_string(),
                save_path: "/backup/.bashrc".to_string(),
            },
            CopyJob {
                input_path: "/home/u/.config/app/settings.json".to_string(),
                save_path: "/backup/.config/app/settings.json".to_string(),
            },
            CopyJob {
                input_path: "/home/u/notes/list.txt".to_string(),
                save_path: "/backup/notes/list.txt".to_string(),
            },
        ]
    );
    assert_eq!(SyncCliCommand::save_files(&[], "/home/u", "/backup"), Ok(vec![]));
}

#[test]
fn file_outside_home_is_not_copied_onto_itself() {
    let files = vec!["/home/u/.bashrc".to_string(), "/etc/hosts".to_string()];
    assert_eq!(
        SyncCliCommand::save_files(&files, "/home/u", "/backup"),
        Err(GeneralError::new("Cannot save '/etc/hosts': its copy would not lie in '/backup'"))
    );
    assert_eq!(
        SyncCliCommand::checked_copy(&"/etc/hosts".to_string(), "/home/u", "/backup"),
        Err(GeneralError::new("Cannot save '/etc/hosts': its copy would not lie in '/backup'"))
    );
    assert_eq!(
        SyncCliCommand::checked_copy(&"/backup/hosts".to_string(), "/home/u", "/backup"),
        Err(GeneralError::new("Cannot save '/backup/hosts': it lies in '/backup' itself"))
    );
}

#[test]
fn file_in_the_folder_of_the_mirror_is_refused() {
    assert_eq!(
        SyncCliCommand::checked_copy(&"/home/u/backup/x".to_string(), "/home/u", "/home/u/backup"),
        Err(GeneralError::new("Cannot save '/home/u/backup/x': it lies in '/home/u/backup' itself"))
    );
    assert_eq!(
        SyncCliCommand::checked_copy(&"/home/u/.bashrc".to_string(), "/home/u", "/home/u"),
        Err(GeneralError::new("Cannot save '/home/u/.bashrc': it lies in '/home/u' itself"))
    );
    assert_eq!(
        SyncCliCommand::checked_copy(&"/home/u/.bashrc".to_string(), "/home/u", "/home/u/backup"),
        Ok(CopyJob {
            input_path: "/home/u/.bashrc".to_string(),
            save_path: "/home/u/backup/.bashrc".to_string(),
        })
    );
}

#[test]
fn no_copy_is_written_where_a_file_is_read() {
    let files = vec!["a".to_string(), "b/c".to_string(), "/home/u/d".to_string()];
    let jobs = SyncCliCommand::save_files(&files, "/home/u", "/home/u/mirror").ok().unwrap();
    for written in &jobs {
        assert!(std::path::Path::new(&written.save_path).starts_with("/home/u/mirror"));
        for read in &jobs {
            assert_ne!(written.save_path, read.input_path);
        }
    }
}

#[test]
fn mirrored_name_is_the_rest_or_the_whole_path() {
    let file = "/home/u/.bashrc".to_string();
    assert_eq!(SyncCliCommand::mirrored_name(&file, Some(".bashrc".to_string())), ".bashrc");
    assert_eq!(SyncCliCommand::mirrored_name(&file, None), "/home/u/.bashrc");
}

#[test]
fn files_to_save_come_from_the_sync_section() {
    let config = config_with(ConfigData::default());
    assert!(SyncCliCommand::files_to_save(&config).is_empty());
    let config =
        config_with(ConfigData { sync: Some(sync_section(None)), ..ConfigData::default() });
    assert_eq!(SyncCliCommand::files_to_save(&config), ["/a".to_string()]);
}

#[test]
fn mirror_messages() {
    assert_eq!(SyncCliCommand::saving_files_text(2, "/backup"), "Saving 2 files to '/backup'");
    let job = CopyJob { input_path: "/a".to_string(), save_path: "/b/a".to_string() };
    assert_eq!(SyncCliCommand::copy_line_text(&job), "- '/a' to '/b/a'");
}

#[test]
fn home_path_has_to_be_known_and_readable() {
    assert_eq!(
        SyncCliCommand::checked_home_path(None),
        Err(GeneralError::new("Cannot find home directory"))
    );
    assert_eq!(
        SyncCliCommand::checked_home_path(Some(None)),
        Err(GeneralError::new("Cannot convert home directory to string"))
    );
    assert_eq!(
        SyncCliCommand::checked_home_path(Some(Some("/home/u".to_string()))),
        Ok("/home/u".to_string())
    );
}

#[test]
fn file_is_added_to_an_absent_sync_section() {
    let mut config = config_with(ConfigData {
        movies: Some(Movies::default()),
        ..ConfigData::default()
    });
    SyncCliCommand::add_file(&mut config, "/etc/hosts".to_string());
    assert_eq!(
        config.config_data,
        ConfigData {
            movies: Some(Movies::default()),
            sync: Some(SyncCliCommand {
                file_paths: vec!["/etc/hosts".to_string()],
                save_folder_path: None,
                programs: None,
            }),
            gh: None,
            music: None,
        }
    );
    SyncCliCommand::add_file(&mut config, "/etc/fstab".to_string());
    assert_eq!(
        config.config_data.sync.unwrap().file_paths,
        vec!["/etc/hosts".to_string(), "/etc/fstab".to_string()]
    );
}

#[test]
fn settings_record_takes_files() {
    let mut settings = Settings::default();
    assert!(settings.file_paths.is_empty());
    assert_eq!(settings.save_folder_path, None);
    settings.add_file("/a".to_string());
    settings.add_file("/b".to_string());
    assert_eq!(settings.file_paths, vec!["/a", "/b"]);
    assert_eq!(
        settings.save_files("/", "/backup"),
        Ok(vec![
            CopyJob { input_path: "/a".to_string(), save_path: "/backup/a".to_string() },
            CopyJob { input_path: "/b".to_string(), save_path: "/backup/b".to_string() },
        ])
    );
    settings.add_file("/backup/c".to_string());
    assert_eq!(
        settings.save_files("/", "/backup"),
        Err(GeneralError::new("Cannot save '/backup/c': it lies in '/backup' itself"))
    );
}

#[test]
fn home_path_of_the_current_user_or_one_of_its_two_errors() {
    match SyncCliCommand::get_home_path() {
        Ok(path) => {
            assert_eq!(SyncCliCommand::checked_home_path(Some(Some(path.clone()))), Ok(path))
        }
        Err(e) => assert!(
            e == GeneralError::new("Cannot find home directory")
                || e == GeneralError::new("Cannot convert home directory to string")
        ),
    }
}
