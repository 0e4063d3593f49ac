use n4n5::commands::gh::lib::Gh;
use n4n5::commands::movies::Movies;
use n4n5::commands::music::MusicCliCommand;
use n4n5::commands::sync::{ProgramList, ProgramsConfig, SyncCliCommand};
use n4n5::config::{Config, ConfigData};
use n4n5::errors::GeneralError;
use n4n5::paths::{
    resolve_required_nested_path, resolve_required_path, Answer, Lookup, PathDialogue,
    PathRequest, PathSetting, Probe, Reply, Run,
};

fn empty_config() -> Config {
    Config {
        debug: 0,
        use_input: true,
        config_path: "/tmp/config.toml".to_string(),
        config_data: ConfigData::default(),
    }
}

fn full_data() -> ConfigData {
    ConfigData {
        movies: Some(Movies {
            file_path: Some("/m/movies.json".to_string()),
            public_file_path: Some("/m/public.json".to_string()),
        }),
        sync: Some(SyncCliCommand {
            file_paths: vec!["/home/u/.bashrc".to_string(), "/etc/hosts".to_string()],
            save_folder_path: Some("/backup".to_string()),
            programs: Some(ProgramsConfig {
                path_cargo_programs: Some("/p/cargo.txt".to_string()),
                path_vscode_extensions: None,
                path_nix: Some("/p/nix.txt".to_string()),
            }),
        }),
        gh: Some(Gh {
            username: Some("someone".to_string()),
            file_pulls: Some("/g/pulls.json".to_string()),
            file_projects: None,
            file_projects_disk: None,
        }),
        music: Some(MusicCliCommand { music_file: None, env_path: Some("/e/.env".to_string()) }),
    }
}

fn reply(line: &str, exists: bool) -> Reply {
    Reply { line: line.to_string(), exists }
}

#[test]
fn configured_path_is_returned_without_a_dialogue() {
    let mut config = empty_config();
    config.config_data = full_data();
    let before = config.clone();
    assert_eq!(
        resolve_required_path(&config, PathSetting::MoviesFile),
        Lookup::Found("/m/movies.json".to_string())
    );
    assert_eq!(
        resolve_required_path(&config, PathSetting::SyncSaveFolder),
        Lookup::Found("/backup".to_string())
    );
    assert_eq!(
        resolve_required_path(&config, PathSetting::GhPulls),
        Lookup::Found("/g/pulls.json".to_string())
    );
    assert_eq!(
        resolve_required_path(&config, PathSetting::MusicEnv),
        Lookup::Found("/e/.env".to_string())
    );
    assert_eq!(config, before);
}

#[test]
fn every_setting_is_found_after_it_is_set() {
    let settings = [
        PathSetting::MoviesFile,
        PathSetting::MoviesPublicFile,
        PathSetting::SyncSaveFolder,
        PathSetting::CargoPrograms,
        PathSetting::VscodeExtensions,
        PathSetting::NixPrograms,
        PathSetting::GhPulls,
        PathSetting::GhProjects,
        PathSetting::GhProjectsDisk,
        PathSetting::MusicFile,
        PathSetting::MusicEnv,
    ];
    for (i, setting) in settings.iter().enumerate() {
        let mut data = ConfigData::default();
        assert_eq!(data.path(*setting), None);
        let value = format!("/path/{}", i);
        data.set_path(*setting, value.clone());
        assert_eq!(data.path(*setting), Some(&value));
        for other in settings.iter() {
            if other != setting {
                assert_eq!(data.path(*other), None);
            }
        }
    }
}

#[test]
fn setting_a_path_keeps_every_other_field() {
    let mut data = full_data();
    data.set_path(PathSetting::GhProjects, "/g/projects.json".to_string());
    let mut expected = full_data();
    expected.gh = Some(Gh {
        username: Some("someone".to_string()),
        file_pulls: Some("/g/pulls.json".to_string()),
        file_projects: Some("/g/projects.json".to_string()),
        file_projects_disk: None,
    });
    assert_eq!(data, expected);
}

#[test]
fn setting_a_nested_path_keeps_the_files_to_mirror() {
    let mut data = ConfigData::default();
    data.sync = Some(SyncCliCommand {
        file_paths: vec!["/a".to_string()],
        save_folder_path: Some("/backup".to_string()),
        programs: None,
    });
    data.set_path(PathSetting::NixPrograms, "/p/nix.txt".to_string());
    assert_eq!(
        data.sync,
        Some(SyncCliCommand {
            file_paths: vec!["/a".to_string()],
            save_folder_path: Some("/backup".to_string()),
            programs: Some(ProgramsConfig {
                path_cargo_programs: None,
                path_vscode_extensions: None,
                path_nix: Some("/p/nix.txt".to_string()),
            }),
        })
    );
    assert_eq!(data.movies, None);
}

#[test]
fn missing_path_starts_a_dialogue_with_the_prompt() {
    let config = empty_config();
    match resolve_required_path(&config, PathSetting::MoviesFile) {
        Lookup::Missing(dialogue) => {
            assert_eq!(
                dialogue.prompt_text(),
                "Please enter the path to the folder where to save movies file:"
            );
            assert!(!dialogue.retry);
        }
        Lookup::Found(_) => panic!("nothing is configured"),
    }
}

#[test]
fn section_with_unset_field_starts_a_dialogue() {
    let mut config = empty_config();
    config.config_data = full_data();
    match resolve_required_path(&config, PathSetting::MusicFile) {
        Lookup::Missing(dialogue) => {
            assert_eq!(dialogue.request, PathRequest::Setting(PathSetting::MusicFile));
            assert_eq!(
                dialogue.prompt_text(),
                "Please enter the path to the folder where to save the file for music:"
            );
        }
        Lookup::Found(_) => panic!("the music file is not configured"),
    }
}

#[test]
fn prompts_name_their_setting() {
    assert_eq!(
        PathSetting::MoviesPublicFile.prompt_text(),
        "Please enter the path to the folder where to save the public file for movies:"
    );
    assert_eq!(
        PathSetting::SyncSaveFolder.prompt_text(),
        "Please enter the path to the folder where to save settings folder:"
    );
    assert_eq!(
        PathSetting::CargoPrograms.prompt_text(),
        "Please enter the path to the folder where to save cargo programs:"
    );
    assert_eq!(PathSetting::VscodeExtensions.subject_text(), "vscode extensions");
    assert_eq!(PathSetting::NixPrograms.subject_text(), "nix programs");
    assert_eq!(PathSetting::GhPulls.subject_text(), "pulls file");
    assert_eq!(PathSetting::GhProjects.subject_text(), "projects file");
    assert_eq!(PathSetting::MusicEnv.subject_text(), "the env path");
    assert_eq!(
        PathRequest::FileToMirror.prompt_text(),
        "Please enter the path to the file to add:"
    );
}

#[test]
fn backslash_cancels_without_touching_the_configuration() {
    let mut config = empty_config();
    config.config_data = full_data();
    let before = config.clone();
    let dialogue = PathDialogue { request: PathRequest::Setting(PathSetting::MusicFile), retry: false };
    match dialogue.on_line("\\".to_string()) {
        Answer::Cancelled(e) => assert_eq!(e, GeneralError::new("no path")),
        Answer::Candidate(_) => panic!("the backslash cancels"),
    }
    assert_eq!(config, before);
    let dialogue = PathDialogue { request: PathRequest::Setting(PathSetting::MusicFile), retry: false };
    match dialogue.run(&mut config, &vec![reply("\\", true), reply("/exists", true)]) {
        Run::Cancelled(e) => assert_eq!(e.message(), "no path"),
        _ => panic!("the backslash cancels"),
    }
    assert_eq!(config, before);
}

#[test]
fn backslash_cancels_at_a_later_prompt_too() {
    let mut config = empty_config();
    let before = config.clone();
    let dialogue = PathDialogue { request: PathRequest::Setting(PathSetting::GhPulls), retry: false };
    let replies = vec![reply("/nowhere", false), reply("/nothing", false), reply("\\", false)];
    match dialogue.run(&mut config, &replies) {
        Run::Cancelled(e) => assert_eq!(e.message(), "no path"),
        _ => panic!("the backslash cancels"),
    }
    assert_eq!(config, before);
}

#[test]
fn lines_that_only_resemble_the_backslash_are_paths() {
    let dialogue = PathDialogue { request: PathRequest::FileToMirror, retry: false };
    assert!(matches!(dialogue.clone().on_line("\\\\".to_string()), Answer::Candidate(_)));
    assert!(matches!(dialogue.clone().on_line("".to_string()), Answer::Candidate(_)));
    assert!(matches!(dialogue.on_line(" \\".to_string()), Answer::Candidate(_)));
}

#[test]
fn missing_path_is_asked_again_and_only_the_existing_one_is_accepted() {
    let mut config = empty_config();
    let dialogue = match resolve_required_path(&config, PathSetting::MoviesFile) {
        Lookup::Missing(d) => d,
        Lookup::Found(_) => panic!("nothing is configured"),
    };
    let candidate = match dialogue.on_line("/does/not/exist".to_string()) {
        Answer::Candidate(c) => c,
        Answer::Cancelled(_) => panic!("not cancelled"),
    };
    let again = match candidate.on_probe(&mut config, false) {
        Probe::Retry(d) => d,
        Probe::Accepted(_) => panic!("the path does not exist"),
    };
    assert_eq!(config, empty_config());
    assert_eq!(again.prompt_text(), "Path does not exist. Please enter a valid path:");
    let candidate = match again.on_line("/tmp/movies.json".to_string()) {
        Answer::Candidate(c) => c,
        Answer::Cancelled(_) => panic!("not cancelled"),
    };
    let pending = match candidate.on_probe(&mut config, true) {
        Probe::Accepted(p) => p,
        Probe::Retry(_) => panic!("the path exists"),
    };
    assert_eq!(pending.finish(Ok(())), Ok("/tmp/movies.json".to_string()));
    assert_eq!(config.config_data.path(PathSetting::MoviesFile), Some(&"/tmp/movies.json".to_string()));
}

#[test]
fn run_stores_the_first_existing_path() {
    let mut config = empty_config();
    config.config_data = full_data();
    let dialogue = PathDialogue { request: PathRequest::Setting(PathSetting::GhProjects), retry: false };
    let replies = vec![reply("/a", false), reply("/b", true), reply("/c", true), reply("\\", false)];
    match dialogue.run(&mut config, &replies) {
        Run::Stored(pending) => assert_eq!(pending.path, "/b"),
        _ => panic!("the second path exists"),
    }
    let mut expected = full_data();
    expected.set_path(PathSetting::GhProjects, "/b".to_string());
    assert_eq!(config.config_data, expected);
    assert_eq!(config.debug, 0);
    assert_eq!(config.config_path, "/tmp/config.toml");
}

#[test]
fn run_without_an_accepted_answer_goes_on_asking() {
    let mut config = empty_config();
    let dialogue = PathDialogue { request: PathRequest::FileToMirror, retry: false };
    match dialogue.clone().run(&mut config, &vec![]) {
        Run::Unanswered(d) => assert_eq!(d, dialogue),
        _ => panic!("nothing was answered"),
    }
    match dialogue.run(&mut config, &vec![reply("/x", false)]) {
        Run::Unanswered(d) => {
            assert_eq!(d, PathDialogue { request: PathRequest::FileToMirror, retry: true })
        }
        _ => panic!("the path does not exist"),
    }
    assert_eq!(config, empty_config());
}

#[test]
fn failed_write_is_handed_on() {
    let mut config = empty_config();
    let dialogue = PathDialogue { request: PathRequest::Setting(PathSetting::MusicFile), retry: false };
    let pending = match dialogue.run(&mut config, &vec![reply("/music.json", true)]) {
        Run::Stored(p) => p,
        _ => panic!("the path exists"),
    };
    let failure = GeneralError::new_with_source("denied".to_string(), "denied".to_string());
    assert_eq!(pending.finish(Err(failure.clone())), Err(failure));
}

#[test]
fn resolve_movies_file_from_an_empty_configuration() {
    let mut config = Config::parse_config("", "/tmp/config.toml".to_string()).ok().unwrap();
    assert_eq!(config.config_data, ConfigData::default());
    let dialogue = match Movies::get_movie_path(&config) {
        Lookup::Missing(d) => d,
        Lookup::Found(_) => panic!("the file is empty"),
    };
    assert_eq!(
        dialogue.prompt_text(),
        "Please enter the path to the folder where to save movies file:"
    );
    let pending = match dialogue.run(&mut config, &vec![reply("/tmp/movies.json", true)]) {
        Run::Stored(p) => p,
        _ => panic!("the path exists"),
    };
    let text = config.save().ok().unwrap();
    let persisted = Config::parse_config(&text, "/tmp/config.toml".to_string()).ok().unwrap();
    assert_eq!(
        persisted.config_data.movies,
        Some(Movies { file_path: Some("/tmp/movies.json".to_string()), public_file_path: None })
    );
    assert_eq!(persisted.config_data.gh, None);
    assert_eq!(persisted.config_data.sync, None);
    assert_eq!(persisted.config_data.music, None);
    assert_eq!(pending.finish(Ok(())), Ok("/tmp/movies.json".to_string()));
    assert_eq!(Movies::get_movie_path(&config), Lookup::Found("/tmp/movies.json".to_string()));
}

#[test]
fn nested_path_is_resolved_one_level_deeper() {
    let mut config = empty_config();
    config.config_data = full_data();
    assert_eq!(
        resolve_required_nested_path(&config, ProgramList::Cargo),
        Lookup::Found("/p/cargo.txt".to_string())
    );
    assert_eq!(
        resolve_required_nested_path(&config, ProgramList::Nix),
        Lookup::Found("/p/nix.txt".to_string())
    );
    match resolve_required_nested_path(&config, ProgramList::Vscode) {
        Lookup::Missing(d) => {
            assert_eq!(d.request, PathRequest::Setting(PathSetting::VscodeExtensions));
            assert_eq!(
                d.prompt_text(),
                "Please enter the path to the folder where to save vscode extensions:"
            );
        }
        Lookup::Found(_) => panic!("the extensions have no path"),
    }
}

#[test]
fn music_file_path_is_looked_up() {
    let mut config = empty_config();
    assert!(matches!(MusicCliCommand::get_music_file_path(&config), Lookup::Missing(_)));
    config.config_data.set_path(PathSetting::MusicFile, "/music.json".to_string());
    assert_eq!(
        MusicCliCommand::get_music_file_path(&config),
        Lookup::Found("/music.json".to_string())
    );
}

#[test]
fn accepted_file_is_added_to_the_mirror() {
    let mut config = empty_config();
    config.config_data = full_data();
    let dialogue = SyncCliCommand::add_file_dialogue();
    match dialogue.run(&mut config, &vec![reply("/etc/fstab", true)]) {
        Run::Stored(p) => assert_eq!(p.path, "/etc/fstab"),
        _ => panic!("the file exists"),
    }
    let mut expected = full_data();
    expected.sync.as_mut().unwrap().file_paths.push("/etc/fstab".to_string());
    assert_eq!(config.config_data, expected);
}
