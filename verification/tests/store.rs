use n4n5::commands::gh::lib::Gh;
use n4n5::commands::movies::Movies;
use n4n5::commands::music::MusicCliCommand;
use n4n5::commands::sync::{ProgramsConfig, SyncCliCommand};
use n4n5::config::{Config, ConfigData};
use n4n5::errors::GeneralError;
use n4n5::location::ConfigLocation;
use n4n5::store::{config_from_table, config_table};

fn populated() -> ConfigData {
    ConfigData {
        movies: Some(Movies {
            file_path: Some("/m/movies.json".to_string()),
            public_file_path: Some("/m/pub lic.json".to_string()),
        }),
        sync: Some(SyncCliCommand {
            file_paths: vec!["/home/u/.bashrc".to_string(), "C:\\x \"y\"".to_string()],
            save_folder_path: Some("/backup".to_string()),
            programs: Some(ProgramsConfig {
                path_cargo_programs: Some("/p/cargo.txt".to_string()),
                path_vscode_extensions: Some("/p/code.txt".to_string()),
                path_nix: Some("/p/nix.txt".to_string()),
            }),
        }),
        gh: Some(Gh {
            username: Some("someone".to_string()),
            file_pulls: Some("/g/pulls.json".to_string()),
            file_projects: Some("/g/projects.json".to_string()),
            file_projects_disk: Some("/g/disk.json".to_string()),
        }),
        music: Some(MusicCliCommand {
            music_file: Some("/music.json".to_string()),
            env_path: Some("/e/.env".to_string()),
        }),
    }
}

fn config_of(data: ConfigData) -> Config {
    Config { debug: 3, use_input: false, config_path: "/c.toml".to_string(), config_data: data }
}

fn round_trip(data: ConfigData) {
    let text = config_of(data.clone()).save().ok().unwrap();
    let read = Config::parse_config(&text, "/c.toml".to_string()).ok().unwrap();
    assert_eq!(read.config_data, data);
    assert_eq!(read.debug, 0);
    assert!(read.use_input);
    assert_eq!(read.config_path, "/c.toml");
}

#[test]
fn round_trip_of_a_populated_configuration() {
    round_trip(populated());
}

#[test]
fn round_trip_of_the_empty_configuration() {
    round_trip(ConfigData::default());
    assert_eq!(config_of(ConfigData::default()).save().ok().unwrap(), "");
}

#[test]
fn round_trip_of_each_section_alone() {
    let all = populated();
    round_trip(ConfigData { movies: all.movies.clone(), ..ConfigData::default() });
    round_trip(ConfigData { sync: all.sync.clone(), ..ConfigData::default() });
    round_trip(ConfigData { gh: all.gh.clone(), ..ConfigData::default() });
    round_trip(ConfigData { music: all.music.clone(), ..ConfigData::default() });
}

#[test]
fn round_trip_of_sections_without_fields() {
    round_trip(ConfigData {
        movies: Some(Movies::default()),
        sync: Some(SyncCliCommand::default()),
        gh: Some(Gh::default()),
        music: Some(MusicCliCommand::default()),
    });
    round_trip(ConfigData {
        sync: Some(SyncCliCommand {
            file_paths: vec![],
            save_folder_path: None,
            programs: Some(ProgramsConfig::default()),
        }),
        ..ConfigData::default()
    });
}

#[test]
fn document_of_a_configuration_round_trips_without_text() {
    let table = config_table(&populated());
    assert_eq!(config_from_table(&table), Ok(populated()));
    let table = config_table(&ConfigData::default());
    assert!(table.is_empty());
    assert_eq!(config_from_table(&table), Ok(ConfigData::default()));
}

#[test]
fn written_text_is_the_same_each_time() {
    let first = config_of(populated()).save().ok().unwrap();
    let second = config_of(populated()).save().ok().unwrap();
    assert_eq!(first, second);
    assert!(first.contains("[movies]"));
    assert!(first.contains("file_path = \"/m/movies.json\""));
    assert!(first.contains("[sync.programs]"));
}

#[test]
fn file_written_by_hand_is_read() {
    let text = "[movies]\nfile_path = \"/m.json\"\n\n[sync]\nfile_paths = [\"/a\", \"/b\"]\n\n[gh]\nusername = \"me\"\n";
    let config = Config::parse_config(text, "/c.toml".to_string()).ok().unwrap();
    assert_eq!(
        config.config_data,
        ConfigData {
            movies: Some(Movies { file_path: Some("/m.json".to_string()), public_file_path: None }),
            sync: Some(SyncCliCommand {
                file_paths: vec!["/a".to_string(), "/b".to_string()],
                save_folder_path: None,
                programs: None,
            }),
            gh: Some(Gh {
                username: Some("me".to_string()),
                file_pulls: None,
                file_projects: None,
                file_projects_disk: None,
            }),
            music: None,
        }
    );
}

#[test]
fn unknown_entries_are_passed_over() {
    let text = "title = \"x\"\n[movies]\nfile_path = \"/m.json\"\nyear = 1999\n[other]\na = 1\n";
    let config = Config::parse_config(text, "/c.toml".to_string()).ok().unwrap();
    assert_eq!(
        config.config_data,
        ConfigData {
            movies: Some(Movies { file_path: Some("/m.json".to_string()), public_file_path: None }),
            ..ConfigData::default()
        }
    );
}

#[test]
fn malformed_text_is_an_error() {
    let r = Config::parse_config("[movies\nfile_path = ", "/c.toml".to_string());
    let e = r.err().unwrap();
    assert!(!e.message().is_empty());
    assert_eq!(e.source(), Some(e.message()));
}

#[test]
fn entry_of_the_wrong_kind_is_an_error() {
    let e = Config::parse_config("[movies]\nfile_path = 3\n", "/c.toml".to_string()).err().unwrap();
    assert_eq!(e, GeneralError::new("invalid value for `movies.file_path` in the configuration"));
    let e = Config::parse_config("movies = \"x\"\n", "/c.toml".to_string()).err().unwrap();
    assert_eq!(e, GeneralError::new("invalid value for `movies` in the configuration"));
    let e = Config::parse_config("[sync]\nfile_paths = [\"a\", 2]\n", "/c.toml".to_string())
        .err()
        .unwrap();
    assert_eq!(e, GeneralError::new("invalid value for `sync.file_paths` in the configuration"));
    let e = Config::parse_config("[sync]\nfile_paths = \"a\"\n", "/c.toml".to_string())
        .err()
        .unwrap();
    assert_eq!(e, GeneralError::new("invalid value for `sync.file_paths` in the configuration"));
    let e = Config::parse_config(
        "[sync]\nfile_paths = []\n[sync.programs]\npath_nix = true\n",
        "/c.toml".to_string(),
    )
    .err()
    .unwrap();
    assert_eq!(
        e,
        GeneralError::new("invalid value for `sync.programs.path_nix` in the configuration")
    );
    let e = Config::parse_config("[music]\nenv_path = []\n", "/c.toml".to_string()).err().unwrap();
    assert_eq!(e, GeneralError::new("invalid value for `music.env_path` in the configuration"));
    let e = Config::parse_config("[gh]\nfile_pulls = 1.5\n", "/c.toml".to_string()).err().unwrap();
    assert_eq!(e, GeneralError::new("invalid value for `gh.file_pulls` in the configuration"));
}

#[test]
fn first_faulty_entry_is_reported() {
    let text = "[movies]\nfile_path = 1\npublic_file_path = 2\n[gh]\nusername = 3\n";
    let e = Config::parse_config(text, "/c.toml".to_string()).err().unwrap();
    assert_eq!(e.message(), "invalid value for `movies.file_path` in the configuration");
}

#[test]
fn sync_section_needs_its_list_of_files() {
    let e = Config::parse_config("[sync]\nsave_folder_path = \"/b\"\n", "/c.toml".to_string())
        .err()
        .unwrap();
    assert_eq!(e, GeneralError::new("missing field `sync.file_paths` in the configuration"));
}

#[test]
fn unreadable_file_is_an_error_that_names_the_path() {
    let r = Config::try_new_from_path("/no/such.toml".to_string(), Err("not found".to_string()));
    assert_eq!(r, Err(GeneralError::new("Unable to open '/no/such.toml': not found")));
}

#[test]
fn readable_file_is_parsed_at_its_path() {
    let r = Config::try_new_from_path(
        "/some.toml".to_string(),
        Ok("[music]\nmusic_file = \"/m\"\n".to_string()),
    );
    let config = r.ok().unwrap();
    assert_eq!(config.config_path, "/some.toml");
    assert_eq!(
        config.config_data.music,
        Some(MusicCliCommand { music_file: Some("/m".to_string()), env_path: None })
    );
}

#[test]
fn config_at_a_location_or_the_failure_to_tell_it() {
    let place = ConfigLocation { directory: "/h/.config/.n4n5".to_string(), file: "/h/.config/.n4n5/config.toml".to_string() };
    let config = Config::try_new_at(Ok(place.clone()), Ok("".to_string())).ok().unwrap();
    assert_eq!(config.config_path, "/h/.config/.n4n5/config.toml");
    assert_eq!(config.config_data, ConfigData::default());
    let failure = GeneralError::new("nowhere");
    assert_eq!(Config::try_new_at(Err(failure.clone()), Ok("".to_string())), Err(failure));
    assert_eq!(
        Config::try_new_at(Ok(place), Err("denied".to_string())),
        Err(GeneralError::new("Unable to open '/h/.config/.n4n5/config.toml': denied"))
    );
}

#[test]
fn debug_level_is_set_and_nothing_else() {
    let mut config = config_of(populated());
    config.set_debug(7);
    assert_eq!(config.debug, 7);
    assert_eq!(config.config_data, populated());
    assert!(!config.use_input);
}

#[test]
fn update_applies_the_updater_and_hands_back_the_text_to_write() {
    let mut config = config_of(populated());
    let written = config.update(|mut data| {
        data.movies = None;
        data
    });
    let mut expected = populated();
    expected.movies = None;
    assert_eq!(config.config_data, expected);
    assert_eq!(written, config.save());
    let text = written.ok().unwrap();
    assert!(!text.contains("[movies]"));
    assert!(text.contains("[gh]"));
    assert_eq!(Config::parse_config(&text, "/c.toml".to_string()).ok().unwrap().config_data, expected);
    assert_eq!(config.debug, 3);
    assert_eq!(config.config_path, "/c.toml");
}

#[test]
fn default_config_file_lies_in_the_directory_of_the_tool() {
    let failure = GeneralError::new("Unable to get your home dir! home::home_dir() isn't working");
    match Config::get_config_path() {
        Ok(place) => {
            let directory = std::path::Path::new(&place.directory);
            assert!(directory.ends_with(".config/.n4n5"));
            assert_eq!(directory.join("config.toml"), std::path::Path::new(&place.file));
            assert_eq!(n4n5::location::default_config_location(), Ok(place));
        }
        Err(e) => {
            assert_eq!(e, failure);
            assert_eq!(n4n5::location::default_config_location(), Err(failure));
        }
    }
}

#[test]
fn default_config_is_what_the_contents_give_for_the_default_file() {
    let location = Config::get_config_path();
    let text = "[movies]\nfile_path = \"/m.json\"\n".to_string();
    assert_eq!(
        Config::try_new(Ok(text.clone())),
        Config::try_new_at(location.clone(), Ok(text))
    );
    assert_eq!(
        Config::try_new(Err("denied".to_string())),
        Config::try_new_at(location.clone(), Err("denied".to_string()))
    );
    assert_eq!(
        Config::try_new(Ok("movies = 3".to_string())),
        Config::try_new_at(location.clone(), Ok("movies = 3".to_string()))
    );
    if let Ok(place) = location {
        let config = Config::try_new(Ok("".to_string())).ok().unwrap();
        assert_eq!(config.config_path, place.file);
        assert_eq!(config.debug, 0);
        assert!(config.use_input);
        assert_eq!(config.config_data, ConfigData::default());
        let mut message = String::from("Unable to open '");
        message.push_str(&place.file);
        message.push_str("': denied");
        assert_eq!(Config::try_new(Err("denied".to_string())), Err(GeneralError::from(message)));
    }
}
