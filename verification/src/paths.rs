//! Path settings of the configuration and the dialogue that fills in a
//! missing one.
//!
//! A command that needs a path asks for it with [`resolve_required_path`]. A
//! path that is configured is handed back at once. For one that is not, the
//! caller prints the prompt, reads a line and reports it with
//! [`PathDialogue::on_line`]; it then tests whether the candidate exists and
//! reports that with [`PathCandidate::on_probe`], which stores an existing
//! path in the configuration; it writes the configuration file and reports
//! how that went with [`PendingSave::finish`], which hands the path back.
//!
//! [`PathDialogue::run`] walks through a dialogue whose answers are known
//! beforehand, and the laws at the end of this file say how every dialogue
//! ends.

use vstd::prelude::*;
use vstd::string::*;

use crate::commands::gh::lib::{Gh, GhView};
use crate::commands::movies::{Movies, MoviesView};
use crate::commands::music::{MusicCliCommand, MusicView};
use crate::commands::sync::{
    ProgramList, ProgramsConfig, ProgramsView, SyncCliCommand, SyncView,
};
use crate::config::{Config, ConfigData, ConfigDataView, ConfigView};
use crate::errors::{GeneralError, GeneralErrorView};
use crate::text::{same_text, texts};

verus! {

/// A section of the configuration.
#[derive(Clone, Copy, PartialEq, Eq, Structural, Debug)]
pub enum Section {
    Movies,
    Sync,
    Gh,
    Music,
}

/// A path that a command may need from the configuration.
#[derive(Clone, Copy, PartialEq, Eq, Structural, Debug)]
pub enum PathSetting {
    /// The movies file
    MoviesFile,
    /// The public file derived from the movies file
    MoviesPublicFile,
    /// The folder that receives the mirrored settings files
    SyncSaveFolder,
    /// The snapshot of the programs installed with cargo
    CargoPrograms,
    /// The snapshot of the editor's extensions
    VscodeExtensions,
    /// The snapshot of the programs installed with nix
    NixPrograms,
    /// The file of pull requests
    GhPulls,
    /// The file of projects
    GhProjects,
    /// The file with the disk usage of each project
    GhProjectsDisk,
    /// The music file
    MusicFile,
    /// The environment file of the music exporter
    MusicEnv,
}

/// The movies section, or the empty one where it is absent.
pub open spec fn movies_or_empty(data: ConfigDataView) -> MoviesView {
    match data.movies {
        Some(m) => m,
        None => MoviesView::empty(),
    }
}

/// The sync section, or the empty one where it is absent.
pub open spec fn sync_or_empty(data: ConfigDataView) -> SyncView {
    match data.sync {
        Some(s) => s,
        None => SyncView::empty(),
    }
}

/// The programs record of the sync section, or the empty one where the
/// section or the record is absent.
pub open spec fn programs_or_empty(data: ConfigDataView) -> ProgramsView {
    match sync_or_empty(data).programs {
        Some(p) => p,
        None => ProgramsView::empty(),
    }
}

/// The GitHub section, or the empty one where it is absent.
pub open spec fn gh_or_empty(data: ConfigDataView) -> GhView {
    match data.gh {
        Some(g) => g,
        None => GhView::empty(),
    }
}

/// The music section, or the empty one where it is absent.
pub open spec fn music_or_empty(data: ConfigDataView) -> MusicView {
    match data.music {
        Some(m) => m,
        None => MusicView::empty(),
    }
}

/// The line that cancels the entry of a path: a single backslash.
pub open spec fn cancel_line() -> Seq<char> {
    seq!['\\']
}

impl PathSetting {
    /// The section that holds the setting.
    pub open spec fn section(self) -> Section {
        match self {
            PathSetting::MoviesFile | PathSetting::MoviesPublicFile => Section::Movies,
            PathSetting::SyncSaveFolder
            | PathSetting::CargoPrograms
            | PathSetting::VscodeExtensions
            | PathSetting::NixPrograms => Section::Sync,
            PathSetting::GhPulls | PathSetting::GhProjects | PathSetting::GhProjectsDisk =>
                Section::Gh,
            PathSetting::MusicFile | PathSetting::MusicEnv => Section::Music,
        }
    }

    /// Whether the setting lies one level deeper, in the programs record of
    /// the sync section.
    pub open spec fn is_nested(self) -> bool {
        self == PathSetting::CargoPrograms || self == PathSetting::VscodeExtensions || self
            == PathSetting::NixPrograms
    }

    /// The configured value of the setting: none where its section (or, for
    /// a nested setting, its record) is absent or the field is unset.
    pub open spec fn lookup(self, data: ConfigDataView) -> Option<Seq<char>> {
        match self {
            PathSetting::MoviesFile => movies_or_empty(data).file_path,
            PathSetting::MoviesPublicFile => movies_or_empty(data).public_file_path,
            PathSetting::SyncSaveFolder => sync_or_empty(data).save_folder_path,
            PathSetting::CargoPrograms => programs_or_empty(data).path_cargo_programs,
            PathSetting::VscodeExtensions => programs_or_empty(data).path_vscode_extensions,
            PathSetting::NixPrograms => programs_or_empty(data).path_nix,
            PathSetting::GhPulls => gh_or_empty(data).file_pulls,
            PathSetting::GhProjects => gh_or_empty(data).file_projects,
            PathSetting::GhProjectsDisk => gh_or_empty(data).file_projects_disk,
            PathSetting::MusicFile => music_or_empty(data).music_file,
            PathSetting::MusicEnv => music_or_empty(data).env_path,
        }
    }

    /// The configuration after the setting has been given a value: its
    /// section (and record) exists, the field holds the value, and everything
    /// else is as before.
    pub open spec fn store(self, data: ConfigDataView, value: Seq<char>) -> ConfigDataView {
        match self {
            PathSetting::MoviesFile => ConfigDataView {
                movies: Some(MoviesView { file_path: Some(value), ..movies_or_empty(data) }),
                ..data
            },
            PathSetting::MoviesPublicFile => ConfigDataView {
                movies: Some(
                    MoviesView { public_file_path: Some(value), ..movies_or_empty(data) },
                ),
                ..data
            },
            PathSetting::SyncSaveFolder => ConfigDataView {
                sync: Some(SyncView { save_folder_path: Some(value), ..sync_or_empty(data) }),
                ..data
            },
            PathSetting::CargoPrograms => ConfigDataView {
                sync: Some(
                    SyncView {
                        programs: Some(
                            ProgramsView {
                                path_cargo_programs: Some(value),
                                ..programs_or_empty(data)
                            },
                        ),
                        ..sync_or_empty(data)
                    },
                ),
                ..data
            },
            PathSetting::VscodeExtensions => ConfigDataView {
                sync: Some(
                    SyncView {
                        programs: Some(
                            ProgramsView {
                                path_vscode_extensions: Some(value),
                                ..programs_or_empty(data)
                            },
                        ),
                        ..sync_or_empty(data)
                    },
                ),
                ..data
            },
            PathSetting::NixPrograms => ConfigDataView {
                sync: Some(
                    SyncView {
                        programs: Some(
                            ProgramsView { path_nix: Some(value), ..programs_or_empty(data) },
                        ),
                        ..sync_or_empty(data)
                    },
                ),
                ..data
            },
            PathSetting::GhPulls => ConfigDataView {
                gh: Some(GhView { file_pulls: Some(value), ..gh_or_empty(data) }),
                ..data
            },
            PathSetting::GhProjects => ConfigDataView {
                gh: Some(GhView { file_projects: Some(value), ..gh_or_empty(data) }),
                ..data
            },
            PathSetting::GhProjectsDisk => ConfigDataView {
                gh: Some(GhView { file_projects_disk: Some(value), ..gh_or_empty(data) }),
                ..data
            },
            PathSetting::MusicFile => ConfigDataView {
                music: Some(MusicView { music_file: Some(value), ..music_or_empty(data) }),
                ..data
            },
            PathSetting::MusicEnv => ConfigDataView {
                music: Some(MusicView { env_path: Some(value), ..music_or_empty(data) }),
                ..data
            },
        }
    }

    /// What the prompt calls the setting.
    pub open spec fn subject(self) -> Seq<char> {
        match self {
            PathSetting::MoviesFile => "movies file"@,
            PathSetting::MoviesPublicFile => "the public file for movies"@,
            PathSetting::SyncSaveFolder => "settings folder"@,
            PathSetting::CargoPrograms => "cargo programs"@,
            PathSetting::VscodeExtensions => "vscode extensions"@,
            PathSetting::NixPrograms => "nix programs"@,
            PathSetting::GhPulls => "pulls file"@,
            PathSetting::GhProjects => "projects file"@,
            PathSetting::GhProjectsDisk => "the file for the disk usage of projects"@,
            PathSetting::MusicFile => "the file for music"@,
            PathSetting::MusicEnv => "the env path"@,
        }
    }

    /// The line that asks the user for the setting.
    pub open spec fn prompt(self) -> Seq<char> {
        "Please enter the path to the folder where to save "@ + self.subject() + ":"@
    }

    /// What the prompt calls the setting.
    pub fn subject_text(self) -> (r: &'static str)
        ensures
            r@ == self.subject(),
    {
        match self {
            PathSetting::MoviesFile => "movies file",
            PathSetting::MoviesPublicFile => "the public file for movies",
            PathSetting::SyncSaveFolder => "settings folder",
            PathSetting::CargoPrograms => "cargo programs",
            PathSetting::VscodeExtensions => "vscode extensions",
            PathSetting::NixPrograms => "nix programs",
            PathSetting::GhPulls => "pulls file",
            PathSetting::GhProjects => "projects file",
            PathSetting::GhProjectsDisk => "the file for the disk usage of projects",
            PathSetting::MusicFile => "the file for music",
            PathSetting::MusicEnv => "the env path",
        }
    }

    /// The line that asks the user for the setting.
    pub fn prompt_text(self) -> (r: String)
        ensures
            r@ == self.prompt(),
    {
        let mut out = String::from_str("Please enter the path to the folder where to save ");
        out.append(self.subject_text());
        out.append(":");
        out
    }
}

/// The line that asks again after a path that does not exist.
pub open spec fn retry_prompt() -> Seq<char> {
    "Path does not exist. Please enter a valid path:"@
}

impl ConfigData {
    /// The configured value of a path setting, if it has one.
    pub fn path(&self, setting: PathSetting) -> (r: Option<&String>)
        ensures
            match r {
                Some(p) => setting.lookup(self@) == Some(p@),
                None => setting.lookup(self@) is None,
            },
    {
        match setting {
            PathSetting::MoviesFile => match &self.movies {
                Some(m) => m.file_path.as_ref(),
                None => None,
            },
            PathSetting::MoviesPublicFile => match &self.movies {
                Some(m) => m.public_file_path.as_ref(),
                None => None,
            },
            PathSetting::SyncSaveFolder => match &self.sync {
                Some(s) => s.save_folder_path.as_ref(),
                None => None,
            },
            PathSetting::CargoPrograms => match &self.sync {
                Some(s) => match &s.programs {
                    Some(p) => p.path_cargo_programs.as_ref(),
                    None => None,
                },
                None => None,
            },
            PathSetting::VscodeExtensions => match &self.sync {
                Some(s) => match &s.programs {
                    Some(p) => p.path_vscode_extensions.as_ref(),
                    None => None,
                },
                None => None,
            },
            PathSetting::NixPrograms => match &self.sync {
                Some(s) => match &s.programs {
                    Some(p) => p.path_nix.as_ref(),
                    None => None,
                },
                None => None,
            },
            PathSetting::GhPulls => match &self.gh {
                Some(g) => g.file_pulls.as_ref(),
                None => None,
            },
            PathSetting::GhProjects => match &self.gh {
                Some(g) => g.file_projects.as_ref(),
                None => None,
            },
            PathSetting::GhProjectsDisk => match &self.gh {
                Some(g) => g.file_projects_disk.as_ref(),
                None => None,
            },
            PathSetting::MusicFile => match &self.music {
                Some(m) => m.music_file.as_ref(),
                None => None,
            },
            PathSetting::MusicEnv => match &self.music {
                Some(m) => m.env_path.as_ref(),
                None => None,
            },
        }
    }

    /// Gives a path setting a value, creating its section (and record) where
    /// it is absent and keeping every other field as it is.
    pub fn set_path(&mut self, setting: PathSetting, value: String)
        ensures
            final(self)@ == setting.store(old(self)@, value@),
    {
        match setting {
            PathSetting::MoviesFile | PathSetting::MoviesPublicFile => {
                let mut section = match self.movies.take() {
                    Some(m) => m,
                    None => Movies::default(),
                };
                match setting {
                    PathSetting::MoviesFile => {
                        section.file_path = Some(value);
                    },
                    _ => {
                        section.public_file_path = Some(value);
                    },
                }
                self.movies = Some(section);
            },
            PathSetting::SyncSaveFolder => {
                let mut section = match self.sync.take() {
                    Some(s) => s,
                    None => SyncCliCommand::default(),
                };
                section.save_folder_path = Some(value);
                self.sync = Some(section);
            },
            PathSetting::CargoPrograms
            | PathSetting::VscodeExtensions
            | PathSetting::NixPrograms => {
                let mut section = match self.sync.take() {
                    Some(s) => s,
                    None => SyncCliCommand::default(),
                };
                let mut programs = match section.programs.take() {
                    Some(p) => p,
                    None => ProgramsConfig::default(),
                };
                match setting {
                    PathSetting::CargoPrograms => {
                        programs.path_cargo_programs = Some(value);
                    },
                    PathSetting::VscodeExtensions => {
                        programs.path_vscode_extensions = Some(value);
                    },
                    _ => {
                        programs.path_nix = Some(value);
                    },
                }
                section.programs = Some(programs);
                self.sync = Some(section);
            },
            PathSetting::GhPulls | PathSetting::GhProjects | PathSetting::GhProjectsDisk => {
                let mut section = match self.gh.take() {
                    Some(g) => g,
                    None => Gh::default(),
                };
                match setting {
                    PathSetting::GhPulls => {
                        section.file_pulls = Some(value);
                    },
                    PathSetting::GhProjects => {
                        section.file_projects = Some(value);
                    },
                    _ => {
                        section.file_projects_disk = Some(value);
                    },
                }
                self.gh = Some(section);
            },
            PathSetting::MusicFile | PathSetting::MusicEnv => {
                let mut section = match self.music.take() {
                    Some(m) => m,
                    None => MusicCliCommand::default(),
                };
                match setting {
                    PathSetting::MusicFile => {
                        section.music_file = Some(value);
                    },
                    _ => {
                        section.env_path = Some(value);
                    },
                }
                self.music = Some(section);
            },
        }
    }
}

/// A stored value is the value that is then found.
pub proof fn lemma_store_then_lookup(
    setting: PathSetting,
    data: ConfigDataView,
    value: Seq<char>,
)
    ensures
        setting.lookup(setting.store(data, value)) == Some(value),
{
}

/// Storing one setting leaves the value of every other setting as it was.
pub proof fn lemma_store_keeps_other_settings(
    setting: PathSetting,
    other: PathSetting,
    data: ConfigDataView,
    value: Seq<char>,
)
    requires
        other != setting,
    ensures
        other.lookup(setting.store(data, value)) == other.lookup(data),
{
}

/// Storing a setting leaves every other section untouched: present or
/// absent as before, with the same fields. It never removes a file from the
/// list of files to mirror.
pub proof fn lemma_store_keeps_other_sections(
    setting: PathSetting,
    data: ConfigDataView,
    value: Seq<char>,
)
    ensures
        setting.section() != Section::Movies ==> setting.store(data, value).movies == data.movies,
        setting.section() != Section::Sync ==> setting.store(data, value).sync == data.sync,
        setting.section() != Section::Gh ==> setting.store(data, value).gh == data.gh,
        setting.section() != Section::Music ==> setting.store(data, value).music == data.music,
        sync_or_empty(setting.store(data, value)).file_paths == sync_or_empty(data).file_paths,
{
}

/// Storing the value that a setting already has changes nothing.
pub proof fn lemma_store_same_value(setting: PathSetting, data: ConfigDataView)
    requires
        setting.lookup(data) is Some,
    ensures
        setting.store(data, setting.lookup(data)->0) == data,
{
}

/// The configuration after a file has been added to the files to mirror:
/// the sync section exists, the file stands last in its list, and
/// everything else is as before.
pub open spec fn with_mirrored_file(data: ConfigDataView, path: Seq<char>) -> ConfigDataView {
    ConfigDataView {
        sync: Some(
            SyncView { file_paths: sync_or_empty(data).file_paths.push(path), ..sync_or_empty(data) },
        ),
        ..data
    }
}

/// What a path is asked for.
#[derive(Clone, Copy, PartialEq, Eq, Structural, Debug)]
pub enum PathRequest {
    /// To give a setting its value
    Setting(PathSetting),
    /// To add a file to the files to mirror
    FileToMirror,
}

impl PathRequest {
    /// The section that the request is about.
    pub open spec fn section(self) -> Section {
        match self {
            PathRequest::Setting(setting) => setting.section(),
            PathRequest::FileToMirror => Section::Sync,
        }
    }

    /// The line that asks the user for the path.
    pub open spec fn prompt(self) -> Seq<char> {
        match self {
            PathRequest::Setting(setting) => setting.prompt(),
            PathRequest::FileToMirror => "Please enter the path to the file to add:"@,
        }
    }

    /// The configuration after the path has been taken in.
    pub open spec fn apply(self, data: ConfigDataView, value: Seq<char>) -> ConfigDataView {
        match self {
            PathRequest::Setting(setting) => setting.store(data, value),
            PathRequest::FileToMirror => with_mirrored_file(data, value),
        }
    }

    /// The line that asks the user for the path.
    pub fn prompt_text(self) -> (r: String)
        ensures
            r@ == self.prompt(),
    {
        match self {
            PathRequest::Setting(setting) => setting.prompt_text(),
            PathRequest::FileToMirror => String::from_str(
                "Please enter the path to the file to add:",
            ),
        }
    }
}

impl ConfigData {
    /// Adds a file to the files to mirror, creating the sync section where
    /// it is absent and keeping everything else as it is.
    pub fn add_mirrored_file(&mut self, path: String)
        ensures
            final(self)@ == with_mirrored_file(old(self)@, path@),
    {
        let mut section = match self.sync.take() {
            Some(s) => s,
            None => SyncCliCommand::default(),
        };
        let ghost before = section.file_paths@;
        section.file_paths.push(path);
        assert(texts(section.file_paths@) =~= texts(before).push(path@));
        self.sync = Some(section);
    }

    /// Takes a path in for what it was asked for.
    pub fn accept(&mut self, request: PathRequest, value: String)
        ensures
            final(self)@ == request.apply(old(self)@, value@),
    {
        match request {
            PathRequest::Setting(setting) => self.set_path(setting, value),
            PathRequest::FileToMirror => self.add_mirrored_file(value),
        }
    }
}

/// The answer to the question whether a path is configured.
#[derive(Clone, Debug, PartialEq)]
pub enum Lookup {
    /// The path is configured: this is it.
    Found(String),
    /// The path is not configured: the user has to be asked.
    Missing(PathDialogue),
}

/// A dialogue that waits for a line from the user.
#[derive(Clone, Debug, PartialEq)]
pub struct PathDialogue {
    /// What the path is asked for
    pub request: PathRequest,
    /// Whether an earlier answer named a path that does not exist
    pub retry: bool,
}

/// What a line of input leads to.
#[derive(Clone, Debug, PartialEq)]
pub enum Answer {
    /// The user cancelled; the dialogue is over and nothing was changed.
    Cancelled(GeneralError),
    /// The user named a path; whether it exists has to be tested.
    Candidate(PathCandidate),
}

/// A dialogue that waits for the test whether the entered path exists.
#[derive(Clone, Debug, PartialEq)]
pub struct PathCandidate {
    /// What the path is asked for
    pub request: PathRequest,
    /// The path that the user entered
    pub path: String,
}

/// What the existence test leads to.
#[derive(Clone, Debug, PartialEq)]
pub enum Probe {
    /// The path does not exist: the user is asked again.
    Retry(PathDialogue),
    /// The path exists and is now part of the configuration, which has to be
    /// written to its file.
    Accepted(PendingSave),
}

/// A dialogue that waits for the configuration file to be written.
#[derive(Clone, Debug, PartialEq)]
pub struct PendingSave {
    /// The path that was stored
    pub path: String,
}

/// The error of a cancelled dialogue.
pub open spec fn no_path() -> GeneralErrorView {
    GeneralErrorView { message: "no path"@, source: None }
}

/// What looking a setting up has to give: the configured path, or the
/// dialogue that begins to ask for it.
pub open spec fn is_lookup(data: ConfigDataView, setting: PathSetting, r: Lookup) -> bool {
    match r {
        Lookup::Found(p) => setting.lookup(data) == Some(p@),
        Lookup::Missing(d) => setting.lookup(data) is None && d == (PathDialogue {
            request: PathRequest::Setting(setting),
            retry: false,
        }),
    }
}

/// Looks a required path up in the configuration.
///
/// A configured path is returned as it is; the configuration is only read.
/// Otherwise the result is the dialogue that asks the user for it.
pub fn resolve_required_path(config: &Config, setting: PathSetting) -> (r: Lookup)
    ensures
        is_lookup(config@.config_data, setting, r),
{
    match config.config_data.path(setting) {
        Some(p) => Lookup::Found(p.clone()),
        None => Lookup::Missing(
            PathDialogue { request: PathRequest::Setting(setting), retry: false },
        ),
    }
}

/// Looks up the path of the snapshot of a list of programs, which lies one
/// level deeper, in the programs record of the sync section; in every other
/// respect as [`resolve_required_path`].
pub fn resolve_required_nested_path(config: &Config, list: ProgramList) -> (r: Lookup)
    ensures
        is_lookup(config@.config_data, list.setting(), r),
{
    resolve_required_path(config, list.path_setting())
}

impl PathDialogue {
    /// The line to print before reading the answer.
    pub open spec fn prompt(self) -> Seq<char> {
        if self.retry {
            retry_prompt()
        } else {
            self.request.prompt()
        }
    }

    /// The line to print before reading the answer.
    pub fn prompt_text(&self) -> (r: String)
        ensures
            r@ == self.prompt(),
    {
        if self.retry {
            String::from_str("Path does not exist. Please enter a valid path:")
        } else {
            self.request.prompt_text()
        }
    }

    /// Takes the line that the user entered.
    ///
    /// A single backslash cancels: the result is the error `no path`. Any
    /// other line is the candidate path, unchanged.
    pub fn on_line(self, line: String) -> (r: Answer)
        ensures
            match r {
                Answer::Cancelled(e) => line@ == cancel_line() && e@ == no_path(),
                Answer::Candidate(c) => line@ != cancel_line() && c == (PathCandidate {
                    request: self.request,
                    path: line,
                }),
            },
    {
        proof {
            reveal_strlit("\\");
            assert("\\"@ =~= cancel_line());
        }
        if same_text(line.as_str(), "\\") {
            Answer::Cancelled(GeneralError::new("no path"))
        } else {
            Answer::Candidate(PathCandidate { request: self.request, path: line })
        }
    }
}

impl PathCandidate {
    /// Takes the answer to the question whether the candidate exists.
    ///
    /// An existing path is taken into the configuration; everything else in
    /// the configuration stays as it is. A path that does not exist changes
    /// nothing and the user is asked again.
    pub fn on_probe(self, config: &mut Config, exists: bool) -> (r: Probe)
        ensures
            match r {
                Probe::Accepted(s) => {
                    &&& exists
                    &&& s.path@ == self.path@
                    &&& final(config)@ == (ConfigView {
                        config_data: self.request.apply(old(config)@.config_data, self.path@),
                        ..old(config)@
                    })
                },
                Probe::Retry(d) => {
                    &&& !exists
                    &&& *final(config) == *old(config)
                    &&& d == (PathDialogue { request: self.request, retry: true })
                },
            },
    {
        if exists {
            let stored = self.path.clone();
            config.config_data.accept(self.request, stored);
            Probe::Accepted(PendingSave { path: self.path })
        } else {
            Probe::Retry(PathDialogue { request: self.request, retry: true })
        }
    }
}

impl PendingSave {
    /// Takes the outcome of writing the configuration file: the stored path
    /// where the file was written, the failure where it was not.
    pub fn finish(self, written: Result<(), GeneralError>) -> (r: Result<String, GeneralError>)
        ensures
            match written {
                Ok(_) => r == Ok::<String, GeneralError>(self.path),
                Err(e) => r == Err::<String, GeneralError>(e),
            },
    {
        match written {
            Ok(_) => Ok(self.path),
            Err(e) => Err(e),
        }
    }
}

/// One answer of the user: the line that was entered, and whether it names
/// a path that exists.
#[derive(Clone, Debug, PartialEq)]
pub struct Reply {
    /// The line that was entered
    pub line: String,
    /// Whether the line names a path that exists
    pub exists: bool,
}

/// What a [`Reply`] holds.
pub struct ReplyView {
    pub line: Seq<char>,
    pub exists: bool,
}

impl View for Reply {
    type V = ReplyView;

    open spec fn view(&self) -> ReplyView {
        ReplyView { line: self.line@, exists: self.exists }
    }
}

/// The answers of a list, in order.
pub open spec fn reply_views(replies: Seq<Reply>) -> Seq<ReplyView> {
    Seq::new(replies.len(), |i: int| replies[i]@)
}

/// How a dialogue ends.
pub enum DialogueEnd {
    /// With this path, which is taken into the configuration
    Stored(Seq<char>),
    /// With the cancellation by the user
    Cancelled,
    /// Not yet: every answer named a path that does not exist
    Unanswered,
}

/// How a dialogue ends for the answers of the user, taken one after the
/// other: the line that cancels ends it at once; a path that exists ends
/// it and is stored; a path that does not exist is passed over.
pub open spec fn dialogue_end(replies: Seq<ReplyView>) -> DialogueEnd
    decreases replies.len(),
{
    if replies.len() == 0 {
        DialogueEnd::Unanswered
    } else if replies[0].line == cancel_line() {
        DialogueEnd::Cancelled
    } else if replies[0].exists {
        DialogueEnd::Stored(replies[0].line)
    } else {
        dialogue_end(replies.drop_first())
    }
}

/// Where a dialogue stands once the known answers are used up.
#[derive(Clone, Debug, PartialEq)]
pub enum Run {
    /// A path was taken into the configuration, which is to be written
    Stored(PendingSave),
    /// The user cancelled
    Cancelled(GeneralError),
    /// The dialogue goes on: the user is to be asked
    Unanswered(PathDialogue),
}

impl PathDialogue {
    /// Walks through the dialogue with answers that are known beforehand.
    ///
    /// The configuration changes only where a path is stored, and then only
    /// by that path.
    pub fn run(self, config: &mut Config, replies: &Vec<Reply>) -> (r: Run)
        ensures
            match dialogue_end(reply_views(replies@)) {
                DialogueEnd::Stored(path) => {
                    &&& r matches Run::Stored(s)
                    &&& s.path@ == path
                    &&& final(config)@ == (ConfigView {
                        config_data: self.request.apply(old(config)@.config_data, path),
                        ..old(config)@
                    })
                },
                DialogueEnd::Cancelled => {
                    &&& r matches Run::Cancelled(e)
                    &&& e@ == no_path()
                    &&& *final(config) == *old(config)
                },
                DialogueEnd::Unanswered => {
                    &&& r matches Run::Unanswered(d)
                    &&& d == (PathDialogue {
                        request: self.request,
                        retry: self.retry || replies.len() > 0,
                    })
                    &&& *final(config) == *old(config)
                },
            },
    {
        let ghost all = reply_views(replies@);
        let request = self.request;
        let mut dialogue = self;
        let mut i: usize = 0;
        assert(all.skip(0) =~= all);
        while i < replies.len()
            invariant
                i <= replies.len(),
                all == reply_views(replies@),
                *config == *old(config),
                dialogue == (PathDialogue { request, retry: self.retry || i > 0 }),
                request == self.request,
                dialogue_end(all) == dialogue_end(all.skip(i as int)),
            decreases replies.len() - i,
        {
            let ghost rest = all.skip(i as int);
            assert(rest[0] == replies[i as int]@);
            assert(rest.drop_first() =~= all.skip(i + 1));
            match dialogue.on_line(replies[i].line.clone()) {
                Answer::Cancelled(e) => {
                    return Run::Cancelled(e);
                },
                Answer::Candidate(candidate) => match candidate.on_probe(config, replies[i].exists) {
                    Probe::Accepted(pending) => {
                        return Run::Stored(pending);
                    },
                    Probe::Retry(next) => {
                        dialogue = next;
                    },
                },
            }
            i += 1;
        }
        Run::Unanswered(dialogue)
    }
}

/// The line that cancels ends every dialogue in which no path that exists
/// was entered before it: with the cancellation, whatever follows.
pub proof fn lemma_cancel_ends_dialogue(replies: Seq<ReplyView>, k: int)
    requires
        0 <= k < replies.len(),
        replies[k].line == cancel_line(),
        forall|j: int| 0 <= j < k ==> !(#[trigger] replies[j]).exists,
    ensures
        dialogue_end(replies) == DialogueEnd::Cancelled,
    decreases k,
{
    if k > 0 && replies[0].line != cancel_line() {
        assert(!replies[0].exists);
        let rest = replies.drop_first();
        assert forall|j: int| 0 <= j < k - 1 implies !(#[trigger] rest[j]).exists by {
            assert(rest[j] == replies[j + 1]);
        }
        lemma_cancel_ends_dialogue(rest, k - 1);
    }
}

/// The path that is accepted is the first one entered that exists: the
/// paths entered before it, which do not exist, are passed over, and what
/// is entered after it is never looked at.
pub proof fn lemma_first_existing_path_is_stored(replies: Seq<ReplyView>, k: int)
    requires
        0 <= k < replies.len(),
        replies[k].exists,
        forall|j: int| 0 <= j <= k ==> (#[trigger] replies[j]).line != cancel_line(),
        forall|j: int| 0 <= j < k ==> !(#[trigger] replies[j]).exists,
    ensures
        dialogue_end(replies) == DialogueEnd::Stored(replies[k].line),
    decreases k,
{
    if k > 0 {
        assert(!replies[0].exists);
        assert(replies[0].line != cancel_line());
        let rest = replies.drop_first();
        assert forall|j: int| 0 <= j <= k - 1 implies (#[trigger] rest[j]).line
            != cancel_line() by {
            assert(rest[j] == replies[j + 1]);
        }
        assert forall|j: int| 0 <= j < k - 1 implies !(#[trigger] rest[j]).exists by {
            assert(rest[j] == replies[j + 1]);
        }
        lemma_first_existing_path_is_stored(rest, k - 1);
    }
}

/// A path that does not exist is never stored.
pub proof fn lemma_stored_path_exists(replies: Seq<ReplyView>)
    requires
        dialogue_end(replies) is Stored,
    ensures
        exists|k: int|
            0 <= k < replies.len() && (#[trigger] replies[k]).exists && replies[k].line
                == dialogue_end(replies)->Stored_0,
    decreases replies.len(),
{
    if replies[0].line != cancel_line() && !replies[0].exists {
        let rest = replies.drop_first();
        lemma_stored_path_exists(rest);
        let k = choose|k: int|
            0 <= k < rest.len() && (#[trigger] rest[k]).exists && rest[k].line == dialogue_end(
                rest,
            )->Stored_0;
        assert(replies[k + 1] == rest[k]);
    } else {
        assert(replies[0].exists);
    }
}

/// Taking a path in for one request leaves every section that the request
/// is not about untouched.
pub proof fn lemma_apply_keeps_other_sections(
    request: PathRequest,
    data: ConfigDataView,
    value: Seq<char>,
)
    ensures
        request.section() != Section::Movies ==> request.apply(data, value).movies == data.movies,
        request.section() != Section::Sync ==> request.apply(data, value).sync == data.sync,
        request.section() != Section::Gh ==> request.apply(data, value).gh == data.gh,
        request.section() != Section::Music ==> request.apply(data, value).music == data.music,
{
}

} // verus!
