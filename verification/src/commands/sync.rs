//! Mirroring of settings files and snapshots of installed programs.

use vstd::prelude::*;
use vstd::string::*;

use crate::config::{Config, ConfigView};
use crate::errors::{GeneralError, GeneralErrorView};
use crate::location::{home_dir, join_path, joined_path, strip_path_prefix, stripped_path};
use crate::paths::{
    sync_or_empty, with_mirrored_file, PathDialogue, PathRequest, PathSetting,
};
use crate::text::{decimal, decimal_string, opt_text, texts};

verus! {

/// Programs configuration
#[derive(Clone, Debug, PartialEq)]
pub struct ProgramsConfig {
    /// Path to the cargo programs
    pub path_cargo_programs: Option<String>,
    /// Path to the vscode extensions
    pub path_vscode_extensions: Option<String>,
    /// Path to the nix programs
    pub path_nix: Option<String>,
}

/// What a [`ProgramsConfig`] record holds.
pub struct ProgramsView {
    pub path_cargo_programs: Option<Seq<char>>,
    pub path_vscode_extensions: Option<Seq<char>>,
    pub path_nix: Option<Seq<char>>,
}

impl View for ProgramsConfig {
    type V = ProgramsView;

    open spec fn view(&self) -> ProgramsView {
        ProgramsView {
            path_cargo_programs: opt_text(self.path_cargo_programs),
            path_vscode_extensions: opt_text(self.path_vscode_extensions),
            path_nix: opt_text(self.path_nix),
        }
    }
}

impl ProgramsView {
    /// The record with nothing set.
    pub open spec fn empty() -> ProgramsView {
        ProgramsView { path_cargo_programs: None, path_vscode_extensions: None, path_nix: None }
    }
}

impl Default for ProgramsConfig {
    fn default() -> (r: ProgramsConfig)
        ensures
            r@ == ProgramsView::empty(),
    {
        ProgramsConfig { path_cargo_programs: None, path_vscode_extensions: None, path_nix: None }
    }
}

/// Sync configuration
#[derive(Clone, Debug, PartialEq)]
pub struct SyncCliCommand {
    /// Paths of the files to mirror
    pub file_paths: Vec<String>,
    /// Path to the folder where to save the files
    pub save_folder_path: Option<String>,
    /// Programs configuration
    pub programs: Option<ProgramsConfig>,
}

/// What a [`SyncCliCommand`] section holds.
pub struct SyncView {
    pub file_paths: Seq<Seq<char>>,
    pub save_folder_path: Option<Seq<char>>,
    pub programs: Option<ProgramsView>,
}

impl View for SyncCliCommand {
    type V = SyncView;

    open spec fn view(&self) -> SyncView {
        SyncView {
            file_paths: texts(self.file_paths@),
            save_folder_path: opt_text(self.save_folder_path),
            programs: match self.programs {
                Some(p) => Some(p@),
                None => None,
            },
        }
    }
}

impl SyncView {
    /// The section with nothing set and no file to mirror.
    pub open spec fn empty() -> SyncView {
        SyncView { file_paths: Seq::empty(), save_folder_path: None, programs: None }
    }
}

impl Default for SyncCliCommand {
    fn default() -> (r: SyncCliCommand)
        ensures
            r@ == SyncView::empty(),
    {
        let r = SyncCliCommand { file_paths: Vec::new(), save_folder_path: None, programs: None };
        assert(r@.file_paths =~= Seq::empty());
        r
    }
}

/// A list of installed programs that is kept as a snapshot.
#[derive(Clone, Copy, PartialEq, Eq, Structural, Debug)]
pub enum ProgramList {
    /// The programs installed with cargo
    Cargo,
    /// The programs installed with nix
    Nix,
    /// The extensions of the editor
    Vscode,
}

impl ProgramList {
    /// The setting that holds the path of the snapshot.
    pub open spec fn setting(self) -> PathSetting {
        match self {
            ProgramList::Cargo => PathSetting::CargoPrograms,
            ProgramList::Nix => PathSetting::NixPrograms,
            ProgramList::Vscode => PathSetting::VscodeExtensions,
        }
    }

    /// The shell command whose output is the snapshot.
    pub open spec fn command(self) -> Seq<char> {
        match self {
            ProgramList::Cargo => "cargo install --list | grep -v ':$' | sed 's/^ *//'"@,
            ProgramList::Nix => "nix-env --query | cut -d'-' -f 1"@,
            ProgramList::Vscode => "code --list-extensions"@,
        }
    }

    /// What the messages call the list.
    pub open spec fn title(self) -> Seq<char> {
        match self {
            ProgramList::Cargo => "cargo programs"@,
            ProgramList::Nix => "nix programs"@,
            ProgramList::Vscode => "vscode extensions"@,
        }
    }

    /// The question put where the record of snapshots exists but holds no
    /// path for the list.
    pub open spec fn question(self) -> Seq<char> {
        "No "@ + self.title() + " path found, do you want to add one? (y/n)"@
    }

    /// The line that reports where the snapshot was written.
    pub open spec fn saved(self, path: Seq<char>) -> Seq<char> {
        "Saved "@ + self.title() + " to "@ + path
    }

    /// The setting that holds the path of the snapshot.
    pub fn path_setting(self) -> (r: PathSetting)
        ensures
            r == self.setting(),
            r.is_nested(),
            r.section() == crate::paths::Section::Sync,
    {
        match self {
            ProgramList::Cargo => PathSetting::CargoPrograms,
            ProgramList::Nix => PathSetting::NixPrograms,
            ProgramList::Vscode => PathSetting::VscodeExtensions,
        }
    }

    /// The shell command whose output is the snapshot.
    pub fn command_text(self) -> (r: &'static str)
        ensures
            r@ == self.command(),
    {
        match self {
            ProgramList::Cargo => "cargo install --list | grep -v ':$' | sed 's/^ *//'",
            ProgramList::Nix => "nix-env --query | cut -d'-' -f 1",
            ProgramList::Vscode => "code --list-extensions",
        }
    }

    /// What the messages call the list.
    pub fn title_text(self) -> (r: &'static str)
        ensures
            r@ == self.title(),
    {
        match self {
            ProgramList::Cargo => "cargo programs",
            ProgramList::Nix => "nix programs",
            ProgramList::Vscode => "vscode extensions",
        }
    }

    /// The question put where the record of snapshots exists but holds no
    /// path for the list.
    pub fn question_text(self) -> (r: String)
        ensures
            r@ == self.question(),
    {
        let mut out = String::from_str("No ");
        out.append(self.title_text());
        out.append(" path found, do you want to add one? (y/n)");
        out
    }

    /// The line that reports where the snapshot was written.
    pub fn saved_text(self, path: &str) -> (r: String)
        ensures
            r@ == self.saved(path@),
    {
        let mut out = String::from_str("Saved ");
        out.append(self.title_text());
        out.append(" to ");
        out.append(path);
        out
    }
}

/// How the snapshot of a list of programs begins.
#[derive(Clone, Copy, PartialEq, Eq, Structural, Debug)]
pub enum ProgramsStep {
    /// Nothing is done: the run takes no input from the user.
    Skip,
    /// The user is asked whether a path is to be added; the snapshot is
    /// taken only after a yes.
    Ask,
    /// The path of the snapshot is looked up, and asked for where it is not
    /// configured.
    Resolve,
}

/// How the snapshot of a list begins for a given configuration: not at all
/// where the run takes no input; with a question where the record of
/// snapshots exists without a path for the list; with the path otherwise.
pub open spec fn programs_step(config: ConfigView, list: ProgramList) -> ProgramsStep {
    if !config.use_input {
        ProgramsStep::Skip
    } else if sync_or_empty(config.config_data).programs is Some && list.setting().lookup(
        config.config_data,
    ) is None {
        ProgramsStep::Ask
    } else {
        ProgramsStep::Resolve
    }
}

/// One job of a synchronisation.
#[derive(Clone, Copy, PartialEq, Eq, Structural, Debug)]
pub enum SyncJob {
    /// Write the public summary of the movies, or print it
    Movies { print_json: bool },
    /// Mirror the settings files
    SaveFiles,
    /// Take the snapshots of the installed programs
    Programs,
    /// Mirror the pull requests and projects
    Github,
    /// Export the music library
    Music,
    /// Ask for a file and add it to the files to mirror
    AddFile,
}

/// One step of the plan of a synchronisation.
#[derive(Clone, Copy, PartialEq, Eq, Structural, Debug)]
pub enum SyncStep {
    /// Print this line
    Say(SyncLine),
    /// Run this job
    Run(SyncJob),
}

/// A line that a synchronisation prints between its jobs.
#[derive(Clone, Copy, PartialEq, Eq, Structural, Debug)]
pub enum SyncLine {
    /// `Syncing all`
    SyncingAll,
    /// An empty line
    Blank,
}

/// The jobs of the synchronisation of everything, for a given
/// configuration: each job whose section is present, in the order movies,
/// settings files, programs, GitHub. An empty line follows each of the first
/// three. The announcement comes first where the debug level is above one.
pub open spec fn sync_all_plan(config: ConfigView) -> Seq<SyncStep> {
    (if config.debug > 1 {
        seq![SyncStep::Say(SyncLine::SyncingAll)]
    } else {
        Seq::empty()
    }) + (if config.config_data.movies is Some {
        seq![SyncStep::Run(SyncJob::Movies { print_json: false }), SyncStep::Say(SyncLine::Blank)]
    } else {
        Seq::empty()
    }) + (if config.config_data.sync is Some {
        seq![
            SyncStep::Run(SyncJob::SaveFiles),
            SyncStep::Say(SyncLine::Blank),
            SyncStep::Run(SyncJob::Programs),
            SyncStep::Say(SyncLine::Blank),
        ]
    } else {
        Seq::empty()
    }) + (if config.config_data.gh is Some {
        seq![SyncStep::Run(SyncJob::Github)]
    } else {
        Seq::empty()
    })
}

/// settings subcommand
#[derive(Clone, Copy, PartialEq, Eq, Structural, Debug)]
pub struct SettingsCommand {
    /// settings subcommand
    pub action: SettingsAction,
}

/// What to do with the settings files
#[derive(Clone, Copy, PartialEq, Eq, Structural, Debug)]
pub enum SettingsAction {
    /// add a file to save
    Add,
    /// add all files to save
    All,
}

/// Sync sub command
#[derive(Clone, Copy, PartialEq, Eq, Structural, Debug)]
pub enum SyncSubcommand {
    /// save settings
    Settings(SettingsCommand),
    /// sync movies
    Movies {
        /// print as json
        print_json: bool,
    },
    /// sync programs
    Programs,
    /// sync music
    Music,
    /// sync all
    All,
}

impl SyncSubcommand {
    /// The plan of the sub command for a given configuration.
    pub open spec fn plan(self, config: ConfigView) -> Seq<SyncStep> {
        match self {
            SyncSubcommand::All => sync_all_plan(config),
            SyncSubcommand::Music => seq![SyncStep::Run(SyncJob::Music)],
            SyncSubcommand::Movies { print_json } => seq![
                SyncStep::Run(SyncJob::Movies { print_json }),
            ],
            SyncSubcommand::Programs => seq![SyncStep::Run(SyncJob::Programs)],
            SyncSubcommand::Settings(settings) => match settings.action {
                SettingsAction::Add => seq![SyncStep::Run(SyncJob::AddFile)],
                SettingsAction::All => seq![SyncStep::Run(SyncJob::SaveFiles)],
            },
        }
    }

    /// invoke subcommand: the steps to take, in order. The synchronisation
    /// of everything takes no input from the user from then on; nothing else
    /// of the configuration changes.
    pub fn invoke(self, config: &mut Config) -> (steps: Vec<SyncStep>)
        ensures
            steps@ == self.plan(old(config)@),
            final(config)@ == (ConfigView {
                use_input: old(config).use_input && self != SyncSubcommand::All,
                ..old(config)@
            }),
    {
        match self {
            SyncSubcommand::All => SyncCliCommand::sync_all(config),
            SyncSubcommand::Music => {
                let mut steps = Vec::new();
                steps.push(SyncStep::Run(SyncJob::Music));
                steps
            },
            SyncSubcommand::Movies { print_json } => {
                let mut steps = Vec::new();
                steps.push(SyncStep::Run(SyncJob::Movies { print_json }));
                steps
            },
            SyncSubcommand::Programs => {
                let mut steps = Vec::new();
                steps.push(SyncStep::Run(SyncJob::Programs));
                steps
            },
            SyncSubcommand::Settings(settings) => {
                let mut steps = Vec::new();
                match settings.action {
                    SettingsAction::Add => {
                        steps.push(SyncStep::Run(SyncJob::AddFile));
                    },
                    SettingsAction::All => {
                        steps.push(SyncStep::Run(SyncJob::SaveFiles));
                    },
                }
                steps
            },
        }
    }
}

/// The copy of one file into the mirror.
#[derive(Clone, Debug, PartialEq)]
pub struct CopyJob {
    /// The file to read
    pub input_path: String,
    /// The file to write; its directory is created where it does not exist
    pub save_path: String,
}

/// What a [`CopyJob`] holds.
pub struct CopyJobView {
    pub input_path: Seq<char>,
    pub save_path: Seq<char>,
}

impl View for CopyJob {
    type V = CopyJobView;

    open spec fn view(&self) -> CopyJobView {
        CopyJobView { input_path: self.input_path@, save_path: self.save_path@ }
    }
}

/// The name under which a file is mirrored: what is left of its path once
/// the home directory is taken off it, or the whole path where it does not
/// lie below the home directory.
pub open spec fn mirrored(file: Seq<char>, home: Seq<char>) -> Seq<char> {
    match stripped_path(file, home) {
        Some(rest) => rest,
        None => file,
    }
}

/// The copy of a file into the mirror: the file is read under its mirrored
/// name below the home directory and written under that name below the
/// folder.
pub open spec fn copy_of(file: Seq<char>, home: Seq<char>, folder: Seq<char>) -> CopyJobView {
    CopyJobView {
        input_path: joined_path(home, mirrored(file, home)),
        save_path: joined_path(folder, mirrored(file, home)),
    }
}

/// Whether a copy keeps to the mirror: the file to write lies below the
/// folder, and the file to read does not.
pub open spec fn keeps_to_mirror(job: CopyJobView, folder: Seq<char>) -> bool {
    stripped_path(job.save_path, folder) is Some && stripped_path(job.input_path, folder) is None
}

/// The error for a file whose copy would not lie in the folder.
pub open spec fn copy_outside(file: Seq<char>, folder: Seq<char>) -> GeneralErrorView {
    GeneralErrorView {
        message: "Cannot save '"@ + file + "': its copy would not lie in '"@ + folder + "'"@,
        source: None,
    }
}

/// The error for a file that lies in the folder of the mirror itself.
pub open spec fn source_inside(file: Seq<char>, folder: Seq<char>) -> GeneralErrorView {
    GeneralErrorView {
        message: "Cannot save '"@ + file + "': it lies in '"@ + folder + "' itself"@,
        source: None,
    }
}

/// Why a file is not mirrored, if it is not: its copy does not keep to the
/// mirror.
pub open spec fn mirror_refusal(file: Seq<char>, home: Seq<char>, folder: Seq<char>) -> Option<
    GeneralErrorView,
> {
    let job = copy_of(file, home, folder);
    if stripped_path(job.save_path, folder) is None {
        Some(copy_outside(file, folder))
    } else if stripped_path(job.input_path, folder) is Some {
        Some(source_inside(file, folder))
    } else {
        None
    }
}

/// The line that announces the mirroring of files.
pub open spec fn saving_files(count: nat, folder: Seq<char>) -> Seq<char> {
    "Saving "@ + decimal(count) + " files to '"@ + folder + "'"@
}

/// The line that reports the copy of one file.
pub open spec fn copy_line(job: CopyJobView) -> Seq<char> {
    "- '"@ + job.input_path + "' to '"@ + job.save_path + "'"@
}

/// The error for a home directory that is not known.
pub open spec fn no_home() -> GeneralErrorView {
    GeneralErrorView { message: "Cannot find home directory"@, source: None }
}

/// The error for a home directory whose path is not valid Unicode.
pub open spec fn home_not_text() -> GeneralErrorView {
    GeneralErrorView { message: "Cannot convert home directory to string"@, source: None }
}

impl SyncCliCommand {
    /// The home path for a given answer to the question of the home
    /// directory.
    pub fn checked_home_path(home: Option<Option<String>>) -> (r: Result<String, GeneralError>)
        ensures
            match home {
                None => r matches Err(e) && e@ == no_home(),
                Some(None) => r matches Err(e) && e@ == home_not_text(),
                Some(Some(path)) => r == Ok::<String, GeneralError>(path),
            },
    {
        match home {
            None => Err(GeneralError::new("Cannot find home directory")),
            Some(None) => Err(GeneralError::new("Cannot convert home directory to string")),
            Some(Some(path)) => Ok(path),
        }
    }

    /// Get the home path
    pub fn get_home_path() -> (r: Result<String, GeneralError>)
        ensures
            r matches Err(e) ==> e@ == no_home() || e@ == home_not_text(),
    {
        SyncCliCommand::checked_home_path(home_dir())
    }

    /// The files to mirror: those of the sync section, none where the
    /// section is absent.
    pub fn files_to_save(config: &Config) -> (files: &[String])
        ensures
            texts(files@) == sync_or_empty(config@.config_data).file_paths,
    {
        match &config.config_data.sync {
            Some(settings) => {
                let files = settings.file_paths.as_slice();
                assert(texts(files@) =~= sync_or_empty(config@.config_data).file_paths);
                files
            },
            None => {
                let files: &[String] = &[];
                assert(texts(files@) =~= sync_or_empty(config@.config_data).file_paths);
                files
            },
        }
    }

    /// The line that announces the mirroring of files.
    pub fn saving_files_text(count: usize, folder: &str) -> (r: String)
        ensures
            r@ == saving_files(count as nat, folder@),
    {
        let mut out = String::from_str("Saving ");
        let number = decimal_string(count as u64);
        out.append(number.as_str());
        out.append(" files to '");
        out.append(folder);
        out.append("'");
        out
    }

    /// The line that reports the copy of one file.
    pub fn copy_line_text(job: &CopyJob) -> (r: String)
        ensures
            r@ == copy_line(job@),
    {
        let mut out = String::from_str("- '");
        out.append(job.input_path.as_str());
        out.append("' to '");
        out.append(job.save_path.as_str());
        out.append("'");
        out
    }

    /// The name under which a file is mirrored, given what is left of its
    /// path once the home directory is taken off it: that rest, or the
    /// whole path where there is none.
    pub fn mirrored_name(file: &String, stripped: Option<String>) -> (name: String)
        ensures
            match stripped {
                Some(rest) => name == rest,
                None => name == *file,
            },
    {
        match stripped {
            Some(rest) => rest,
            None => file.clone(),
        }
    }

    /// The copy of one file into the mirror, where the copy keeps to the
    /// mirror; the error for a copy that would not lie in the folder, or
    /// for a file that lies in the folder itself, where it does not.
    pub fn checked_copy(file: &String, home: &str, folder: &str) -> (r: Result<
        CopyJob,
        GeneralError,
    >)
        ensures
            match mirror_refusal(file@, home@, folder@) {
                Some(refusal) => r matches Err(e) && e@ == refusal,
                None => r matches Ok(job) && job@ == copy_of(file@, home@, folder@),
            },
    {
        let stripped = strip_path_prefix(file.as_str(), home);
        let relative = SyncCliCommand::mirrored_name(file, stripped);
        let job = CopyJob {
            input_path: join_path(home, relative.as_str()),
            save_path: join_path(folder, relative.as_str()),
        };
        if strip_path_prefix(job.save_path.as_str(), folder).is_none() {
            let mut message = String::from_str("Cannot save '");
            message.append(file.as_str());
            message.append("': its copy would not lie in '");
            message.append(folder);
            message.append("'");
            return Err(GeneralError::from(message));
        }
        if strip_path_prefix(job.input_path.as_str(), folder).is_some() {
            let mut message = String::from_str("Cannot save '");
            message.append(file.as_str());
            message.append("': it lies in '");
            message.append(folder);
            message.append("' itself");
            return Err(GeneralError::from(message));
        }
        Ok(job)
    }

    /// Save the files to the specified folder: the copies to make, one for
    /// each file, in the order of the list. A file below the home directory
    /// keeps its place below the folder; any other path is taken from the
    /// home directory. Every copy is written below the folder and none is
    /// read from there, so no copy overwrites a file that is mirrored: where
    /// one would, nothing is to be copied, and the result is the error for
    /// the first such file.
    pub fn save_files(files: &[String], home: &str, folder: &str) -> (r: Result<
        Vec<CopyJob>,
        GeneralError,
    >)
        ensures
            match r {
                Ok(jobs) => {
                    &&& jobs.len() == files.len()
                    &&& forall|i: int|
                        0 <= i < jobs.len() ==> (#[trigger] jobs[i])@ == copy_of(
                            files[i]@,
                            home@,
                            folder@,
                        ) && keeps_to_mirror(jobs[i]@, folder@)
                    &&& forall|i: int, j: int|
                        0 <= i < jobs.len() && 0 <= j < jobs.len() ==> (#[trigger] jobs[i])@.save_path
                            != (#[trigger] jobs[j])@.input_path
                },
                Err(e) => exists|i: int|
                    {
                        &&& 0 <= i < files.len()
                        &&& #[trigger] mirror_refusal(files[i]@, home@, folder@) == Some(e@)
                        &&& forall|k: int|
                            0 <= k < i ==> (#[trigger] mirror_refusal(files[k]@, home@, folder@))
                                is None
                    },
            },
    {
        let mut jobs: Vec<CopyJob> = Vec::new();
        let mut i: usize = 0;
        while i < files.len()
            invariant
                i <= files.len(),
                jobs.len() == i,
                forall|k: int|
                    0 <= k < i ==> (#[trigger] jobs[k])@ == copy_of(files[k]@, home@, folder@)
                        && keeps_to_mirror(jobs[k]@, folder@),
                forall|k: int|
                    0 <= k < i ==> (#[trigger] mirror_refusal(files[k]@, home@, folder@)) is None,
            decreases files.len() - i,
        {
            match SyncCliCommand::checked_copy(&files[i], home, folder) {
                Ok(job) => {
                    jobs.push(job);
                },
                Err(e) => {
                    assert(mirror_refusal(files[i as int]@, home@, folder@) == Some(e@));
                    return Err(e);
                },
            }
            i += 1;
        }
        proof {
            assert forall|a: int, b: int| 0 <= a < jobs.len() && 0 <= b < jobs.len() implies (
            #[trigger] jobs[a])@.save_path != (#[trigger] jobs[b])@.input_path by {
                assert(keeps_to_mirror(jobs[a]@, folder@));
                assert(keeps_to_mirror(jobs[b]@, folder@));
            }
        }
        Ok(jobs)
    }

    /// Add a file to the list of files to save: the sync section is created
    /// where it is absent, and everything else stays as it is.
    pub fn add_file(config: &mut Config, path: String)
        ensures
            final(config)@ == (ConfigView {
                config_data: with_mirrored_file(old(config)@.config_data, path@),
                ..old(config)@
            }),
    {
        config.config_data.add_mirrored_file(path);
    }

    /// The dialogue that asks for a file to add to the files to mirror.
    pub fn add_file_dialogue() -> (d: PathDialogue)
        ensures
            d == (PathDialogue { request: PathRequest::FileToMirror, retry: false }),
    {
        PathDialogue { request: PathRequest::FileToMirror, retry: false }
    }

    /// How the snapshot of a list of programs begins.
    pub fn sync_programs_step(config: &Config, list: ProgramList) -> (r: ProgramsStep)
        ensures
            r == programs_step(config@, list),
    {
        if !config.use_input {
            return ProgramsStep::Skip;
        }
        let has_record = match &config.config_data.sync {
            Some(sync) => sync.programs.is_some(),
            None => false,
        };
        if has_record && config.config_data.path(list.path_setting()).is_none() {
            ProgramsStep::Ask
        } else {
            ProgramsStep::Resolve
        }
    }

    /// Sync the programs: the lists to take a snapshot of, in order.
    pub fn sync_programs() -> (lists: Vec<ProgramList>)
        ensures
            lists@ == seq![ProgramList::Cargo, ProgramList::Nix, ProgramList::Vscode],
    {
        let mut lists = Vec::new();
        lists.push(ProgramList::Cargo);
        lists.push(ProgramList::Nix);
        lists.push(ProgramList::Vscode);
        lists
    }

    /// Sync all: the steps to take, in order. From then on the run takes no
    /// input from the user.
    pub fn sync_all(config: &mut Config) -> (steps: Vec<SyncStep>)
        ensures
            steps@ == sync_all_plan(old(config)@),
            final(config)@ == (ConfigView { use_input: false, ..old(config)@ }),
    {
        config.use_input = false;
        let mut steps: Vec<SyncStep> = Vec::new();
        if config.debug > 1 {
            steps.push(SyncStep::Say(SyncLine::SyncingAll));
        }
        if config.config_data.movies.is_some() {
            steps.push(SyncStep::Run(SyncJob::Movies { print_json: false }));
            steps.push(SyncStep::Say(SyncLine::Blank));
        }
        if config.config_data.sync.is_some() {
            steps.push(SyncStep::Run(SyncJob::SaveFiles));
            steps.push(SyncStep::Say(SyncLine::Blank));
            steps.push(SyncStep::Run(SyncJob::Programs));
            steps.push(SyncStep::Say(SyncLine::Blank));
        }
        if config.config_data.gh.is_some() {
            steps.push(SyncStep::Run(SyncJob::Github));
        }
        assert(steps@ =~= sync_all_plan(old(config)@));
        steps
    }
}

} // verus!
