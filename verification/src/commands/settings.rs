//! A plain list of settings files and the folder that mirrors them.

use vstd::prelude::*;

use crate::commands::sync::{copy_of, keeps_to_mirror, mirror_refusal, CopyJob, SyncCliCommand};
use crate::errors::GeneralError;
use crate::text::{opt_text, texts};

verus! {

/// Settings configuration
#[derive(Clone, Debug, PartialEq)]
pub struct Settings {
    /// Paths of the files to mirror
    pub file_paths: Vec<String>,
    /// Path to the folder where to save the files
    pub save_folder_path: Option<String>,
}

/// What a [`Settings`] record holds.
pub struct SettingsView {
    pub file_paths: Seq<Seq<char>>,
    pub save_folder_path: Option<Seq<char>>,
}

impl View for Settings {
    type V = SettingsView;

    open spec fn view(&self) -> SettingsView {
        SettingsView {
            file_paths: texts(self.file_paths@),
            save_folder_path: opt_text(self.save_folder_path),
        }
    }
}

impl Default for Settings {
    fn default() -> (r: Settings)
        ensures
            r@ == (SettingsView { file_paths: Seq::empty(), save_folder_path: None }),
    {
        let r = Settings { file_paths: Vec::new(), save_folder_path: None };
        assert(r@.file_paths =~= Seq::empty());
        r
    }
}

impl Settings {
    /// Save the files to the specified folder: the copies to make, one for
    /// each file of the list, in order, or the error for the first file
    /// whose copy would not keep to the mirror.
    pub fn save_files(&self, home: &str, folder: &str) -> (r: Result<Vec<CopyJob>, GeneralError>)
        ensures
            match r {
                Ok(jobs) => {
                    &&& jobs.len() == self.file_paths.len()
                    &&& forall|i: int|
                        0 <= i < jobs.len() ==> (#[trigger] jobs[i])@ == copy_of(
                            self.file_paths[i]@,
                            home@,
                            folder@,
                        ) && keeps_to_mirror(jobs[i]@, folder@)
                    &&& forall|i: int, j: int|
                        0 <= i < jobs.len() && 0 <= j < jobs.len() ==> (#[trigger] jobs[i])@.save_path
                            != (#[trigger] jobs[j])@.input_path
                },
                Err(e) => exists|i: int|
                    {
                        &&& 0 <= i < self.file_paths.len()
                        &&& #[trigger] mirror_refusal(self.file_paths[i]@, home@, folder@) == Some(
                            e@,
                        )
                        &&& forall|k: int|
                            0 <= k < i ==> (#[trigger] mirror_refusal(
                                self.file_paths[k]@,
                                home@,
                                folder@,
                            )) is None
                    },
            },
    {
        SyncCliCommand::save_files(self.file_paths.as_slice(), home, folder)
    }

    /// Add a file to the list of files to save.
    pub fn add_file(&mut self, path: String)
        ensures
            final(self)@ == (SettingsView {
                file_paths: old(self)@.file_paths.push(path@),
                ..old(self)@
            }),
    {
        let ghost before = self.file_paths@;
        self.file_paths.push(path);
        assert(texts(self.file_paths@) =~= texts(before).push(path@));
    }
}

} // verus!
