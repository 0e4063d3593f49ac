//! Configuration module

use vstd::prelude::*;

use crate::commands::gh::lib::{Gh, GhView};
use crate::commands::movies::{Movies, MoviesView};
use crate::commands::music::{MusicCliCommand, MusicView};
use crate::commands::sync::{SyncCliCommand, SyncView};
use crate::errors::GeneralError;
use crate::store::saved;

verus! {

/// Configuration
/// Configuration data is stored in a TOML file
/// The configuration is separated into different sections
#[derive(Clone, Debug, PartialEq)]
pub struct ConfigData {
    /// Movies configuration
    pub movies: Option<Movies>,
    /// Sync configuration
    pub sync: Option<SyncCliCommand>,
    /// Github configuration
    pub gh: Option<Gh>,
    /// Music configuration
    pub music: Option<MusicCliCommand>,
}

/// What a [`ConfigData`] holds: each section, where it is present.
pub struct ConfigDataView {
    pub movies: Option<MoviesView>,
    pub sync: Option<SyncView>,
    pub gh: Option<GhView>,
    pub music: Option<MusicView>,
}

impl View for ConfigData {
    type V = ConfigDataView;

    open spec fn view(&self) -> ConfigDataView {
        ConfigDataView {
            movies: match self.movies {
                Some(s) => Some(s@),
                None => None,
            },
            sync: match self.sync {
                Some(s) => Some(s@),
                None => None,
            },
            gh: match self.gh {
                Some(s) => Some(s@),
                None => None,
            },
            music: match self.music {
                Some(s) => Some(s@),
                None => None,
            },
        }
    }
}

impl ConfigDataView {
    /// The configuration in which nothing is configured yet.
    pub open spec fn empty() -> ConfigDataView {
        ConfigDataView { movies: None, sync: None, gh: None, music: None }
    }
}

impl Default for ConfigData {
    fn default() -> (r: ConfigData)
        ensures
            r@ == ConfigDataView::empty(),
    {
        ConfigData { movies: None, sync: None, gh: None, music: None }
    }
}

/// Configuration object
/// It's linked to a configuration file
#[derive(Clone, Debug, PartialEq)]
pub struct Config {
    /// debug level
    pub debug: u8,
    /// whether to use input for configuration
    pub use_input: bool,
    /// path to the configuration file
    pub config_path: String,
    /// actual configuration data
    pub config_data: ConfigData,
}

/// What a [`Config`] holds.
pub struct ConfigView {
    pub debug: u8,
    pub use_input: bool,
    pub config_path: Seq<char>,
    pub config_data: ConfigDataView,
}

impl View for Config {
    type V = ConfigView;

    open spec fn view(&self) -> ConfigView {
        ConfigView {
            debug: self.debug,
            use_input: self.use_input,
            config_path: self.config_path@,
            config_data: self.config_data@,
        }
    }
}

impl Config {
    /// Set the debug value
    pub fn set_debug(&mut self, value: u8)
        ensures
            final(self)@ == (ConfigView { debug: value, ..old(self)@ }),
    {
        self.debug = value;
    }

    /// Update the config data and write them down.
    ///
    /// The updater receives the data as they are and hands back what they
    /// become; nothing else of the configuration changes. The result is
    /// what saving the configuration gives once it is updated: the text of
    /// the config file, which the caller puts on disk, or the error for
    /// data that cannot be written.
    pub fn update(&mut self, updater_fn: impl FnOnce(ConfigData) -> ConfigData) -> (r: Result<
        String,
        GeneralError,
    >)
        requires
            updater_fn.requires((old(self).config_data,)),
        ensures
            updater_fn.ensures((old(self).config_data,), final(self).config_data),
            final(self).debug == old(self).debug,
            final(self).use_input == old(self).use_input,
            final(self).config_path == old(self).config_path,
            saved(final(self)@.config_data, r),
    {
        let mut data = ConfigData { movies: None, sync: None, gh: None, music: None };
        core::mem::swap(&mut self.config_data, &mut data);
        self.config_data = updater_fn(data);
        self.save()
    }
}

} // verus!
