//! Export of the music library.

use vstd::prelude::*;
use vstd::string::*;

use crate::commands::config::{open_plan, open_plan_for, OpenPlan};
use crate::config::Config;
use crate::paths::{is_lookup, resolve_required_path, Lookup, PathSetting};
use crate::text::opt_text;

verus! {

/// Music configuration
#[derive(Clone, Debug, PartialEq)]
pub struct MusicCliCommand {
    /// Path to the music file
    pub music_file: Option<String>,
    /// env path
    pub env_path: Option<String>,
}

/// What a [`MusicCliCommand`] section holds.
pub struct MusicView {
    pub music_file: Option<Seq<char>>,
    pub env_path: Option<Seq<char>>,
}

impl View for MusicCliCommand {
    type V = MusicView;

    open spec fn view(&self) -> MusicView {
        MusicView { music_file: opt_text(self.music_file), env_path: opt_text(self.env_path) }
    }
}

impl MusicView {
    /// The section with nothing set.
    pub open spec fn empty() -> MusicView {
        MusicView { music_file: None, env_path: None }
    }
}

impl Default for MusicCliCommand {
    fn default() -> (r: MusicCliCommand)
        ensures
            r@ == MusicView::empty(),
    {
        MusicCliCommand { music_file: None, env_path: None }
    }
}

/// Music sub command
#[derive(Clone, Copy, PartialEq, Eq, Structural, Debug)]
pub enum MusicSubcommand {
    /// save music
    Sync,
    /// open music file
    Open {
        /// Print the path
        show_path_only: bool,
    },
}

/// A platform that music is exported from.
#[derive(Clone, Copy, PartialEq, Eq, Structural, Debug)]
pub enum MusicPlatform {
    Deezer,
    Spotify,
    Youtube,
}

/// The line that names the music file before the export.
pub open spec fn music_file_line(path: Seq<char>) -> Seq<char> {
    "music file: '"@ + path + "'"@
}

impl MusicCliCommand {
    /// Get the music file path
    pub fn get_music_file_path(config: &Config) -> (r: Lookup)
        ensures
            is_lookup(config@.config_data, PathSetting::MusicFile, r),
    {
        resolve_required_path(config, PathSetting::MusicFile)
    }

    /// open music file
    pub fn open_music_file(music_file: &str, only_path: bool) -> (plan: OpenPlan)
        ensures
            open_plan_for("Opening music file at "@, music_file@, only_path, plan),
    {
        open_plan("Opening music file at ", music_file, only_path)
    }

    /// The platforms that music is exported from, in order.
    pub fn sync_music() -> (platforms: Vec<MusicPlatform>)
        ensures
            platforms@ == seq![MusicPlatform::Deezer, MusicPlatform::Spotify, MusicPlatform::Youtube],
    {
        let mut platforms = Vec::new();
        platforms.push(MusicPlatform::Deezer);
        platforms.push(MusicPlatform::Spotify);
        platforms.push(MusicPlatform::Youtube);
        platforms
    }

    /// The line that names the music file before the export.
    pub fn music_file_text(path: &str) -> (r: String)
        ensures
            r@ == music_file_line(path@),
    {
        let mut out = String::from_str("music file: '");
        out.append(path);
        out.append("'");
        out
    }
}

} // verus!
