//! Config subcommand

use vstd::prelude::*;
use vstd::string::*;

use crate::config::Config;

verus! {

/// Config subcommand
#[derive(Clone, Copy, PartialEq, Eq, Structural, Debug)]
pub enum ConfigSubcommand {
    /// Open config with default editor
    Open {
        /// Print the path
        show_path_only: bool,
    },
}

/// What to do with a file that the user asks to open.
#[derive(Clone, Debug, PartialEq)]
pub enum OpenPlan {
    /// Print the path and do nothing else
    PrintPath(String),
    /// Print the message, then run the editor on the path and wait for it
    Edit { message: String, editor: String, path: String },
}

/// The editor that files are opened with.
pub open spec fn editor() -> Seq<char> {
    "vi"@
}

/// What to do with a file that the user asks to open: print its path where
/// only the path is wanted, announce it and edit it otherwise.
pub open spec fn open_plan_for(
    announcement: Seq<char>,
    path: Seq<char>,
    show_path_only: bool,
    plan: OpenPlan,
) -> bool {
    match plan {
        OpenPlan::PrintPath(p) => show_path_only && p@ == path,
        OpenPlan::Edit { message, editor: e, path: p } => !show_path_only && message@
            == announcement + path && e@ == editor() && p@ == path,
    }
}

/// Plans the opening of a file. The announcement is what stands before the
/// path in the message.
pub fn open_plan(announcement: &str, path: &str, show_path_only: bool) -> (plan: OpenPlan)
    ensures
        open_plan_for(announcement@, path@, show_path_only, plan),
{
    if show_path_only {
        OpenPlan::PrintPath(String::from_str(path))
    } else {
        let mut message = String::from_str(announcement);
        message.append(path);
        OpenPlan::Edit {
            message,
            editor: String::from_str("vi"),
            path: String::from_str(path),
        }
    }
}

impl ConfigSubcommand {
    /// invoke subcommand
    pub fn invoke(self, config: &Config) -> (plan: OpenPlan)
        ensures
            match self {
                ConfigSubcommand::Open { show_path_only } => open_plan_for(
                    "Opening config "@,
                    config.config_path@,
                    show_path_only,
                    plan,
                ),
            },
    {
        match self {
            ConfigSubcommand::Open { show_path_only } => Config::open(config, show_path_only),
        }
    }
}

impl Config {
    /// Open the config file with the default editor, or print its path.
    pub fn open(config: &Config, print_path: bool) -> (plan: OpenPlan)
        ensures
            open_plan_for("Opening config "@, config.config_path@, print_path, plan),
    {
        open_plan("Opening config ", config.config_path.as_str(), print_path)
    }
}

} // verus!
