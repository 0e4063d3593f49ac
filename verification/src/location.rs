//! Where the tool keeps its files, and the path arithmetic of the mirror.
//!
//! Paths are held as text. What two joined paths make, and what is left of a
//! path without the directory it lies in, is left to std: the functions that
//! tell it are trusted, and their results have names here.

use vstd::prelude::*;
use vstd::string::*;

use crate::errors::{GeneralError, GeneralErrorView};

verus! {

/// Asks for the home directory of the current user.
///
/// Trusted: calls `home::home_dir`, which reads the environment of the
/// process, so nothing is claimed of the answer. The outer option is none
/// where no home directory is known; the inner one is none where its path is
/// not valid Unicode.
#[verifier::external_body]
pub(crate) fn home_dir() -> Option<Option<String>> {
    home::home_dir().map(|p| p.to_str().map(|s| s.to_string()))
}

/// The path that a path makes when it is joined to a base path, as std's
/// `Path::join` tells it.
pub uninterp spec fn joined_path(base: Seq<char>, path: Seq<char>) -> Seq<char>;

/// What is left of a path once a leading base path is taken off it, as
/// std's `Path::strip_prefix` tells it; none where the path does not begin
/// with the base.
pub uninterp spec fn stripped_path(path: Seq<char>, base: Seq<char>) -> Option<Seq<char>>;

/// Joins a path to a base path.
///
/// Trusted: calls std's `Path::join`. The result depends on the two paths
/// alone, by the path conventions of the system that the library is built
/// for, so the contract names it and says nothing more of it.
#[verifier::external_body]
pub(crate) fn join_path(base: &str, path: &str) -> (r: String)
    ensures
        r@ == joined_path(base@, path@),
{
    std::path::Path::new(base).join(path).to_string_lossy().into_owned()
}

/// Takes a leading base path off a path; none where the path does not begin
/// with the base.
///
/// Trusted: calls std's `Path::strip_prefix`. The result depends on the
/// two paths alone, by the path conventions of the system that the library
/// is built for, so the contract names it and says nothing more of it.
#[verifier::external_body]
pub(crate) fn strip_path_prefix(path: &str, base: &str) -> (r: Option<String>)
    ensures
        match r {
            Some(rest) => stripped_path(path@, base@) == Some(rest@),
            None => stripped_path(path@, base@) is None,
        },
{
    std::path::Path::new(path).strip_prefix(base).ok().map(|p| p.to_string_lossy().into_owned())
}

/// The directory below a home directory that holds the files of the tool.
pub open spec fn tool_directory(home: Seq<char>) -> Seq<char> {
    joined_path(joined_path(home, ".config"@), ".n4n5"@)
}

/// An entry of the directory that holds the files of the tool.
pub open spec fn tool_entry(home: Seq<char>, name: Seq<char>) -> Seq<char> {
    joined_path(tool_directory(home), name)
}

/// The directory of the configuration and the configuration file in it.
#[derive(Clone, Debug, PartialEq)]
pub struct ConfigLocation {
    /// The directory, to be created where it does not exist
    pub directory: String,
    /// The file, to be created empty where it does not exist
    pub file: String,
}

/// The error for a home directory that cannot be told.
pub open spec fn no_home_error() -> GeneralErrorView {
    GeneralErrorView {
        message: "Unable to get your home dir! home::home_dir() isn't working"@,
        source: None,
    }
}

/// Whether a home directory was found: it is known, valid Unicode and not
/// empty.
pub open spec fn usable_home(home: Option<Option<String>>) -> bool {
    home matches Some(Some(path)) && path@.len() > 0
}

/// The home directory that was found, as a path to build on, or the error
/// where none was.
pub fn checked_home(home: Option<Option<String>>) -> (r: Result<String, GeneralError>)
    ensures
        match r {
            Ok(path) => home == Some(Some(path)) && usable_home(home),
            Err(e) => !usable_home(home) && e@ == no_home_error(),
        },
{
    match home {
        Some(Some(path)) => {
            if path.as_str().unicode_len() == 0 {
                Err(GeneralError::new("Unable to get your home dir! home::home_dir() isn't working"))
            } else {
                Ok(path)
            }
        },
        _ => Err(GeneralError::new("Unable to get your home dir! home::home_dir() isn't working")),
    }
}

/// The directory below the home directory that holds the files of the tool,
/// and one of its entries where `entry` names one.
fn tool_path(home: &str, entry: Option<&str>) -> (r: String)
    ensures
        r@ == match entry {
            Some(name) => tool_entry(home@, name@),
            None => tool_directory(home@),
        },
{
    let config = join_path(home, ".config");
    let tool = join_path(config.as_str(), ".n4n5");
    match entry {
        Some(name) => join_path(tool.as_str(), name),
        None => tool,
    }
}

/// Whether a place is where the configuration lies below a home directory:
/// its directory is the directory of the tool, its file the entry
/// `config.toml` of that directory.
pub open spec fn lies_below(place: ConfigLocation, home: Seq<char>) -> bool {
    &&& home.len() > 0
    &&& place.directory@ == tool_directory(home)
    &&& place.file@ == tool_entry(home, "config.toml"@)
}

/// Where the configuration lies for a given answer to the question of the
/// home directory: below the home directory where one was found, nowhere
/// where none was.
pub fn config_location(home: Option<Option<String>>) -> (r: Result<ConfigLocation, GeneralError>)
    ensures
        match r {
            Ok(place) => {
                &&& usable_home(home)
                &&& place.directory@ == tool_directory(home->0->0@)
                &&& place.file@ == tool_entry(home->0->0@, "config.toml"@)
            },
            Err(e) => !usable_home(home) && e@ == no_home_error(),
        },
{
    match checked_home(home) {
        Ok(path) => {
            let directory = tool_path(path.as_str(), None);
            let file = tool_path(path.as_str(), Some("config.toml"));
            Ok(ConfigLocation { directory, file })
        },
        Err(e) => Err(e),
    }
}

/// Where the configuration of the current user lies: below the home
/// directory that the system tells, whichever that is, or nowhere, with the
/// error for a home directory that cannot be told.
pub fn default_config_location() -> (r: Result<ConfigLocation, GeneralError>)
    ensures
        match r {
            Ok(place) => exists|home: Seq<char>| lies_below(place, home),
            Err(e) => e@ == no_home_error(),
        },
{
    let home = home_dir();
    let r = config_location(home);
    proof {
        if r is Ok {
            assert(lies_below(r->Ok_0, home->0->0@));
        }
    }
    r
}

/// The error for an output directory that has no home directory to lie in.
pub open spec fn no_output_home_error() -> GeneralErrorView {
    GeneralErrorView { message: "Cannot get home dir"@, source: None }
}

/// The directory that receives generated files of one kind, for a given
/// answer to the question of the home directory.
pub fn output_directory(home: Option<Option<String>>, kind: &str) -> (r: Result<
    String,
    GeneralError,
>)
    ensures
        match r {
            Ok(directory) => home matches Some(Some(path)) && directory@ == tool_entry(
                path@,
                kind@,
            ),
            Err(e) => !(home matches Some(Some(_))) && e@ == no_output_home_error(),
        },
{
    match home {
        Some(Some(path)) => Ok(tool_path(path.as_str(), Some(kind))),
        _ => Err(GeneralError::new("Cannot get home dir")),
    }
}

} // verus!
