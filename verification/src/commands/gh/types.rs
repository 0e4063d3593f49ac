//! What the GitHub command line tool answers.

use vstd::prelude::*;

verus! {

/// Github Response
#[derive(Clone, Debug, PartialEq)]
pub struct GhResponse {
    /// Data
    pub data: GhData,
}

/// Data
#[derive(Clone, Debug, PartialEq)]
pub struct GhData {
    /// User
    pub user: GhUser,
}

/// User
#[derive(Clone, Debug, PartialEq)]
pub struct GhUser {
    /// Pull requests
    pub pull_requests: GhPullRequests,
}

/// Pull requests
#[derive(Clone, Debug, PartialEq)]
pub struct GhPullRequests {
    /// Edges
    pub edges: Vec<GhPullRequest>,
    /// Page info
    pub page_info: GhPageInfo,
}

/// Page info
#[derive(Clone, Debug, PartialEq)]
pub struct GhPageInfo {
    /// End cursor
    pub end_cursor: String,
    /// Whether another page follows
    pub has_next_page: bool,
}

/// Pull request
#[derive(Clone, Debug, PartialEq)]
pub struct GhPullRequest {
    /// Node
    pub node: GhPullRequestNode,
}

/// Pull request node
#[derive(Clone, Debug, PartialEq)]
pub struct GhPullRequestNode {
    /// Id
    pub id: String,
    /// Number
    pub number: i32,
    /// Title
    pub title: String,
    /// Url
    pub url: String,
    /// State
    pub state: String,
    /// Created at
    pub created_at: String,
    /// Base repository
    pub base_repository: GhBaseRepository,
}

/// Base repository
#[derive(Clone, Debug, PartialEq)]
pub struct GhBaseRepository {
    /// Url
    pub url: String,
    /// Name
    pub name: String,
    /// Description
    pub description: Option<String>,
    /// Owner
    pub owner: GhOwner,
    /// Languages
    pub languages: GhLanguages,
}

/// Owner
#[derive(Clone, Debug, PartialEq)]
pub struct GhOwner {
    /// Login
    pub login: String,
}

/// Languages
#[derive(Clone, Debug, PartialEq)]
pub struct GhLanguages {
    /// Nodes
    pub nodes: Vec<GhLanguage>,
}

/// Language
#[derive(Clone, Debug, PartialEq)]
pub struct GhLanguage {
    /// Name of the language
    pub name: String,
}

/// The main language of a repository
#[derive(Clone, Debug, PartialEq)]
pub struct GhPrimaryLanguage {
    /// Name of the language
    pub name: String,
    /// Colour that stands for the language
    pub color: Option<String>,
}

/// The licence of a repository
#[derive(Clone, Debug, PartialEq)]
pub struct GhLicense {
    /// Name of the licence
    pub name: String,
}

/// A project: a repository or a gist. The fields from the main language on
/// are reported for repositories only.
#[derive(Clone, Debug, PartialEq)]
pub struct GhProject {
    /// Url
    pub url: String,
    /// Name
    pub name: String,
    /// Description
    pub description: Option<String>,
    /// Number of stars
    pub stargazer_count: u64,
    /// Main language
    pub primary_language: Option<GhPrimaryLanguage>,
    /// Home page
    pub homepage_url: Option<String>,
    /// Disk usage, in kilobytes
    pub disk_usage: Option<u64>,
    /// Number of forks
    pub fork_count: Option<u64>,
    /// Licence
    pub license_info: Option<GhLicense>,
}

impl GhPageInfo {
    /// The page info before the first page: no cursor, and a page to come.
    pub fn first() -> (r: GhPageInfo)
        ensures
            r.end_cursor@ == Seq::<char>::empty(),
            r.has_next_page,
    {
        GhPageInfo { end_cursor: String::new(), has_next_page: true }
    }
}

} // verus!
