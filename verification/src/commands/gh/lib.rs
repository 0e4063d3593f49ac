//! The GitHub section of the configuration and the paged queries that fill
//! the mirror files.

use vstd::prelude::*;
use vstd::string::*;

use crate::commands::gh::queries::{
    PROJECTS_QUERY_COUNT, PROJECTS_QUERY_FIELDS, PROJECTS_QUERY_FILTER, PROJECTS_QUERY_HEAD,
    PROJECTS_QUERY_TAIL, PULLS_QUERY_HEAD, PULLS_QUERY_TAIL, REPOSITORY_FIELDS,
};
use crate::commands::gh::types::{GhPageInfo, GhProject, GhResponse, GhPullRequest};
use crate::errors::{GeneralError, GeneralErrorView};
use crate::json::{is_object, json_is_object, json_member, json_object_member, member, object_member};
use crate::order::{is_stable_order, permute, permuted, stable_order, Ranked};
use crate::text::{
    blank, chars_of, decimal, decimal_string, is_blank, is_text_not_after, is_white_space,
    lemma_text_order_total, lemma_text_order_transitive, opt_text, text_not_after,
};

verus! {

/// Github configuration
#[derive(Clone, Debug, PartialEq)]
pub struct Gh {
    /// Name of the account
    pub username: Option<String>,
    /// Path to the pulls file
    pub file_pulls: Option<String>,
    /// Path to the projects file
    pub file_projects: Option<String>,
    /// Path to the file with the disk usage of each project
    pub file_projects_disk: Option<String>,
}

/// What a [`Gh`] section holds.
pub struct GhView {
    pub username: Option<Seq<char>>,
    pub file_pulls: Option<Seq<char>>,
    pub file_projects: Option<Seq<char>>,
    pub file_projects_disk: Option<Seq<char>>,
}

impl View for Gh {
    type V = GhView;

    open spec fn view(&self) -> GhView {
        GhView {
            username: opt_text(self.username),
            file_pulls: opt_text(self.file_pulls),
            file_projects: opt_text(self.file_projects),
            file_projects_disk: opt_text(self.file_projects_disk),
        }
    }
}

impl GhView {
    /// The section with nothing set.
    pub open spec fn empty() -> GhView {
        GhView { username: None, file_pulls: None, file_projects: None, file_projects_disk: None }
    }
}

impl Default for Gh {
    fn default() -> (r: Gh)
        ensures
            r@ == GhView::empty(),
    {
        Gh { username: None, file_pulls: None, file_projects: None, file_projects_disk: None }
    }
}

/// Get github username
pub fn get_github_username() -> (r: String)
    ensures
        r@ == "Its-Just-Nans"@,
{
    String::from_str("Its-Just-Nans")
}

/// Gh sub command
#[derive(Clone, Copy, PartialEq, Eq, Structural, Debug)]
pub enum GhSubCommand {
    /// Save the pull requests
    Pulls {
        /// print as json
        print_json: bool,
    },
    /// Save the projects
    Projects {
        /// print as json
        print_json: bool,
    },
}

/// Project type
#[derive(Clone, Copy, PartialEq, Eq, Structural, Debug)]
pub enum ProjectType {
    /// Gists
    Gists,
    /// Repos
    Repos,
}

impl ProjectType {
    /// The name of the listing in a query.
    pub open spec fn listing(self) -> Seq<char> {
        match self {
            ProjectType::Gists => "gists"@,
            ProjectType::Repos => "repositories"@,
        }
    }

    /// The filter of the listing in a query.
    pub open spec fn filter(self) -> Seq<char> {
        match self {
            ProjectType::Gists => ""@,
            ProjectType::Repos => "isFork: false, ownerAffiliations: [OWNER]"@,
        }
    }

    /// The fields that a query asks for besides those that every project has.
    pub open spec fn fields(self) -> Seq<char> {
        match self {
            ProjectType::Gists => ""@,
            ProjectType::Repos => REPOSITORY_FIELDS@,
        }
    }

    /// The name of the listing in a query.
    pub fn listing_name(self) -> (r: &'static str)
        ensures
            r@ == self.listing(),
    {
        match self {
            ProjectType::Gists => "gists",
            ProjectType::Repos => "repositories",
        }
    }

    /// The filter of the listing in a query.
    pub fn filter_text(self) -> (r: &'static str)
        ensures
            r@ == self.filter(),
    {
        match self {
            ProjectType::Gists => "",
            ProjectType::Repos => "isFork: false, ownerAffiliations: [OWNER]",
        }
    }

    /// The fields that a query asks for besides those that every project has.
    pub fn fields_text(self) -> (r: &'static str)
        ensures
            r@ == self.fields(),
    {
        match self {
            ProjectType::Gists => "",
            ProjectType::Repos => REPOSITORY_FIELDS,
        }
    }
}

/// The part of the pull request query that names the page: nothing for the
/// first page, the cursor of the page before for every other.
pub open spec fn pulls_after(cursor: Seq<char>) -> Seq<char> {
    if is_blank(cursor) {
        Seq::empty()
    } else {
        ", after: \""@ + cursor + "\""@
    }
}

/// The command that asks for the page of pull requests after a cursor.
pub open spec fn pulls_command(cursor: Seq<char>) -> Seq<char> {
    PULLS_QUERY_HEAD@ + pulls_after(cursor) + PULLS_QUERY_TAIL@
}

/// The part of the project query that names the page: nothing for the first
/// page, the cursor of the page before for every other.
pub open spec fn projects_after(cursor: Seq<char>) -> Seq<char> {
    if is_blank(cursor) {
        Seq::empty()
    } else {
        ", after: \""@ + cursor + "\", "@
    }
}

/// The query for the first page, whose cursor is empty, names no cursor.
pub proof fn lemma_first_page_names_no_cursor()
    ensures
        pulls_after(Seq::empty()) == Seq::<char>::empty(),
        projects_after(Seq::empty()) == Seq::<char>::empty(),
{
}

/// A cursor that neither begins nor ends with white space is named in the
/// query for the next page as it stands.
pub proof fn lemma_cursor_is_named(cursor: Seq<char>)
    requires
        cursor.len() > 0,
        !is_white_space(cursor[0]),
        !is_white_space(cursor.last()),
    ensures
        pulls_after(cursor) == ", after: \""@ + cursor + "\""@,
        projects_after(cursor) == ", after: \""@ + cursor + "\", "@,
{
}

/// The command that asks for the page of projects of one kind after a
/// cursor.
pub open spec fn projects_command(kind: ProjectType, cursor: Seq<char>) -> Seq<char> {
    PROJECTS_QUERY_HEAD@ + kind.listing() + PROJECTS_QUERY_COUNT@ + projects_after(cursor)
        + PROJECTS_QUERY_FILTER@ + kind.filter() + PROJECTS_QUERY_FIELDS@ + kind.fields()
        + PROJECTS_QUERY_TAIL@
}

/// The line that reports how many pull requests a page brought.
pub open spec fn pulls_received(count: nat) -> Seq<char> {
    "Received "@ + decimal(count) + " pulls requests"@
}

/// The line that reports how many projects of a kind a page brought.
pub open spec fn projects_received(count: nat, kind: ProjectType) -> Seq<char> {
    "Received "@ + decimal(count) + " "@ + kind.listing()
}

/// The walk through the pages of pull requests.
#[derive(Clone, Debug, PartialEq)]
pub struct PullsPager {
    /// What the last page said of the next one
    pub page_info: GhPageInfo,
    /// The pull requests of the pages read so far
    pub all_pulls: Vec<GhPullRequest>,
}

impl PullsPager {
    /// The walk before its first page.
    pub fn new() -> (r: PullsPager)
        ensures
            r.page_info.has_next_page,
            r.page_info.end_cursor@ == Seq::<char>::empty(),
            r.all_pulls@ == Seq::<GhPullRequest>::empty(),
    {
        PullsPager { page_info: GhPageInfo::first(), all_pulls: Vec::new() }
    }

    /// The command for the next page, or nothing when the last page has been
    /// read.
    pub fn next_command(&self) -> (r: Option<String>)
        ensures
            match r {
                Some(command) => self.page_info.has_next_page && command@ == pulls_command(
                    self.page_info.end_cursor@,
                ),
                None => !self.page_info.has_next_page,
            },
    {
        if !self.page_info.has_next_page {
            return None;
        }
        let mut command = String::from_str(PULLS_QUERY_HEAD);
        if !blank(self.page_info.end_cursor.as_str()) {
            command.append(", after: \"");
            command.append(self.page_info.end_cursor.as_str());
            command.append("\"");
            assert(command@ =~= PULLS_QUERY_HEAD@ + pulls_after(self.page_info.end_cursor@));
        } else {
            assert(command@ =~= PULLS_QUERY_HEAD@ + pulls_after(self.page_info.end_cursor@));
        }
        command.append(PULLS_QUERY_TAIL);
        Some(command)
    }

    /// Takes a page: its pull requests follow those already read, and its
    /// page info says whether to go on. The result is the line that reports
    /// the page.
    pub fn on_page(&mut self, response: GhResponse) -> (message: String)
        ensures
            final(self).all_pulls@ == old(self).all_pulls@ + response.data.user.pull_requests.edges@,
            final(self).page_info == response.data.user.pull_requests.page_info,
            message@ == pulls_received(response.data.user.pull_requests.edges@.len()),
    {
        let mut page = response.data.user.pull_requests;
        let mut message = String::from_str("Received ");
        let count = decimal_string(page.edges.len() as u64);
        message.append(count.as_str());
        message.append(" pulls requests");
        self.all_pulls.append(&mut page.edges);
        self.page_info = page.page_info;
        message
    }
}

/// What the answer to a project query holds.
#[derive(Clone, Debug, PartialEq)]
pub enum ProjectsReply {
    /// The answer is no object.
    NotAnObject,
    /// The answer is an object without the listing that was asked for.
    NoListing,
    /// The listing: its projects and its page info, each where present.
    Listing { nodes: Option<Vec<GhProject>>, page_info: Option<GhPageInfo> },
}

/// The walk through the pages of one kind of project.
#[derive(Clone, Debug, PartialEq)]
pub struct ProjectsPager {
    /// The kind of project
    pub project_type: ProjectType,
    /// What the last page said of the next one
    pub page_info: GhPageInfo,
    /// The projects of the pages read so far
    pub all_projects: Vec<GhProject>,
}

/// The error for an answer that is no object.
pub open spec fn not_an_object() -> GeneralErrorView {
    GeneralErrorView { message: "Unable to parse json from gh command"@, source: None }
}

/// The error for an answer without the listing of one kind of project.
pub open spec fn no_listing(kind: ProjectType) -> GeneralErrorView {
    GeneralErrorView {
        message: "Unable to find "@ + kind.listing() + " in gh command"@,
        source: None,
    }
}

/// The projects that a reply adds to those already read.
pub open spec fn reply_projects(reply: ProjectsReply) -> Seq<GhProject> {
    match reply {
        ProjectsReply::Listing { nodes: Some(nodes), .. } => nodes@,
        _ => Seq::empty(),
    }
}

impl ProjectsPager {
    /// The walk before its first page.
    pub fn new(project_type: ProjectType) -> (r: ProjectsPager)
        ensures
            r.project_type == project_type,
            r.page_info.has_next_page,
            r.page_info.end_cursor@ == Seq::<char>::empty(),
            r.all_projects@ == Seq::<GhProject>::empty(),
    {
        ProjectsPager { project_type, page_info: GhPageInfo::first(), all_projects: Vec::new() }
    }

    /// The command for the next page, or nothing when the last page has been
    /// read.
    pub fn next_command(&self) -> (r: Option<String>)
        ensures
            match r {
                Some(command) => self.page_info.has_next_page && command@ == projects_command(
                    self.project_type,
                    self.page_info.end_cursor@,
                ),
                None => !self.page_info.has_next_page,
            },
    {
        if !self.page_info.has_next_page {
            return None;
        }
        let mut command = String::from_str(PROJECTS_QUERY_HEAD);
        command.append(self.project_type.listing_name());
        command.append(PROJECTS_QUERY_COUNT);
        let ghost start = command@;
        if !blank(self.page_info.end_cursor.as_str()) {
            command.append(", after: \"");
            command.append(self.page_info.end_cursor.as_str());
            command.append("\", ");
            assert(command@ =~= start + projects_after(self.page_info.end_cursor@));
        } else {
            assert(command@ =~= start + projects_after(self.page_info.end_cursor@));
        }
        command.append(PROJECTS_QUERY_FILTER);
        command.append(self.project_type.filter_text());
        command.append(PROJECTS_QUERY_FIELDS);
        command.append(self.project_type.fields_text());
        command.append(PROJECTS_QUERY_TAIL);
        Some(command)
    }

    /// Takes the answer to a query.
    ///
    /// The projects of a listing follow those already read, and its page
    /// info says whether to go on. An answer that is no object, one without
    /// the listing and a listing without page info are errors: the walk
    /// ends there, and no page is asked for twice. The result is the line
    /// to print, if there is one: a report of the page where `debug` is
    /// above zero.
    pub fn on_page(&mut self, reply: ProjectsReply, debug: u8) -> (r: Result<
        Option<String>,
        GeneralError,
    >)
        ensures
            final(self).project_type == old(self).project_type,
            final(self).all_projects@ == old(self).all_projects@ + reply_projects(reply),
            match reply {
                ProjectsReply::NotAnObject => {
                    &&& final(self).page_info == old(self).page_info
                    &&& r matches Err(e)
                    &&& e@ == not_an_object()
                },
                ProjectsReply::NoListing => {
                    &&& final(self).page_info == old(self).page_info
                    &&& r matches Err(e)
                    &&& e@ == no_listing(old(self).project_type)
                },
                ProjectsReply::Listing { nodes, page_info: None } => {
                    &&& final(self).page_info == old(self).page_info
                    &&& r matches Err(e)
                    &&& e@ == (GeneralErrorView {
                        message: "Unable to find pageInfo in gh command"@,
                        source: None,
                    })
                },
                ProjectsReply::Listing { nodes, page_info: Some(info) } => {
                    &&& final(self).page_info == info
                    &&& match r {
                        Ok(Some(line)) => nodes is Some && debug > 0 && line@ == projects_received(
                            nodes->0@.len(),
                            old(self).project_type,
                        ),
                        Ok(None) => nodes is None || debug == 0,
                        Err(_) => false,
                    }
                },
            },
    {
        match reply {
            ProjectsReply::NotAnObject => {
                assert(self.all_projects@ + Seq::<GhProject>::empty() =~= self.all_projects@);
                Err(GeneralError::new("Unable to parse json from gh command"))
            },
            ProjectsReply::NoListing => {
                assert(self.all_projects@ + Seq::<GhProject>::empty() =~= self.all_projects@);
                let mut message = String::from_str("Unable to find ");
                message.append(self.project_type.listing_name());
                message.append(" in gh command");
                Err(GeneralError::from(message))
            },
            ProjectsReply::Listing { nodes, page_info } => {
                let mut line: Option<String> = None;
                match nodes {
                    Some(mut nodes) => {
                        if debug > 0 {
                            let mut message = String::from_str("Received ");
                            let count = decimal_string(nodes.len() as u64);
                            message.append(count.as_str());
                            message.append(" ");
                            message.append(self.project_type.listing_name());
                            line = Some(message);
                        }
                        self.all_projects.append(&mut nodes);
                    },
                    None => {
                        assert(self.all_projects@ + Seq::<GhProject>::empty()
                            =~= self.all_projects@);
                    },
                }
                match page_info {
                    Some(info) => {
                        self.page_info = info;
                        Ok(line)
                    },
                    None => Err(GeneralError::new("Unable to find pageInfo in gh command")),
                }
            },
        }
    }
}

/// The key by which projects are ordered: the name.
#[derive(Clone, Debug, PartialEq)]
pub struct NameKey {
    /// The characters of the name
    pub chars: Vec<char>,
}

impl Ranked for NameKey {
    open spec fn not_after(&self, other: &Self) -> bool {
        text_not_after(self.chars@, other.chars@)
    }

    fn is_not_after(&self, other: &Self) -> (r: bool) {
        is_text_not_after(&self.chars, &other.chars)
    }

    proof fn lemma_total(a: &Self, b: &Self) {
        lemma_text_order_total(a.chars@, b.chars@);
    }

    proof fn lemma_transitive(a: &Self, b: &Self, c: &Self) {
        lemma_text_order_transitive(a.chars@, b.chars@, c.chars@);
    }
}

/// The names of the projects of a list, as keys.
pub open spec fn name_keys(projects: Seq<GhProject>, keys: Seq<NameKey>) -> bool {
    &&& keys.len() == projects.len()
    &&& forall|i: int| 0 <= i < keys.len() ==> (#[trigger] keys[i]).chars@ == projects[i].name@
}

/// Whether `sorted` holds the projects of `projects` by name, projects of
/// the same name staying as they stood.
pub open spec fn is_sorted_by_name(projects: Seq<GhProject>, sorted: Seq<GhProject>) -> bool {
    exists|keys: Seq<NameKey>, order: Seq<usize>|
        {
            &&& name_keys(projects, keys)
            &&& is_stable_order(keys, order)
            &&& sorted == permuted(projects, order)
        }
}

/// The debug level at which the projects are fetched: one above that of the
/// configuration, and none at all where the result is printed as JSON.
pub open spec fn projects_debug_level(is_json: bool, debug: u8) -> u8 {
    if is_json {
        0
    } else if debug == 255 {
        255
    } else {
        (debug + 1) as u8
    }
}

impl Gh {
    /// The debug level at which the projects are fetched.
    pub fn fetch_debug_level(is_json: bool, debug: u8) -> (r: u8)
        ensures
            r == projects_debug_level(is_json, debug),
    {
        if is_json {
            0
        } else if debug == 255 {
            255
        } else {
            debug + 1
        }
    }

    /// Puts projects in the order of their names.
    pub fn sort_projects(projects: Vec<GhProject>) -> (sorted: Vec<GhProject>)
        ensures
            is_sorted_by_name(projects@, sorted@),
    {
        let mut keys: Vec<NameKey> = Vec::new();
        let mut i: usize = 0;
        while i < projects.len()
            invariant
                i <= projects.len(),
                keys.len() == i,
                forall|k: int| 0 <= k < i ==> (#[trigger] keys[k]).chars@ == projects[k].name@,
            decreases projects.len() - i,
        {
            keys.push(NameKey { chars: chars_of(projects[i].name.as_str()) });
            i += 1;
        }
        let order = stable_order(&keys);
        let ghost source = projects@;
        let sorted = permute(projects, &order);
        assert(name_keys(source, keys@));
        sorted
    }

    /// The projects file: the repositories by name, then the gists by name.
    pub fn save_projects(repos: Vec<GhProject>, gists: Vec<GhProject>) -> (all: Vec<GhProject>)
        ensures
            exists|r: Seq<GhProject>, g: Seq<GhProject>|
                is_sorted_by_name(repos@, r) && is_sorted_by_name(gists@, g) && all@ == r + g,
    {
        let mut all = Gh::sort_projects(repos);
        let mut rest = Gh::sort_projects(gists);
        let ghost r = all@;
        let ghost g = rest@;
        all.append(&mut rest);
        assert(all@ == r + g);
        all
    }
}

/// One job of the mirroring of GitHub.
#[derive(Clone, Copy, PartialEq, Eq, Structural, Debug)]
pub enum GhJob {
    /// Save the pull requests
    Pulls,
    /// Save the projects, and print them too where that is asked for
    Projects { print_json: bool },
}

/// The line that announces the saving of pull requests.
pub open spec fn saving_pulls(path: Seq<char>) -> Seq<char> {
    "Saving pulls to "@ + path
}

/// The line that reports the saving of pull requests.
pub open spec fn saved_pulls(count: nat, path: Seq<char>) -> Seq<char> {
    "Saving "@ + decimal(count) + " pulls to "@ + path
}

/// The line that announces the saving of projects.
pub open spec fn saving_projects(path: Seq<char>) -> Seq<char> {
    "Saving projects to "@ + path
}

/// The line that reports the saving of projects.
pub open spec fn saved_projects(repos: nat, gists: nat, path: Seq<char>) -> Seq<char> {
    "Saving "@ + decimal(repos) + " repos and "@ + decimal(gists) + " gists to "@ + path
}

/// The disk usage of each project that reports one, under the address of
/// the project, in the order of the projects.
pub open spec fn disk_usage(projects: Seq<GhProject>) -> Seq<(Seq<char>, u64)>
    decreases projects.len(),
{
    if projects.len() == 0 {
        Seq::empty()
    } else {
        let rest = disk_usage(projects.drop_last());
        match projects.last().disk_usage {
            Some(usage) => rest.push((projects.last().url@, usage)),
            None => rest,
        }
    }
}

/// The texts and numbers of a list of pairs.
pub open spec fn usage_views(entries: Seq<(String, u64)>) -> Seq<(Seq<char>, u64)> {
    Seq::new(entries.len(), |i: int| (entries[i].0@, entries[i].1))
}

impl GhSubCommand {
    /// The job that the sub command asks for.
    pub fn invoke(self) -> (job: GhJob)
        ensures
            job == match self {
                GhSubCommand::Pulls { .. } => GhJob::Pulls,
                GhSubCommand::Projects { print_json } => GhJob::Projects { print_json },
            },
    {
        match self {
            GhSubCommand::Pulls { .. } => GhJob::Pulls,
            GhSubCommand::Projects { print_json } => GhJob::Projects { print_json },
        }
    }
}

impl Gh {
    /// Sync the github data: the jobs, in order.
    pub fn sync_github(print_json: bool) -> (jobs: Vec<GhJob>)
        ensures
            jobs@ == seq![GhJob::Pulls, GhJob::Projects { print_json }],
    {
        let mut jobs = Vec::new();
        jobs.push(GhJob::Pulls);
        jobs.push(GhJob::Projects { print_json });
        jobs
    }

    /// The line that announces the saving of pull requests.
    pub fn saving_pulls_text(path: &str) -> (r: String)
        ensures
            r@ == saving_pulls(path@),
    {
        let mut out = String::from_str("Saving pulls to ");
        out.append(path);
        out
    }

    /// Save the pulls to the specified file: the line that reports it.
    pub fn save_pulls(count: usize, path: &str) -> (r: String)
        ensures
            r@ == saved_pulls(count as nat, path@),
    {
        let mut out = String::from_str("Saving ");
        let number = decimal_string(count as u64);
        out.append(number.as_str());
        out.append(" pulls to ");
        out.append(path);
        out
    }

    /// The line that announces the saving of projects.
    pub fn saving_projects_text(path: &str) -> (r: String)
        ensures
            r@ == saving_projects(path@),
    {
        let mut out = String::from_str("Saving projects to ");
        out.append(path);
        out
    }

    /// The line that reports the saving of projects.
    pub fn saved_projects_text(repos: usize, gists: usize, path: &str) -> (r: String)
        ensures
            r@ == saved_projects(repos as nat, gists as nat, path@),
    {
        let mut out = String::from_str("Saving ");
        let number = decimal_string(repos as u64);
        out.append(number.as_str());
        out.append(" repos and ");
        let number = decimal_string(gists as u64);
        out.append(number.as_str());
        out.append(" gists to ");
        out.append(path);
        out
    }

    /// The disk usage of each project that reports one, under the address
    /// of the project.
    pub fn projects_disk_usage(projects: &Vec<GhProject>) -> (r: Vec<(String, u64)>)
        ensures
            usage_views(r@) == disk_usage(projects@),
    {
        let mut entries: Vec<(String, u64)> = Vec::new();
        let mut i: usize = 0;
        assert(usage_views(entries@) =~= disk_usage(projects@.take(0)));
        while i < projects.len()
            invariant
                i <= projects.len(),
                usage_views(entries@) == disk_usage(projects@.take(i as int)),
            decreases projects.len() - i,
        {
            let ghost shown = usage_views(entries@);
            assert(projects@.take(i + 1).drop_last() =~= projects@.take(i as int));
            assert(projects@.take(i + 1).last() == projects[i as int]);
            match projects[i].disk_usage {
                Some(usage) => {
                    entries.push((projects[i].url.clone(), usage));
                    assert(usage_views(entries@) =~= shown.push((projects[i as int].url@, usage)));
                },
                None => {},
            }
            i += 1;
        }
        assert(projects@.take(projects.len() as int) =~= projects@);
        entries
    }
}

/// Where the listing of projects lies in an answer, as far as the answer
/// has one.
pub enum Place {
    /// The answer is no object.
    NotAnObject,
    /// The answer is an object without the listing that was asked for.
    NoListing,
    /// The listing: its projects and its page info, each where present.
    Listing { nodes: Option<serde_json::Value>, page_info: Option<serde_json::Value> },
}

/// Where the listing of one kind of project lies in an answer: in the
/// object under `data`, in its object under `user`, in its object under the
/// name of the listing.
pub open spec fn place_of(answer: serde_json::Value, kind: ProjectType) -> Place {
    if !json_is_object(answer) {
        Place::NotAnObject
    } else {
        match json_object_member(answer, "data"@) {
            None => Place::NoListing,
            Some(data) => match json_object_member(data, "user"@) {
                None => Place::NoListing,
                Some(user) => match json_object_member(user, kind.listing()) {
                    None => Place::NoListing,
                    Some(listing) => Place::Listing {
                        nodes: json_member(listing, "nodes"@),
                        page_info: json_member(listing, "pageInfo"@),
                    },
                },
            },
        }
    }
}

/// The listing of projects that was found in an answer.
pub enum Located<'a> {
    /// The answer is no object.
    NotAnObject,
    /// The answer is an object without the listing that was asked for.
    NoListing,
    /// The listing: its projects and its page info, each where present.
    Listing { nodes: Option<&'a serde_json::Value>, page_info: Option<&'a serde_json::Value> },
}

impl<'a> Located<'a> {
    /// The place that was found.
    pub open spec fn place(self) -> Place {
        match self {
            Located::NotAnObject => Place::NotAnObject,
            Located::NoListing => Place::NoListing,
            Located::Listing { nodes, page_info } => Place::Listing {
                nodes: match nodes {
                    Some(v) => Some(*v),
                    None => None,
                },
                page_info: match page_info {
                    Some(v) => Some(*v),
                    None => None,
                },
            },
        }
    }
}

impl Gh {
    /// Fetch projects with gh cli: finds the listing of one kind of project
    /// in an answer.
    pub fn fetch_projects<'a>(answer: &'a serde_json::Value, kind: ProjectType) -> (r: Located<
        'a,
    >)
        ensures
            r.place() == place_of(*answer, kind),
    {
        if !is_object(answer) {
            return Located::NotAnObject;
        }
        let data = match object_member(answer, "data") {
            Some(data) => data,
            None => {
                return Located::NoListing;
            },
        };
        let user = match object_member(data, "user") {
            Some(user) => user,
            None => {
                return Located::NoListing;
            },
        };
        let listing = match object_member(user, kind.listing_name()) {
            Some(listing) => listing,
            None => {
                return Located::NoListing;
            },
        };
        Located::Listing {
            nodes: member(listing, "nodes"),
            page_info: member(listing, "pageInfo"),
        }
    }
}

} // verus!
