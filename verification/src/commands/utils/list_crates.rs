//! The list of the crates that a user has published, as JSON or as a page
//! in markdown.

use vstd::prelude::*;
use vstd::string::*;

use crate::commands::utils::types::{CrateData, CrateInfo, CrateInnerData, UserResponse};
use crate::errors::{GeneralError, GeneralErrorView};
use crate::text::{
    begins_with, decimal, decimal_string, signed_decimal, signed_decimal_string, same_text, split,
    split_on, starts_with, texts, trim, trimmed,
};
use crate::utils::{
    lowercase, markdown_table, output_for, table_to_markdown_table, to_lowercase, Output,
};

verus! {

/// Get user agent
pub fn get_user_agent() -> (r: String)
    ensures
        r@ == "n4n5 (https://github.com/Its-Just-Nans/n4n5)"@,
{
    String::from_str("n4n5 (https://github.com/Its-Just-Nans/n4n5)")
}

/// Get default output file
pub fn get_default_output_file() -> (r: String)
    ensures
        r@ == "list.json"@,
{
    String::from_str("list.json")
}

/// The number of crates that one page of the registry holds.
pub const PER_PAGE: usize = 50;

/// The options of the listing.
#[derive(Clone, Debug, PartialEq)]
pub struct UtilsListCrates {
    /// Specify username
    pub username: String,
    /// Specify user agent
    pub user_agent: String,
    /// Output filename
    pub output_file: String,
    /// Request delay, in milliseconds
    pub delay: u64,
    /// Full crates info
    pub full: bool,
    /// Output markdown
    pub markdown: bool,
    /// Set the crates apart that are special or still to come
    pub filtered: bool,
    /// The names of the special crates, with commas between them
    pub specials: Option<String>,
}

/// What is listed.
#[derive(Clone, Copy, PartialEq, Eq, Structural, Debug)]
pub enum Listing {
    /// The names of the crates, as JSON
    Names,
    /// The data of the crates, as JSON
    Details,
    /// The page in markdown
    Markdown,
}

/// What is listed for the given flags: the names unless the full data are
/// asked for, and of the full data the page only where markdown is asked
/// for.
pub open spec fn listing(full: bool, markdown: bool) -> Listing {
    if !full {
        Listing::Names
    } else if !markdown {
        Listing::Details
    } else {
        Listing::Markdown
    }
}

/// Where a listing goes and what is reported of it.
#[derive(Clone, Debug, PartialEq)]
pub struct Delivery {
    /// Where the listing goes
    pub output: Output,
    /// Whether a line break follows the listing on the standard output
    pub line_break: bool,
    /// The line that reports the file, where there is one
    pub message: Option<String>,
}

/// The file that a listing is written to: the output file, but the page in
/// markdown goes to `README.md` where the output file is left at its
/// default.
pub open spec fn listing_file(output_file: Seq<char>, kind: Listing) -> Seq<char> {
    if kind == Listing::Markdown && output_file == "list.json"@ {
        "README.md"@
    } else {
        output_file
    }
}

/// Whether a delivery is the one for an output file and a kind of listing:
/// a dash sends the listing to the standard output; anything else names the
/// file, which is reported.
pub open spec fn is_delivery(output_file: Seq<char>, kind: Listing, d: Delivery) -> bool {
    &&& d.line_break == (kind != Listing::Markdown)
    &&& if output_file == "-"@ {
        d.output is Stdout && d.message is None
    } else {
        &&& d.output matches Output::File(path)
        &&& path@ == listing_file(output_file, kind)
        &&& d.message matches Some(line)
        &&& line@ == "Written to "@ + listing_file(output_file, kind)
    }
}

/// One row of the page: a crate.
#[derive(Clone, Debug, PartialEq)]
pub struct CrateRow {
    /// The name of the crate
    pub name: String,
    /// The name as a link to the registry
    pub link: String,
    /// The description
    pub description: String,
    /// The home page, the repository and the documentation
    pub links: String,
}

/// What a [`CrateRow`] holds.
pub struct CrateRowView {
    pub name: Seq<char>,
    pub link: Seq<char>,
    pub description: Seq<char>,
    pub links: Seq<char>,
}

impl View for CrateRow {
    type V = CrateRowView;

    open spec fn view(&self) -> CrateRowView {
        CrateRowView {
            name: self.name@,
            link: self.link@,
            description: self.description@,
            links: self.links@,
        }
    }
}

/// The rows of a list, in order.
pub open spec fn row_views(rows: Seq<CrateRow>) -> Seq<CrateRowView> {
    Seq::new(rows.len(), |i: int| rows[i]@)
}

/// A text between angle brackets, or `N/A` where there is none.
pub open spec fn bracketed(o: Option<Seq<char>>) -> Seq<char> {
    match o {
        Some(s) => "<"@ + s + ">"@,
        None => "N/A"@,
    }
}

/// The row of a crate.
pub open spec fn crate_row(
    name: Seq<char>,
    repository: Option<Seq<char>>,
    homepage: Option<Seq<char>>,
    documentation: Option<Seq<char>>,
    description: Option<Seq<char>>,
) -> CrateRowView {
    CrateRowView {
        name,
        link: "["@ + name + "](https://crates.io/crates/"@ + name + ")"@,
        description: match description {
            Some(d) => d,
            None => "N/A"@,
        },
        links: bracketed(homepage) + " <br/> "@ + bracketed(repository) + " <br/> "@ + bracketed(
            documentation,
        ),
    }
}

/// The part of the page that a crate belongs to.
#[derive(Clone, Copy, PartialEq, Eq, Structural, Debug)]
pub enum Group {
    /// The crates of the first table
    Main,
    /// The crates that are still to come
    Incoming,
    /// The special crates
    Others,
}

/// The names of the special crates: the parts of the option between its
/// commas, without the white space around them.
pub open spec fn special_names(specials: Option<Seq<char>>) -> Seq<Seq<char>> {
    match specials {
        Some(s) => {
            let parts = split_on(s, ',');
            Seq::new(parts.len(), |i: int| trimmed(parts[i]))
        },
        None => Seq::empty(),
    }
}

/// The part of the page that a row belongs to: the special crates are set
/// apart first, then those whose description begins with `incoming` in any
/// case.
pub open spec fn group_of(row: CrateRowView, specials: Seq<Seq<char>>) -> Group {
    if specials.contains(row.name) {
        Group::Others
    } else if begins_with(lowercase(row.description), "incoming"@) {
        Group::Incoming
    } else {
        Group::Main
    }
}

/// The cells of a row in a table.
pub open spec fn row_cells_of(row: CrateRowView) -> Seq<Seq<char>> {
    seq![row.link, row.description, row.links]
}

/// The rows of one part of the page, as rows of a table, in order.
pub open spec fn group_rows(rows: Seq<CrateRowView>, specials: Seq<Seq<char>>, g: Group) -> Seq<
    Seq<Seq<char>>,
>
    decreases rows.len(),
{
    if rows.len() == 0 {
        Seq::empty()
    } else {
        let rest = group_rows(rows.drop_last(), specials, g);
        if group_of(rows.last(), specials) == g {
            rest.push(row_cells_of(rows.last()))
        } else {
            rest
        }
    }
}

/// The header of a table of crates.
pub open spec fn header_cells() -> Seq<Seq<char>> {
    seq!["Crate"@, "Description"@, "Homepage && Repo"@]
}

/// A table of crates: the header and the rows.
pub open spec fn crates_table(body: Seq<Seq<Seq<char>>>) -> Seq<char> {
    markdown_table(seq![header_cells()] + body, 3)
}

/// A part of the page below the first: its title and its table, or nothing
/// where it has no row.
pub open spec fn titled_table(title: Seq<char>, body: Seq<Seq<Seq<char>>>) -> Seq<char> {
    if body.len() == 0 {
        Seq::empty()
    } else {
        title + crates_table(body)
    }
}

/// The tables of the page.
pub open spec fn crates_tables(rows: Seq<CrateRowView>, specials: Seq<Seq<char>>) -> Seq<char> {
    crates_table(group_rows(rows, specials, Group::Main)) + titled_table(
        "\n## Incoming\n\n"@,
        group_rows(rows, specials, Group::Incoming),
    ) + titled_table("\n## Others\n\n"@, group_rows(rows, specials, Group::Others))
}

/// The page: its title, the link to the user, and the tables.
pub open spec fn crates_page(username: Seq<char>, tables: Seq<char>) -> Seq<char> {
    "# crates\n\n- <https://crates.io/users/"@ + username + ">\n\n## Crates\n\n"@ + tables
}

fn bracket(o: &Option<String>) -> (r: String)
    ensures
        r@ == bracketed(crate::text::opt_text(*o)),
{
    match o {
        Some(s) => {
            let mut out = String::from_str("<");
            out.append(s.as_str());
            out.append(">");
            out
        },
        None => String::from_str("N/A"),
    }
}

fn contains_text(list: &Vec<String>, s: &str) -> (r: bool)
    ensures
        r == texts(list@).contains(s@),
{
    let mut i: usize = 0;
    while i < list.len()
        invariant
            i <= list.len(),
            forall|k: int| 0 <= k < i ==> list[k]@ != s@,
        decreases list.len() - i,
    {
        if same_text(list[i].as_str(), s) {
            assert(texts(list@)[i as int] == s@);
            return true;
        }
        i += 1;
    }
    assert forall|k: int| 0 <= k < texts(list@).len() implies texts(list@)[k] != s@ by {
        assert(texts(list@)[k] == list[k]@);
    }
    false
}

fn header_row() -> (r: Vec<String>)
    ensures
        texts(r@) == header_cells(),
        r.len() == 3,
{
    let mut row: Vec<String> = Vec::new();
    row.push(String::from_str("Crate"));
    row.push(String::from_str("Description"));
    row.push(String::from_str("Homepage && Repo"));
    assert(texts(row@) =~= header_cells());
    row
}

/// The walk through the pages of the crates of a user.
#[derive(Clone, Debug, PartialEq)]
pub struct CratesPager {
    /// The number of the user at the registry
    pub user_id: i64,
    /// The page to ask for next
    pub page: u64,
    /// The names of the crates of the pages read so far
    pub all_crates: Vec<String>,
}

/// The address that tells the number of a user.
pub open spec fn user_url(username: Seq<char>) -> Seq<char> {
    "https://crates.io/api/v1/users/"@ + username
}

/// The address of one page of the crates of a user.
pub open spec fn page_url(user_id: int, page: nat) -> Seq<char> {
    "https://crates.io/api/v1/crates?user_id="@ + signed_decimal(user_id) + "&page="@ + decimal(
        page,
    ) + "&per_page=50"@
}

/// The address of the data of one crate.
pub open spec fn crate_url(name: Seq<char>) -> Seq<char> {
    "https://crates.io/api/v1/crates/"@ + name
}

/// The error for a user that the registry does not know.
pub open spec fn user_not_found(username: Seq<char>) -> GeneralErrorView {
    GeneralErrorView {
        message: "User '"@ + username + "' not found on crates.io."@,
        source: None,
    }
}

/// The line that announces the walk.
pub open spec fn fetching_line(username: Seq<char>, user_id: int) -> Seq<char> {
    "Fetching crates for user '"@ + username + "' (ID: "@ + signed_decimal(user_id) + ")..."@
}

/// The line that reports the end of the walk.
pub open spec fn found_line(count: nat) -> Seq<char> {
    "Found "@ + decimal(count) + " crates"@
}

/// The names of the crates of a page, in order.
pub open spec fn crate_names(crates: Seq<CrateInfo>) -> Seq<Seq<char>> {
    Seq::new(crates.len(), |i: int| crates[i].id@)
}

impl CratesPager {
    /// The address of the page to ask for next.
    pub fn next_url(&self) -> (r: String)
        ensures
            r@ == page_url(self.user_id as int, self.page as nat),
    {
        let mut out = String::from_str("https://crates.io/api/v1/crates?user_id=");
        let id = signed_decimal_string(self.user_id);
        out.append(id.as_str());
        out.append("&page=");
        let page = decimal_string(self.page);
        out.append(page.as_str());
        out.append("&per_page=50");
        out
    }

    /// Takes a page: the names of its crates follow those already read. The
    /// result says whether another page is to be asked for, which is so
    /// after a full page as long as pages can still be counted; the page
    /// number then goes up by one.
    pub fn on_page(&mut self, crates: Vec<CrateInfo>) -> (more: bool)
        ensures
            texts(final(self).all_crates@) == texts(old(self).all_crates@) + crate_names(crates@),
            final(self).user_id == old(self).user_id,
            more == (crates.len() >= PER_PAGE && old(self).page < u64::MAX),
            final(self).page == if more {
                (old(self).page + 1) as u64
            } else {
                old(self).page
            },
    {
        let ghost before = texts(self.all_crates@);
        let mut i: usize = 0;
        assert(crate_names(crates@).take(0) =~= Seq::<Seq<char>>::empty());
        assert(texts(self.all_crates@) =~= before + crate_names(crates@).take(0));
        while i < crates.len()
            invariant
                i <= crates.len(),
                self.user_id == old(self).user_id,
                self.page == old(self).page,
                texts(self.all_crates@) == before + crate_names(crates@).take(i as int),
            decreases crates.len() - i,
        {
            let ghost shown = texts(self.all_crates@);
            self.all_crates.push(crates[i].id.clone());
            assert(texts(self.all_crates@) =~= shown.push(crates[i as int].id@));
            assert(crate_names(crates@).take(i + 1) =~= crate_names(crates@).take(i as int).push(
                crates[i as int].id@,
            ));
            i += 1;
            assert(texts(self.all_crates@) =~= before + crate_names(crates@).take(i as int));
        }
        assert(crate_names(crates@).take(crates.len() as int) =~= crate_names(crates@));
        if crates.len() >= PER_PAGE && self.page < u64::MAX {
            self.page = self.page + 1;
            true
        } else {
            false
        }
    }
}

/// The crates whose data came, in the order of the answers: a crate whose
/// data could not be fetched is left out.
pub open spec fn kept_crates(answers: Seq<Result<CrateData, String>>) -> Seq<CrateData>
    decreases answers.len(),
{
    if answers.len() == 0 {
        Seq::empty()
    } else {
        let before = kept_crates(answers.drop_last());
        match answers.last() {
            Ok(data) => before.push(data),
            Err(_) => before,
        }
    }
}

/// The warning for a crate whose data could not be fetched.
pub open spec fn fetch_warning(cause: Seq<char>) -> Seq<char> {
    "Error fetching crate: "@ + cause
}

/// The warnings for the crates whose data could not be fetched, in the
/// order of the answers.
pub open spec fn fetch_warnings(answers: Seq<Result<CrateData, String>>) -> Seq<Seq<char>>
    decreases answers.len(),
{
    if answers.len() == 0 {
        Seq::empty()
    } else {
        let before = fetch_warnings(answers.drop_last());
        match answers.last() {
            Ok(_) => before,
            Err(cause) => before.push(fetch_warning(cause@)),
        }
    }
}

/// What is left of the answers for the crates of a user: the data that
/// came, and a warning for each crate whose data did not.
#[derive(Clone, Debug, PartialEq)]
pub struct Fetched {
    /// The data of the crates that were fetched
    pub crates: Vec<CrateData>,
    /// The warnings to print
    pub warnings: Vec<String>,
}

impl UtilsListCrates {
    /// Goes through the answers for the crates of a user: a crate whose
    /// data could not be fetched is left out with a warning, and the
    /// listing goes on with the others. Each answer is the data of a crate
    /// or the reason why they could not be fetched.
    pub fn keep_fetched(answers: Vec<Result<CrateData, String>>) -> (r: Fetched)
        ensures
            r.crates@ == kept_crates(answers@),
            texts(r.warnings@) == fetch_warnings(answers@),
    {
        let ghost source = answers@;
        let mut answers = answers;
        let mut waiting: Vec<Result<CrateData, String>> = Vec::new();
        // The answers are taken from the back, so they wait in reverse.
        while answers.len() > 0
            invariant
                answers@ == source.take(answers.len() as int),
                answers.len() <= source.len(),
                waiting.len() == source.len() - answers.len(),
                forall|k: int|
                    0 <= k < waiting.len() ==> waiting[k] == source[source.len() - 1 - k],
            decreases answers.len(),
        {
            let ghost n = answers.len();
            let answer = answers.pop();
            match answer {
                Some(answer) => {
                    waiting.push(answer);
                },
                None => {},
            }
            assert(answers@ =~= source.take(n - 1));
        }
        let mut crates: Vec<CrateData> = Vec::new();
        let mut warnings: Vec<String> = Vec::new();
        assert(source.take(0) =~= Seq::empty());
        while waiting.len() > 0
            invariant
                waiting.len() <= source.len(),
                forall|k: int|
                    0 <= k < waiting.len() ==> waiting[k] == source[source.len() - 1 - k],
                crates@ == kept_crates(source.take(source.len() - waiting.len())),
                texts(warnings@) == fetch_warnings(source.take(source.len() - waiting.len())),
            decreases waiting.len(),
        {
            let ghost at = source.len() - waiting.len();
            let ghost shown = texts(warnings@);
            let answer = waiting.pop();
            assert(source.take(at + 1).drop_last() =~= source.take(at));
            assert(source.take(at + 1).last() == source[at]);
            match answer {
                Some(Ok(data)) => {
                    crates.push(data);
                },
                Some(Err(cause)) => {
                    let mut warning = String::from_str("Error fetching crate: ");
                    warning.append(cause.as_str());
                    warnings.push(warning);
                    assert(texts(warnings@) =~= shown.push(fetch_warning(cause@)));
                },
                None => {},
            }
        }
        assert(source.take(source.len() as int) =~= source);
        Fetched { crates, warnings }
    }
}

impl UtilsListCrates {
    /// The address that tells the number of the user.
    pub fn user_url_text(&self) -> (r: String)
        ensures
            r@ == user_url(self.username@),
    {
        let mut out = String::from_str("https://crates.io/api/v1/users/");
        out.append(self.username.as_str());
        out
    }

    /// Get all crates name: the walk begins once the registry has told the
    /// number of the user, at the first page and with no crate; a user that
    /// the registry does not know is an error.
    pub fn get_all_crates(&self, user_res: UserResponse) -> (r: Result<CratesPager, GeneralError>)
        ensures
            match user_res.user {
                Some(user) => r matches Ok(pager) && pager.user_id == user.id && pager.page == 1
                    && pager.all_crates@ == Seq::<String>::empty(),
                None => r matches Err(e) && e@ == user_not_found(self.username@),
            },
    {
        match user_res.user {
            Some(user) => Ok(CratesPager { user_id: user.id, page: 1, all_crates: Vec::new() }),
            None => {
                let mut message = String::from_str("User '");
                message.append(self.username.as_str());
                message.append("' not found on crates.io.");
                Err(GeneralError::from(message))
            },
        }
    }

    /// The line that announces the walk.
    pub fn fetching_text(&self, user_id: i64) -> (r: String)
        ensures
            r@ == fetching_line(self.username@, user_id as int),
    {
        let mut out = String::from_str("Fetching crates for user '");
        out.append(self.username.as_str());
        out.append("' (ID: ");
        let id = signed_decimal_string(user_id);
        out.append(id.as_str());
        out.append(")...");
        out
    }

    /// The line that reports the end of the walk.
    pub fn found_text(count: usize) -> (r: String)
        ensures
            r@ == found_line(count as nat),
    {
        let mut out = String::from_str("Found ");
        let number = decimal_string(count as u64);
        out.append(number.as_str());
        out.append(" crates");
        out
    }

    /// The address of the data of one crate.
    pub fn get_one_crate(crate_name: &str) -> (r: String)
        ensures
            r@ == crate_url(crate_name@),
    {
        let mut out = String::from_str("https://crates.io/api/v1/crates/");
        out.append(crate_name);
        out
    }

    /// Whether the progress of the listing is reported: not where the
    /// listing itself goes to the standard output.
    pub fn verbose(&self) -> (r: bool)
        ensures
            r == (self.output_file@ != "-"@),
    {
        !same_text(self.output_file.as_str(), "-")
    }

    /// What is listed.
    pub fn list_crates(&self) -> (kind: Listing)
        ensures
            kind == listing(self.full, self.markdown),
    {
        if !self.full {
            Listing::Names
        } else if !self.markdown {
            Listing::Details
        } else {
            Listing::Markdown
        }
    }

    /// Where a listing of a kind goes and what is reported of it.
    pub fn delivery(&self, kind: Listing) -> (d: Delivery)
        ensures
            is_delivery(self.output_file@, kind, d),
    {
        let line_break = match kind {
            Listing::Markdown => false,
            _ => true,
        };
        match output_for(self.output_file.as_str()) {
            Output::Stdout => Delivery { output: Output::Stdout, line_break, message: None },
            Output::File(path) => {
                let to_readme = match kind {
                    Listing::Markdown => same_text(path.as_str(), "list.json"),
                    _ => false,
                };
                let file = if to_readme {
                    String::from_str("README.md")
                } else {
                    path
                };
                let mut message = String::from_str("Written to ");
                message.append(file.as_str());
                Delivery { output: Output::File(file), line_break, message: Some(message) }
            },
        }
    }

    /// The row of a crate in the page.
    pub fn row(data: &CrateInnerData) -> (r: CrateRow)
        ensures
            r@ == crate_row(
                data.name@,
                crate::text::opt_text(data.repository),
                crate::text::opt_text(data.homepage),
                crate::text::opt_text(data.documentation),
                crate::text::opt_text(data.description),
            ),
    {
        let mut link = String::from_str("[");
        link.append(data.name.as_str());
        link.append("](https://crates.io/crates/");
        link.append(data.name.as_str());
        link.append(")");
        let description = match &data.description {
            Some(d) => d.clone(),
            None => String::from_str("N/A"),
        };
        let mut links = bracket(&data.homepage);
        links.append(" <br/> ");
        let repository = bracket(&data.repository);
        links.append(repository.as_str());
        links.append(" <br/> ");
        let documentation = bracket(&data.documentation);
        links.append(documentation.as_str());
        CrateRow { name: data.name.clone(), link, description, links }
    }

    /// The names of the special crates.
    pub fn special_crates(&self) -> (names: Vec<String>)
        ensures
            texts(names@) == special_names(crate::text::opt_text(self.specials)),
    {
        let mut names: Vec<String> = Vec::new();
        match &self.specials {
            Some(list) => {
                let parts = split(list.as_str(), ',');
                let mut i: usize = 0;
                while i < parts.len()
                    invariant
                        i <= parts.len(),
                        names.len() == i,
                        forall|k: int| 0 <= k < i ==> names[k]@ == trimmed(parts[k]@),
                    decreases parts.len() - i,
                {
                    names.push(String::from_str(trim(parts[i].as_str())));
                    i += 1;
                }
                assert(texts(names@) =~= special_names(Some(list@)));
            },
            None => {
                assert(texts(names@) =~= special_names(None));
            },
        }
        names
    }

    /// Format a table of crates to markdown. No row may have more than
    /// three cells.
    pub fn format_table(table: &Vec<Vec<String>>) -> (r: String)
        requires
            forall|i: int| 0 <= i < table.len() ==> table[i].len() <= 3,
        ensures
            r@ == markdown_table(crate::utils::table_texts(table@), 3),
    {
        table_to_markdown_table(table, 3)
    }

    /// Generate markdown tables as string: the first table, then the crates
    /// that are still to come and the special crates, each under its title
    /// where there are any. Rows can only be given where the crates are set
    /// apart.
    pub fn generate_markdown_table(&self, rows: &Vec<CrateRow>) -> (r: String)
        requires
            self.filtered || rows.len() == 0,
        ensures
            r@ == crates_tables(
                row_views(rows@),
                special_names(crate::text::opt_text(self.specials)),
            ),
    {
        let specials = self.special_crates();
        let ghost names = texts(specials@);
        let ghost all = row_views(rows@);
        let mut table1: Vec<Vec<String>> = Vec::new();
        let mut table2: Vec<Vec<String>> = Vec::new();
        let mut table3: Vec<Vec<String>> = Vec::new();
        table1.push(header_row());
        table2.push(header_row());
        table3.push(header_row());
        let ghost head = seq![header_cells()];
        assert(crate::utils::table_texts(table1@) =~= head + group_rows(
            all.take(0),
            names,
            Group::Main,
        ));
        assert(crate::utils::table_texts(table2@) =~= head + group_rows(
            all.take(0),
            names,
            Group::Incoming,
        ));
        assert(crate::utils::table_texts(table3@) =~= head + group_rows(
            all.take(0),
            names,
            Group::Others,
        ));
        let mut i: usize = 0;
        while i < rows.len()
            invariant
                i <= rows.len(),
                all == row_views(rows@),
                names == texts(specials@),
                head == seq![header_cells()],
                crate::utils::table_texts(table1@) == head + group_rows(
                    all.take(i as int),
                    names,
                    Group::Main,
                ),
                crate::utils::table_texts(table2@) == head + group_rows(
                    all.take(i as int),
                    names,
                    Group::Incoming,
                ),
                crate::utils::table_texts(table3@) == head + group_rows(
                    all.take(i as int),
                    names,
                    Group::Others,
                ),
                forall|k: int| 0 <= k < table1.len() ==> (#[trigger] table1[k]).len() == 3,
                forall|k: int| 0 <= k < table2.len() ==> (#[trigger] table2[k]).len() == 3,
                forall|k: int| 0 <= k < table3.len() ==> (#[trigger] table3[k]).len() == 3,
            decreases rows.len() - i,
        {
            let row = &rows[i];
            let ghost t1 = crate::utils::table_texts(table1@);
            let ghost t2 = crate::utils::table_texts(table2@);
            let ghost t3 = crate::utils::table_texts(table3@);
            proof {
                assert(all.take(i + 1).drop_last() =~= all.take(i as int));
                assert(all.take(i + 1).last() == row@);
            }
            let mut cells: Vec<String> = Vec::new();
            cells.push(row.link.clone());
            cells.push(row.description.clone());
            cells.push(row.links.clone());
            assert(texts(cells@) =~= row_cells_of(row@));
            if contains_text(&specials, row.name.as_str()) {
                table3.push(cells);
                assert(crate::utils::table_texts(table3@) =~= t3.push(row_cells_of(row@)));
            } else {
                let lowered = to_lowercase(row.description.as_str());
                if starts_with(lowered.as_str(), "incoming") {
                    table2.push(cells);
                    assert(crate::utils::table_texts(table2@) =~= t2.push(row_cells_of(row@)));
                } else {
                    table1.push(cells);
                    assert(crate::utils::table_texts(table1@) =~= t1.push(row_cells_of(row@)));
                }
            }
            i += 1;
            assert(crate::utils::table_texts(table1@) =~= head + group_rows(
                all.take(i as int),
                names,
                Group::Main,
            ));
            assert(crate::utils::table_texts(table2@) =~= head + group_rows(
                all.take(i as int),
                names,
                Group::Incoming,
            ));
            assert(crate::utils::table_texts(table3@) =~= head + group_rows(
                all.take(i as int),
                names,
                Group::Others,
            ));
        }
        assert(all.take(rows.len() as int) =~= all);
        let mut buf = UtilsListCrates::format_table(&table1);
        if table2.len() > 1 {
            buf.append("\n## Incoming\n\n");
            let text = UtilsListCrates::format_table(&table2);
            buf.append(text.as_str());
        }
        let ghost middle = buf@;
        assert(middle =~= crates_table(group_rows(all, names, Group::Main)) + titled_table(
            "\n## Incoming\n\n"@,
            group_rows(all, names, Group::Incoming),
        ));
        if table3.len() > 1 {
            buf.append("\n## Others\n\n");
            let text = UtilsListCrates::format_table(&table3);
            buf.append(text.as_str());
        }
        assert(buf@ =~= middle + titled_table(
            "\n## Others\n\n"@,
            group_rows(all, names, Group::Others),
        ));
        buf
    }

    /// The page for the tables.
    pub fn page(&self, tables: &str) -> (r: String)
        ensures
            r@ == crates_page(self.username@, tables@),
    {
        let mut buf = String::from_str("# crates\n\n- <https://crates.io/users/");
        buf.append(self.username.as_str());
        buf.append(">\n\n## Crates\n\n");
        buf.append(tables);
        buf
    }
}

} // verus!
