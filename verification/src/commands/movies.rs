//! The personal movie list: display, order by note, statistics and the
//! public summary by date.

use vstd::prelude::*;
use vstd::string::*;
use vstd::utf8::encode_utf8;

use crate::commands::config::{open_plan, open_plan_for, OpenPlan};
use crate::config::Config;
use crate::errors::{GeneralError, GeneralErrorView};
use crate::json::{counts_document, counts_json, counts_text};
use crate::order::{is_stable_order, stable_order, Ranked};
use crate::paths::{is_lookup, resolve_required_path, Lookup, PathSetting};
use crate::text::{decimal, decimal_string, opt_text, parse_u64, parsed_u64};

verus! {

/// Movies configuration
#[derive(Clone, Debug, PartialEq)]
pub struct Movies {
    /// Path to the movies file
    pub file_path: Option<String>,
    /// public path to the movies file
    pub public_file_path: Option<String>,
}

/// What a [`Movies`] section holds.
pub struct MoviesView {
    pub file_path: Option<Seq<char>>,
    pub public_file_path: Option<Seq<char>>,
}

impl View for Movies {
    type V = MoviesView;

    open spec fn view(&self) -> MoviesView {
        MoviesView {
            file_path: opt_text(self.file_path),
            public_file_path: opt_text(self.public_file_path),
        }
    }
}

impl MoviesView {
    /// The section with nothing set.
    pub open spec fn empty() -> MoviesView {
        MoviesView { file_path: None, public_file_path: None }
    }
}

impl Default for Movies {
    fn default() -> (r: Movies)
        ensures
            r@ == MoviesView::empty(),
    {
        Movies { file_path: None, public_file_path: None }
    }
}

/// Display mode
#[derive(Clone, Copy, PartialEq, Eq, Structural, Debug)]
pub enum DisplayMode {
    /// Short display
    Short,
    /// Display with comment
    Comment,
    /// Full display
    Full,
}

/// The note given to a movie: a double-precision number, held as its bit
/// pattern, together with the text that shows it.
#[derive(Clone, Debug, PartialEq)]
pub struct Note {
    /// The bit pattern of the number
    pub bits: u64,
    /// The number as it is displayed
    pub text: String,
}

/// Movie data
#[derive(Clone, Debug, PartialEq)]
pub struct OneMovie {
    /// Movie title
    pub title: String,
    /// Movie note
    pub note: Note,
    /// Movie publication date
    pub date: u64,
    /// Comment about the movie
    pub comment: String,
    /// Seen date
    pub seen: Option<String>,
    /// Summary of the movie
    pub summary: Option<String>,
}

/// What a [`OneMovie`] holds.
pub struct MovieView {
    pub title: Seq<char>,
    pub note_bits: u64,
    pub note_text: Seq<char>,
    pub date: u64,
    pub comment: Seq<char>,
    pub seen: Option<Seq<char>>,
    pub summary: Option<Seq<char>>,
}

impl View for OneMovie {
    type V = MovieView;

    open spec fn view(&self) -> MovieView {
        MovieView {
            title: self.title@,
            note_bits: self.note.bits,
            note_text: self.note.text@,
            date: self.date,
            comment: self.comment@,
            seen: opt_text(self.seen),
            summary: opt_text(self.summary),
        }
    }
}

/// All movies data
#[derive(Clone, Debug, PartialEq)]
pub struct AllMovies {
    /// List of movies
    pub movies: Vec<OneMovie>,
}

impl View for AllMovies {
    type V = Seq<MovieView>;

    open spec fn view(&self) -> Seq<MovieView> {
        Seq::new(self.movies.len() as nat, |i: int| self.movies[i]@)
    }
}

/// A text, or the empty text where there is none.
pub open spec fn text_or_empty(o: Option<Seq<char>>) -> Seq<char> {
    match o {
        Some(s) => s,
        None => Seq::empty(),
    }
}

/// The short line of a movie: note, title and date.
pub open spec fn short_line(m: MovieView) -> Seq<char> {
    m.note_text + " - "@ + m.title + " ("@ + decimal(m.date as nat) + ") "@
}

/// The line of a movie with its comment.
pub open spec fn comment_line(m: MovieView) -> Seq<char> {
    m.note_text + " - "@ + m.title + " ("@ + decimal(m.date as nat) + ") - "@ + m.comment
}

/// The full text of a movie: a line with the date it was seen and the
/// comment, and the summary below it.
pub open spec fn full_text(m: MovieView) -> Seq<char> {
    m.note_text + " - "@ + m.title + " ("@ + decimal(m.date as nat) + ") - "@ + text_or_empty(
        m.seen,
    ) + " - "@ + m.comment + "\n"@ + text_or_empty(m.summary)
}

/// What is printed, as one line, for a movie in a display mode. In the full
/// mode an empty line follows each movie.
pub open spec fn shown(m: MovieView, mode: DisplayMode) -> Seq<char> {
    match mode {
        DisplayMode::Short => short_line(m),
        DisplayMode::Comment => comment_line(m),
        DisplayMode::Full => full_text(m) + "\n"@,
    }
}

impl OneMovie {
    fn head(&self) -> (r: String)
        ensures
            r@ == self@.note_text + " - "@ + self@.title + " ("@ + decimal(self.date as nat),
    {
        let mut out = String::from_str(self.note.text.as_str());
        out.append(" - ");
        out.append(self.title.as_str());
        out.append(" (");
        let date = decimal_string(self.date);
        out.append(date.as_str());
        out
    }

    /// Display the movie
    pub fn display(&self) -> (r: String)
        ensures
            r@ == short_line(self@),
    {
        let mut out = self.head();
        out.append(") ");
        out
    }

    /// Display the movie with comment
    pub fn display_comment(&self) -> (r: String)
        ensures
            r@ == comment_line(self@),
    {
        let mut out = self.head();
        out.append(") - ");
        out.append(self.comment.as_str());
        out
    }

    /// Display the full movie
    pub fn display_full(&self) -> (r: String)
        ensures
            r@ == full_text(self@),
    {
        let mut out = self.head();
        out.append(") - ");
        match &self.seen {
            Some(seen) => {
                out.append(seen.as_str());
            },
            None => {
                assert(out@ + Seq::<char>::empty() =~= out@);
            },
        }
        out.append(" - ");
        out.append(self.comment.as_str());
        out.append("\n");
        match &self.summary {
            Some(summary) => {
                out.append(summary.as_str());
            },
            None => {
                assert(out@ + Seq::<char>::empty() =~= out@);
            },
        }
        out
    }

    /// What is printed, as one line, for the movie in a display mode.
    pub fn display_as(&self, mode: DisplayMode) -> (r: String)
        ensures
            r@ == shown(self@, mode),
    {
        match mode {
            DisplayMode::Short => self.display(),
            DisplayMode::Comment => self.display_comment(),
            DisplayMode::Full => {
                let mut out = self.display_full();
                out.append("\n");
                out
            },
        }
    }
}

impl AllMovies {
    /// Display the movies: what to print, one line for each movie, in the
    /// order of the list.
    pub fn display(&self, mode: DisplayMode) -> (lines: Vec<String>)
        ensures
            lines.len() == self.movies.len(),
            forall|i: int| 0 <= i < lines.len() ==> lines[i]@ == shown(self@[i], mode),
    {
        let mut lines: Vec<String> = Vec::new();
        let mut i: usize = 0;
        while i < self.movies.len()
            invariant
                i <= self.movies.len(),
                lines.len() == i,
                forall|k: int| 0 <= k < i ==> lines[k]@ == shown(self@[k], mode),
            decreases self.movies.len() - i,
        {
            lines.push(self.movies[i].display_as(mode));
            i += 1;
        }
        lines
    }
}

/// The sign bit of a double-precision number.
pub const SIGN_BIT: u64 = 0x8000_0000_0000_0000;

/// The bits of a double-precision number that hold its magnitude.
pub const MAGNITUDE_BITS: u64 = 0x7fff_ffff_ffff_ffff;

/// The magnitude of infinity; a greater magnitude is no number.
pub const INFINITY_BITS: u64 = 0x7ff0_0000_0000_0000;

/// The place of a note on the number line, from its bit pattern: notes
/// compare as their ranks do. Both zeros have rank zero. What is not a
/// number ranks above every number.
pub open spec fn note_rank(bits: u64) -> int {
    let magnitude = bits & MAGNITUDE_BITS;
    if magnitude > INFINITY_BITS {
        0x8000_0000_0000_0000
    } else if bits & SIGN_BIT != 0 {
        -(magnitude as int)
    } else {
        magnitude as int
    }
}

/// The rank by which a note is ordered: its place on the number line, or the
/// opposite of it where the greatest note comes first.
pub open spec fn ordering_rank(bits: u64, reverse: bool) -> int {
    if reverse {
        -note_rank(bits)
    } else {
        note_rank(bits)
    }
}

/// The key by which a movie is ordered.
#[derive(Clone, Debug, PartialEq)]
pub struct NoteKey {
    /// The rank of the note
    pub rank: i128,
}

impl Ranked for NoteKey {
    open spec fn not_after(&self, other: &Self) -> bool {
        self.rank <= other.rank
    }

    fn is_not_after(&self, other: &Self) -> (r: bool) {
        self.rank <= other.rank
    }

    proof fn lemma_total(a: &Self, b: &Self) {
    }

    proof fn lemma_transitive(a: &Self, b: &Self, c: &Self) {
    }
}

impl Note {
    /// The key by which the note is ordered, ascending or, in reverse,
    /// descending.
    pub fn key(&self, reverse: bool) -> (k: NoteKey)
        ensures
            k.rank == ordering_rank(self.bits, reverse),
    {
        let magnitude: u64 = self.bits & MAGNITUDE_BITS;
        let rank: i128 = if magnitude > INFINITY_BITS {
            0x8000_0000_0000_0000
        } else if self.bits & SIGN_BIT != 0 {
            -(magnitude as i128)
        } else {
            magnitude as i128
        };
        if reverse {
            NoteKey { rank: -rank }
        } else {
            NoteKey { rank }
        }
    }
}

/// The keys by which the movies of a list are ordered.
pub open spec fn note_keys(movies: Seq<MovieView>, reverse: bool) -> Seq<NoteKey> {
    Seq::new(movies.len(), |i: int| NoteKey { rank: ordering_rank(movies[i].note_bits, reverse) as i128 })
}

/// Whether `order` puts the movies by note: ascending, or descending in
/// reverse, movies with equal notes staying as they stand in the list.
pub open spec fn is_note_order(movies: Seq<MovieView>, reverse: bool, order: Seq<usize>) -> bool {
    is_stable_order(note_keys(movies, reverse), order)
}

impl AllMovies {
    /// The order of the movies by note: the position of the movie that comes
    /// first, then that of the second, and so on.
    pub fn sorted_order(&self, reverse: bool) -> (order: Vec<usize>)
        ensures
            is_note_order(self@, reverse, order@),
    {
        let mut keys: Vec<NoteKey> = Vec::new();
        let mut i: usize = 0;
        while i < self.movies.len()
            invariant
                i <= self.movies.len(),
                keys.len() == i,
                forall|k: int|
                    0 <= k < i ==> (#[trigger] keys[k]).rank == ordering_rank(
                        self@[k].note_bits,
                        reverse,
                    ),
            decreases self.movies.len() - i,
        {
            keys.push(self.movies[i].note.key(reverse));
            i += 1;
        }
        assert(keys@ =~= note_keys(self@, reverse));
        stable_order(&keys)
    }
}

/// Movies sub command
#[derive(Clone, Copy, PartialEq, Eq, Structural, Debug)]
pub enum MoviesSubCommand {
    /// add a movie
    Add,
    /// open movie file
    Open {
        /// print path of movies file
        show_path: bool,
    },
    /// Show stats of movies
    Stats {
        /// print stats as json
        print_json: bool,
    },
    /// Show movies list
    Show {
        /// reverse mode
        reverse: bool,
        /// show full mode
        show_full: bool,
        /// show comment
        show_comment: bool,
    },
    /// Sync movies file
    Sync {
        /// print as json
        print_json: bool,
    },
}

/// What a movies sub command asks for.
#[derive(Clone, Copy, PartialEq, Eq, Structural, Debug)]
pub enum MoviesAction {
    /// Ask for a movie and add it to the list
    Add,
    /// Open the movies file, or only print its path
    Open { show_path: bool },
    /// Print the movies by note
    Show { reverse: bool, mode: DisplayMode },
    /// Print the statistics
    Stats { print_json: bool },
    /// Write the public summary, or print it
    Sync { print_json: bool },
}

/// The display mode that the flags of `show` select: full before comment,
/// comment before short.
pub open spec fn selected_mode(show_comment: bool, show_full: bool) -> DisplayMode {
    if show_full {
        DisplayMode::Full
    } else if show_comment {
        DisplayMode::Comment
    } else {
        DisplayMode::Short
    }
}

impl MoviesSubCommand {
    /// What the sub command asks for.
    pub open spec fn action(self) -> MoviesAction {
        match self {
            MoviesSubCommand::Add => MoviesAction::Add,
            MoviesSubCommand::Open { show_path } => MoviesAction::Open { show_path },
            MoviesSubCommand::Stats { print_json } => MoviesAction::Stats { print_json },
            MoviesSubCommand::Show { reverse, show_full, show_comment } => MoviesAction::Show {
                reverse,
                mode: selected_mode(show_comment, show_full),
            },
            MoviesSubCommand::Sync { print_json } => MoviesAction::Sync { print_json },
        }
    }

    /// invoke subcommand
    pub fn invoke(self) -> (r: MoviesAction)
        ensures
            r == self.action(),
    {
        match self {
            MoviesSubCommand::Add => MoviesAction::Add,
            MoviesSubCommand::Open { show_path } => MoviesAction::Open { show_path },
            MoviesSubCommand::Stats { print_json } => MoviesAction::Stats { print_json },
            MoviesSubCommand::Show { reverse, show_full, show_comment } => {
                let mode = if show_full {
                    DisplayMode::Full
                } else if show_comment {
                    DisplayMode::Comment
                } else {
                    DisplayMode::Short
                };
                MoviesAction::Show { reverse, mode }
            },
            MoviesSubCommand::Sync { print_json } => MoviesAction::Sync { print_json },
        }
    }
}

/// The dates of the movies of a list, in order.
pub open spec fn movie_dates(movies: Seq<MovieView>) -> Seq<u64> {
    Seq::new(movies.len(), |i: int| movies[i].date)
}

/// How many of the dates are `d`.
pub open spec fn date_count(dates: Seq<u64>, d: u64) -> nat
    decreases dates.len(),
{
    if dates.len() == 0 {
        0
    } else {
        date_count(dates.drop_last(), d) + if dates.last() == d {
            1nat
        } else {
            0nat
        }
    }
}

/// Whether a date stands in a tally.
pub open spec fn tally_names(tally: Seq<(u64, u64)>, d: u64) -> bool {
    exists|i: int| 0 <= i < tally.len() && (#[trigger] tally[i]).0 == d
}

/// Whether `tally` counts the movies of each date: the dates ascend, each
/// date of the list stands once, and with it the number of its movies.
pub open spec fn is_date_tally(dates: Seq<u64>, tally: Seq<(u64, u64)>) -> bool {
    &&& forall|i: int, j: int|
        0 <= i < j < tally.len() ==> (#[trigger] tally[i]).0 < (#[trigger] tally[j]).0
    &&& forall|i: int|
        0 <= i < tally.len() ==> (#[trigger] tally[i]).1 > 0 && tally[i].1 == date_count(
            dates,
            tally[i].0,
        )
    &&& forall|k: int| 0 <= k < dates.len() ==> tally_names(tally, #[trigger] dates[k])
}

/// No date stands more often than there are dates.
pub proof fn lemma_date_count_bound(dates: Seq<u64>, d: u64)
    ensures
        date_count(dates, d) <= dates.len(),
    decreases dates.len(),
{
    if dates.len() > 0 {
        lemma_date_count_bound(dates.drop_last(), d);
    }
}

/// A date that is not among the dates is counted zero times.
pub proof fn lemma_date_count_absent(dates: Seq<u64>, d: u64)
    requires
        forall|k: int| 0 <= k < dates.len() ==> dates[k] != d,
    ensures
        date_count(dates, d) == 0,
    decreases dates.len(),
{
    if dates.len() > 0 {
        lemma_date_count_absent(dates.drop_last(), d);
    }
}

/// Two tallies whose dates ascend and that name the same dates are of one
/// length and name the same date at each place.
proof fn lemma_ascending_dates_agree(a: Seq<(u64, u64)>, b: Seq<(u64, u64)>)
    requires
        forall|i: int, j: int| 0 <= i < j < a.len() ==> (#[trigger] a[i]).0 < (#[trigger] a[j]).0,
        forall|i: int, j: int| 0 <= i < j < b.len() ==> (#[trigger] b[i]).0 < (#[trigger] b[j]).0,
        forall|i: int| 0 <= i < a.len() ==> tally_names(b, (#[trigger] a[i]).0),
        forall|i: int| 0 <= i < b.len() ==> tally_names(a, (#[trigger] b[i]).0),
    ensures
        a.len() == b.len(),
        forall|i: int| 0 <= i < a.len() ==> (#[trigger] a[i]).0 == b[i].0,
    decreases a.len(),
{
    if a.len() == 0 {
        if b.len() > 0 {
            assert(tally_names(a, b[0].0));
        }
    } else if b.len() == 0 {
        assert(tally_names(b, a[0].0));
    } else {
        let x = a.last();
        let y = b.last();
        assert(x == a[a.len() - 1]);
        assert(y == b[b.len() - 1]);
        assert(tally_names(b, x.0));
        assert(tally_names(a, y.0));
        let at_b = choose|j: int| 0 <= j < b.len() && (#[trigger] b[j]).0 == x.0;
        let at_a = choose|i: int| 0 <= i < a.len() && (#[trigger] a[i]).0 == y.0;
        assert(x.0 == y.0) by {
            if at_b < b.len() - 1 {
                assert(b[at_b].0 < b[b.len() - 1].0);
            }
            if at_a < a.len() - 1 {
                assert(a[at_a].0 < a[a.len() - 1].0);
            }
        }
        let a0 = a.drop_last();
        let b0 = b.drop_last();
        assert forall|i: int| 0 <= i < a0.len() implies tally_names(b0, (#[trigger] a0[i]).0) by {
            assert(a0[i] == a[i]);
            assert(a[i].0 < a[a.len() - 1].0);
            assert(tally_names(b, a[i].0));
            let j = choose|j: int| 0 <= j < b.len() && (#[trigger] b[j]).0 == a[i].0;
            assert(j < b.len() - 1);
            assert(b0[j] == b[j]);
        }
        assert forall|i: int| 0 <= i < b0.len() implies tally_names(a0, (#[trigger] b0[i]).0) by {
            assert(b0[i] == b[i]);
            assert(b[i].0 < b[b.len() - 1].0);
            assert(tally_names(a, b[i].0));
            let j = choose|j: int| 0 <= j < a.len() && (#[trigger] a[j]).0 == b[i].0;
            assert(j < a.len() - 1);
            assert(a0[j] == a[j]);
        }
        assert forall|i: int, j: int| 0 <= i < j < a0.len() implies (#[trigger] a0[i]).0 < (
        #[trigger] a0[j]).0 by {
            assert(a0[i] == a[i] && a0[j] == a[j]);
        }
        assert forall|i: int, j: int| 0 <= i < j < b0.len() implies (#[trigger] b0[i]).0 < (
        #[trigger] b0[j]).0 by {
            assert(b0[i] == b[i] && b0[j] == b[j]);
        }
        lemma_ascending_dates_agree(a0, b0);
        assert forall|i: int| 0 <= i < a.len() implies (#[trigger] a[i]).0 == b[i].0 by {
            if i < a.len() - 1 {
                assert(a0[i] == a[i] && b0[i] == b[i]);
            }
        }
    }
}

/// The dates of a list have one tally only.
pub proof fn lemma_date_tally_is_unique(dates: Seq<u64>, a: Seq<(u64, u64)>, b: Seq<(u64, u64)>)
    requires
        is_date_tally(dates, a),
        is_date_tally(dates, b),
    ensures
        a == b,
{
    assert forall|i: int| 0 <= i < a.len() implies tally_names(b, (#[trigger] a[i]).0) by {
        lemma_date_tally_names_dates(dates, a, i);
        let k = choose|k: int| 0 <= k < dates.len() && dates[k] == a[i].0;
        assert(tally_names(b, dates[k]));
    }
    assert forall|i: int| 0 <= i < b.len() implies tally_names(a, (#[trigger] b[i]).0) by {
        lemma_date_tally_names_dates(dates, b, i);
        let k = choose|k: int| 0 <= k < dates.len() && dates[k] == b[i].0;
        assert(tally_names(a, dates[k]));
    }
    lemma_ascending_dates_agree(a, b);
    assert forall|i: int| 0 <= i < a.len() implies a[i] == b[i] by {
        assert(a[i].0 == b[i].0);
        assert(a[i].1 == date_count(dates, a[i].0));
        assert(b[i].1 == date_count(dates, b[i].0));
    }
    assert(a =~= b);
}

/// A date that a tally names is one of the dates.
proof fn lemma_date_tally_names_dates(dates: Seq<u64>, tally: Seq<(u64, u64)>, i: int)
    requires
        is_date_tally(dates, tally),
        0 <= i < tally.len(),
    ensures
        exists|k: int| 0 <= k < dates.len() && dates[k] == tally[i].0,
{
    if forall|k: int| 0 <= k < dates.len() ==> dates[k] != tally[i].0 {
        lemma_date_count_absent(dates, tally[i].0);
        assert(tally[i].1 > 0);
    }
}

/// Whether `low` and `high` are the least and the greatest of the dates;
/// both are zero where there is no date.
pub open spec fn is_date_range(dates: Seq<u64>, low: u64, high: u64) -> bool {
    if dates.len() == 0 {
        low == 0 && high == 0
    } else {
        &&& exists|i: int| 0 <= i < dates.len() && (#[trigger] dates[i]) == low
        &&& exists|i: int| 0 <= i < dates.len() && (#[trigger] dates[i]) == high
        &&& forall|i: int| 0 <= i < dates.len() ==> low <= (#[trigger] dates[i]) <= high
    }
}

/// The statistics of a movie list that are whole numbers or taken from the
/// list as they stand.
#[derive(Clone, Debug, PartialEq)]
pub struct MovieStats {
    /// Number of movies
    pub movies: usize,
    /// The earliest publication date, zero for an empty list
    pub min_date: u64,
    /// The latest publication date, zero for an empty list
    pub max_date: u64,
    /// The bit pattern of the median note
    pub median_note: u64,
}

impl Movies {
    /// Get the movie path
    pub fn get_movie_path(config: &Config) -> (r: Lookup)
        ensures
            is_lookup(config@.config_data, PathSetting::MoviesFile, r),
    {
        resolve_required_path(config, PathSetting::MoviesFile)
    }

    /// Print the movies sorted by note: what to print, one line for each
    /// movie, the least note first or, in reverse, the greatest.
    pub fn print_sorted_movies(
        all_movies: &AllMovies,
        reverse: bool,
        show_comment: bool,
        show_full: bool,
    ) -> (lines: Vec<String>)
        ensures
            exists|order: Seq<usize>|
                {
                    &&& is_note_order(all_movies@, reverse, order)
                    &&& lines.len() == order.len()
                    &&& forall|i: int|
                        0 <= i < lines.len() ==> lines[i]@ == shown(
                            all_movies@[order[i] as int],
                            selected_mode(show_comment, show_full),
                        )
                },
    {
        let mode = if show_full {
            DisplayMode::Full
        } else if show_comment {
            DisplayMode::Comment
        } else {
            DisplayMode::Short
        };
        let order = all_movies.sorted_order(reverse);
        let mut lines: Vec<String> = Vec::new();
        let mut i: usize = 0;
        while i < order.len()
            invariant
                i <= order.len(),
                lines.len() == i,
                is_note_order(all_movies@, reverse, order@),
                forall|k: int|
                    0 <= k < i ==> lines[k]@ == shown(all_movies@[order[k] as int], mode),
            decreases order.len() - i,
        {
            assert(order@[i as int] < all_movies.movies.len());
            lines.push(all_movies.movies[order[i]].display_as(mode));
            i += 1;
        }
        lines
    }

    /// Group movies by date: each date of the list with the number of its
    /// movies, the earliest date first.
    pub fn group_movies_by_date(movies: &AllMovies) -> (tally: Vec<(u64, u64)>)
        ensures
            is_date_tally(movie_dates(movies@), tally@),
    {
        let ghost dates = movie_dates(movies@);
        let mut tally: Vec<(u64, u64)> = Vec::new();
        let mut k: usize = 0;
        while k < movies.movies.len()
            invariant
                k <= movies.movies.len(),
                dates == movie_dates(movies@),
                is_date_tally(dates.take(k as int), tally@),
            decreases movies.movies.len() - k,
        {
            let d = movies.movies[k].date;
            let ghost seen = dates.take(k as int);
            let ghost grown = dates.take(k + 1);
            let ghost before = tally@;
            proof {
                assert(grown.drop_last() =~= seen);
                assert(grown.last() == d);
                assert forall|e: u64| date_count(grown, e) == date_count(seen, e) + (if e == d {
                    1nat
                } else {
                    0nat
                }) by {}
            }
            let mut pos: usize = 0;
            while pos < tally.len() && tally[pos].0 < d
                invariant
                    pos <= tally.len(),
                    tally@ == before,
                    forall|i: int| 0 <= i < pos ==> (#[trigger] before[i]).0 < d,
                decreases tally.len() - pos,
            {
                pos += 1;
            }
            if pos < tally.len() && tally[pos].0 == d {
                let count = tally[pos].1;
                proof {
                    lemma_date_count_bound(seen, d);
                }
                tally.set(pos, (d, count + 1));
                proof {
                    let after = tally@;
                    assert forall|i: int, j: int| 0 <= i < j < after.len() implies (
                    #[trigger] after[i]).0 < (#[trigger] after[j]).0 by {
                        assert(before[i].0 < before[j].0);
                    }
                    assert forall|i: int| 0 <= i < after.len() implies (#[trigger] after[i]).1 > 0
                        && after[i].1 == date_count(grown, after[i].0) by {
                        assert(before[i].1 == date_count(seen, before[i].0));
                        if i != pos {
                            if i < pos {
                                assert(before[i].0 < before[pos as int].0);
                            } else {
                                assert(before[pos as int].0 < before[i].0);
                            }
                        }
                    }
                    assert forall|j: int| 0 <= j < grown.len() implies tally_names(
                        after,
                        #[trigger] grown[j],
                    ) by {
                        if j < k {
                            assert(seen[j] == grown[j]);
                            assert(tally_names(before, seen[j]));
                            let i = choose|i: int|
                                0 <= i < before.len() && (#[trigger] before[i]).0 == seen[j];
                            assert(after[i].0 == grown[j]);
                        } else {
                            assert(after[pos as int].0 == grown[j]);
                        }
                    }
                }
            } else {
                proof {
                    assert forall|j: int| 0 <= j < seen.len() implies seen[j] != d by {
                        assert(tally_names(before, seen[j]));
                        let i = choose|i: int|
                            0 <= i < before.len() && (#[trigger] before[i]).0 == seen[j];
                        if i < pos {
                            assert(before[i].0 < d);
                        } else if i > pos {
                            assert(before[pos as int].0 < before[i].0);
                        }
                    }
                    lemma_date_count_absent(seen, d);
                }
                tally.insert(pos, (d, 1));
                proof {
                    let after = tally@;
                    assert forall|i: int, j: int| 0 <= i < j < after.len() implies (
                    #[trigger] after[i]).0 < (#[trigger] after[j]).0 by {
                        if j < pos {
                            assert(before[i].0 < before[j].0);
                        } else if i > pos {
                            assert(before[i - 1].0 < before[j - 1].0);
                        } else if i < pos && j > pos {
                            assert(before[i].0 < before[j - 1].0);
                        } else if j == pos {
                            assert(before[i].0 < d);
                        } else {
                            assert(i == pos);
                            assert(after[j] == before[j - 1]);
                            if j - 1 > pos {
                                assert(before[pos as int].0 < before[j - 1].0);
                            }
                        }
                    }
                    assert forall|i: int| 0 <= i < after.len() implies (#[trigger] after[i]).1 > 0
                        && after[i].1 == date_count(grown, after[i].0) by {
                        if i < pos {
                            assert(after[i] == before[i]);
                            assert(before[i].0 < d);
                        } else if i > pos {
                            assert(after[i] == before[i - 1]);
                            if i - 1 > pos {
                                assert(before[pos as int].0 < before[i - 1].0);
                            }
                        }
                    }
                    assert forall|j: int| 0 <= j < grown.len() implies tally_names(
                        after,
                        #[trigger] grown[j],
                    ) by {
                        if j < k {
                            assert(seen[j] == grown[j]);
                            assert(tally_names(before, seen[j]));
                            let i = choose|i: int|
                                0 <= i < before.len() && (#[trigger] before[i]).0 == seen[j];
                            if i < pos {
                                assert(after[i].0 == grown[j]);
                            } else {
                                assert(after[i + 1] == before[i]);
                                assert(after[i + 1].0 == grown[j]);
                            }
                        } else {
                            assert(after[pos as int].0 == grown[j]);
                        }
                    }
                }
            }
            k += 1;
        }
        assert(dates.take(movies.movies.len() as int) =~= dates);
        tally
    }

    /// Get the stats of the movies: their number, the earliest and the
    /// latest date, and the median note, which is the note in the middle of
    /// the list once it is put in ascending order (the later of the two in
    /// the middle of a list of even length).
    pub fn get_stats(movies: &AllMovies) -> (stats: MovieStats)
        requires
            movies.movies.len() > 0,
        ensures
            stats.movies == movies@.len(),
            is_date_range(movie_dates(movies@), stats.min_date, stats.max_date),
            exists|order: Seq<usize>|
                is_note_order(movies@, false, order) && stats.median_note == movies@[order[(
                movies@.len() / 2) as int] as int].note_bits,
    {
        let ghost dates = movie_dates(movies@);
        let mut low = movies.movies[0].date;
        let mut high = movies.movies[0].date;
        assert(dates.take(1)[0] == low);
        let mut i: usize = 1;
        while i < movies.movies.len()
            invariant
                1 <= i <= movies.movies.len(),
                dates == movie_dates(movies@),
                is_date_range(dates.take(i as int), low, high),
            decreases movies.movies.len() - i,
        {
            let ghost seen = dates.take(i as int);
            let ghost grown = dates.take(i + 1);
            let ghost old_low = low;
            let ghost old_high = high;
            let d = movies.movies[i].date;
            if d < low {
                low = d;
            }
            if d > high {
                high = d;
            }
            proof {
                let a = choose|a: int| 0 <= a < seen.len() && (#[trigger] seen[a]) == old_low;
                let b = choose|b: int| 0 <= b < seen.len() && (#[trigger] seen[b]) == old_high;
                assert(grown[a] == old_low && grown[b] == old_high);
                assert(grown[i as int] == d);
                assert forall|j: int| 0 <= j < grown.len() implies low <= (#[trigger] grown[j])
                    <= high by {
                    if j < i {
                        assert(seen[j] == grown[j]);
                    }
                }
            }
            i += 1;
        }
        assert(dates.take(movies.movies.len() as int) =~= dates);
        let order = movies.sorted_order(false);
        let middle = order[movies.movies.len() / 2];
        assert(order@[(movies@.len() / 2) as int] < movies.movies.len());
        MovieStats {
            movies: movies.movies.len(),
            min_date: low,
            max_date: high,
            median_note: movies.movies[middle].note.bits,
        }
    }
}

/// The error for a movies file that does not exist.
pub open spec fn movies_not_found(path: Seq<char>) -> GeneralErrorView {
    GeneralErrorView { message: "Movies file not found at '"@ + path + "'"@, source: None }
}

/// The error for a movies file that is no file.
pub open spec fn movies_not_a_file(path: Seq<char>) -> GeneralErrorView {
    GeneralErrorView { message: "Movies file is not a file at '"@ + path + "'"@, source: None }
}

/// The error for a date that is no number.
pub open spec fn date_error(cause: Seq<char>) -> GeneralErrorView {
    GeneralErrorView { message: "ParseIntError: "@ + cause, source: None }
}

/// The error for a note that is no number.
pub open spec fn note_error(cause: Seq<char>) -> GeneralErrorView {
    GeneralErrorView { message: "ParseFloatError: "@ + cause, source: None }
}

/// The lines of the statistics.
pub open spec fn stats_lines(
    stats: MovieStats,
    average: Seq<char>,
    median: Seq<char>,
) -> Seq<Seq<char>> {
    seq![
        "Number of movies: "@ + decimal(stats.movies as nat),
        "Min date: "@ + decimal(stats.min_date as nat),
        "Max date: "@ + decimal(stats.max_date as nat),
        "Average note: "@ + average,
        "Median note: "@ + median,
    ]
}

/// What to do with the public summary of the movies.
#[derive(Clone, Debug, PartialEq)]
pub enum MoviesSync {
    /// Print the summary
    Print(Vec<u8>),
    /// Write the summary to the file and report it with the message
    Write { path: String, bytes: Vec<u8>, message: String },
}

/// The line that reports where the public summary was written.
pub open spec fn movies_saved(path: Seq<char>) -> Seq<char> {
    "Movies file saved to '"@ + path + "'"@
}

/// What becomes of the summary that a tally makes: the JSON object with
/// the number of movies under each date is printed, or written to the
/// public file and reported; a tally that cannot be written is an error
/// whose message and cause are the text of the failure.
pub open spec fn summary_synced(
    tally: Seq<(u64, u64)>,
    public_path: Seq<char>,
    print_json: bool,
    r: Result<MoviesSync, GeneralError>,
) -> bool {
    let object = encode_utf8(counts_text(tally));
    match counts_json(tally) {
        Some(_) => r matches Ok(plan) && match plan {
            MoviesSync::Print(bytes) => print_json && bytes@ == object,
            MoviesSync::Write { path, bytes, message } => !print_json && bytes@ == object && path@
                == public_path && message@ == movies_saved(public_path),
        },
        None => r matches Err(e) && e@.source == Some(e@.message),
    }
}

/// The line that reports that a movie was added.
pub open spec fn movie_added(path: Seq<char>) -> Seq<char> {
    "Movie added to '"@ + path + "'"@
}

impl Movies {
    /// Open movie file
    pub fn open_movies(file_path: &str, show_path: bool) -> (plan: OpenPlan)
        ensures
            open_plan_for("Opening movies file at "@, file_path@, show_path, plan),
    {
        open_plan("Opening movies file at ", file_path, show_path)
    }

    /// Get all movies: whether the movies file can be read, given what is
    /// found at its path. A path at which nothing is found, or something
    /// that is no file, is an error. The result is the line to print before
    /// reading, which there is where the debug level is above zero.
    pub fn get_all_movies(file_path: &str, exists: bool, is_file: bool, debug: u8) -> (r: Result<
        Option<String>,
        GeneralError,
    >)
        ensures
            match r {
                Ok(Some(line)) => exists && is_file && debug > 0 && line@
                    == "Reading movies file at "@ + file_path@,
                Ok(None) => exists && is_file && debug == 0,
                Err(e) => if !exists {
                    e@ == movies_not_found(file_path@)
                } else {
                    !is_file && e@ == movies_not_a_file(file_path@)
                },
            },
    {
        if !exists {
            let mut message = String::from_str("Movies file not found at '");
            message.append(file_path);
            message.append("'");
            return Err(GeneralError::from(message));
        }
        if !is_file {
            let mut message = String::from_str("Movies file is not a file at '");
            message.append(file_path);
            message.append("'");
            return Err(GeneralError::from(message));
        }
        if debug > 0 {
            let mut line = String::from_str("Reading movies file at ");
            line.append(file_path);
            Ok(Some(line))
        } else {
            Ok(None)
        }
    }

    /// The questions that are put for a new movie, in order.
    pub fn questions() -> (r: Vec<&'static str>)
        ensures
            r.len() == 6,
            r[0]@ == "Title"@,
            r[1]@ == "Note"@,
            r[2]@ == "Date"@,
            r[3]@ == "Comment"@,
            r[4]@ == "Seen"@,
            r[5]@ == "Summary"@,
    {
        let mut r: Vec<&'static str> = Vec::new();
        r.push("Title");
        r.push("Note");
        r.push("Date");
        r.push("Comment");
        r.push("Seen");
        r.push("Summary");
        r
    }

    /// The error for a note that is no number.
    pub fn note_failure(cause: &str) -> (e: GeneralError)
        ensures
            e@ == note_error(cause@),
    {
        let mut message = String::from_str("ParseFloatError: ");
        message.append(cause);
        GeneralError::from(message)
    }

    /// The movie that a read date and the other answers make.
    pub fn movie_from_answers(
        title: String,
        note: Note,
        date: Result<u64, String>,
        comment: String,
        seen: String,
        summary: String,
    ) -> (r: Result<OneMovie, GeneralError>)
        ensures
            match date {
                Ok(d) => r matches Ok(movie) && movie@ == (MovieView {
                    title: title@,
                    note_bits: note.bits,
                    note_text: note.text@,
                    date: d,
                    comment: comment@,
                    seen: Some(seen@),
                    summary: Some(summary@),
                }),
                Err(cause) => r matches Err(e) && e@ == date_error(cause@),
            },
    {
        match date {
            Ok(date) => Ok(
                OneMovie { title, note, date, comment, seen: Some(seen), summary: Some(summary) },
            ),
            Err(cause) => {
                let mut message = String::from_str("ParseIntError: ");
                message.append(cause.as_str());
                Err(GeneralError::from(message))
            },
        }
    }

    /// Add a movie: the movie that the answers make. The date has to be a
    /// number.
    pub fn add_movie(
        title: String,
        note: Note,
        date: &str,
        comment: String,
        seen: String,
        summary: String,
    ) -> (r: Result<OneMovie, GeneralError>)
        ensures
            match parsed_u64(date@) {
                Ok(d) => r matches Ok(movie) && movie@ == (MovieView {
                    title: title@,
                    note_bits: note.bits,
                    note_text: note.text@,
                    date: d,
                    comment: comment@,
                    seen: Some(seen@),
                    summary: Some(summary@),
                }),
                Err(cause) => r matches Err(e) && e@ == date_error(cause),
            },
    {
        Movies::movie_from_answers(title, note, parse_u64(date), comment, seen, summary)
    }

    /// The line that reports that a movie was added.
    pub fn movie_added_text(file_path: &str) -> (r: String)
        ensures
            r@ == movie_added(file_path@),
    {
        let mut out = String::from_str("Movie added to '");
        out.append(file_path);
        out.append("'");
        out
    }

    /// Print the stats of the movies: the lines to print. The average and
    /// the median are given as the texts that show them.
    pub fn print_stats(stats: &MovieStats, average: &str, median: &str) -> (lines: Vec<String>)
        ensures
            crate::text::texts(lines@) == stats_lines(*stats, average@, median@),
    {
        let mut lines: Vec<String> = Vec::new();
        let mut line = String::from_str("Number of movies: ");
        let number = decimal_string(stats.movies as u64);
        line.append(number.as_str());
        lines.push(line);
        let mut line = String::from_str("Min date: ");
        let number = decimal_string(stats.min_date);
        line.append(number.as_str());
        lines.push(line);
        let mut line = String::from_str("Max date: ");
        let number = decimal_string(stats.max_date);
        line.append(number.as_str());
        lines.push(line);
        let mut line = String::from_str("Average note: ");
        line.append(average);
        lines.push(line);
        let mut line = String::from_str("Median note: ");
        line.append(median);
        lines.push(line);
        assert(crate::text::texts(lines@) =~= stats_lines(*stats, average@, median@));
        lines
    }

    /// What to do with the summary once it is written as JSON: print it, or
    /// write it to the public file and report that.
    pub fn deliver_summary(bytes: Vec<u8>, public_path: &str, print_json: bool) -> (r: MoviesSync)
        ensures
            match r {
                MoviesSync::Print(b) => print_json && b == bytes,
                MoviesSync::Write { path, bytes: b, message } => !print_json && b == bytes
                    && path@ == public_path@ && message@ == movies_saved(public_path@),
            },
    {
        if print_json {
            MoviesSync::Print(bytes)
        } else {
            let mut message = String::from_str("Movies file saved to '");
            message.append(public_path);
            message.append("'");
            MoviesSync::Write { path: String::from_str(public_path), bytes, message }
        }
    }

    /// Sync the public movie file: the number of movies of each date, as a
    /// JSON object, printed or written to the public file. It fails where
    /// the object cannot be written, and only there.
    pub fn sync_movies(movies: &AllMovies, public_path: &str, print_json: bool) -> (r: Result<
        MoviesSync,
        GeneralError,
    >)
        ensures
            exists|tally: Seq<(u64, u64)>|
                is_date_tally(movie_dates(movies@), tally) && #[trigger] summary_synced(
                    tally,
                    public_path@,
                    print_json,
                    r,
                ),
    {
        let tally = Movies::group_movies_by_date(movies);
        let r = match counts_document(&tally) {
            Ok(bytes) => Ok(Movies::deliver_summary(bytes, public_path, print_json)),
            Err(e) => Err(e),
        };
        assert(summary_synced(tally@, public_path@, print_json, r));
        r
    }
}

} // verus!
