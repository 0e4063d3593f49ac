//! Utils functions

use vstd::prelude::*;
use vstd::string::*;
use vstd::utf8::encode_utf8;

use crate::errors::{GeneralError, GeneralErrorView};
use crate::text::{
    chars_of, pad_right, padded, push_repeated, repeated, same_text, string_of, texts,
};

verus! {

/// The texts of the cells of a table, row by row.
pub open spec fn table_texts(table: Seq<Vec<String>>) -> Seq<Seq<Seq<char>>> {
    Seq::new(table.len(), |i: int| texts(table[i]@))
}

/// The number of bytes that a text takes.
pub open spec fn byte_len(s: Seq<char>) -> nat {
    encode_utf8(s).len()
}

/// The width of a column: the greatest number of bytes that one of its cells
/// takes, and zero for a column without cells.
pub open spec fn column_width(rows: Seq<Seq<Seq<char>>>, col: int) -> nat
    decreases rows.len(),
{
    if rows.len() == 0 {
        0
    } else {
        let before = column_width(rows.drop_last(), col);
        let row = rows.last();
        if 0 <= col < row.len() && byte_len(row[col]) > before {
            byte_len(row[col])
        } else {
            before
        }
    }
}

/// The widths of the first `columns` columns of a table.
pub open spec fn column_widths(rows: Seq<Seq<Seq<char>>>, columns: nat) -> Seq<nat> {
    Seq::new(columns, |c: int| column_width(rows, c))
}

/// The parts, with the separator between each two neighbours.
pub open spec fn joined(parts: Seq<Seq<char>>, sep: Seq<char>) -> Seq<char>
    decreases parts.len(),
{
    if parts.len() == 0 {
        Seq::empty()
    } else if parts.len() == 1 {
        parts[0]
    } else {
        joined(parts.drop_last(), sep) + sep + parts.last()
    }
}

/// The cells of a row, each padded to the width of its column. Cells beyond
/// the last column are left out.
pub open spec fn row_cells(row: Seq<Seq<char>>, widths: Seq<nat>) -> Seq<Seq<char>> {
    Seq::new(
        if row.len() <= widths.len() {
            row.len()
        } else {
            widths.len()
        },
        |i: int| padded(row[i], widths[i]),
    )
}

/// The cells of the rule below the header: as many dashes as each column is
/// wide.
pub open spec fn rule_cells(widths: Seq<nat>) -> Seq<Seq<char>> {
    Seq::new(widths.len(), |i: int| repeated('-', widths[i]))
}

/// One line of a table.
pub open spec fn table_line(cells: Seq<Seq<char>>) -> Seq<char> {
    "| "@ + joined(cells, " | "@) + " |\n"@
}

/// The lines of a table: every row in order, and the rule after the first.
pub open spec fn table_lines(rows: Seq<Seq<Seq<char>>>, widths: Seq<nat>) -> Seq<char>
    decreases rows.len(),
{
    if rows.len() == 0 {
        Seq::empty()
    } else {
        table_lines(rows.drop_last(), widths) + table_line(row_cells(rows.last(), widths)) + (
        if rows.len() == 1 {
            table_line(rule_cells(widths))
        } else {
            Seq::empty()
        })
    }
}

/// A table in markdown. The first row is the header.
pub open spec fn markdown_table(rows: Seq<Seq<Seq<char>>>, columns: nat) -> Seq<char> {
    table_lines(rows, column_widths(rows, columns))
}

/// The widths held in a vector.
pub open spec fn nats(v: Seq<usize>) -> Seq<nat> {
    Seq::new(v.len(), |i: int| v[i] as nat)
}

/// Joins texts with a separator.
pub fn join(parts: &Vec<String>, sep: &str) -> (r: String)
    ensures
        r@ == joined(texts(parts@), sep@),
{
    let mut out = String::new();
    let mut i: usize = 0;
    while i < parts.len()
        invariant
            i <= parts.len(),
            out@ == joined(texts(parts@).take(i as int), sep@),
        decreases parts.len() - i,
    {
        proof {
            let ghost all = texts(parts@);
            assert(all.take(i + 1).drop_last() =~= all.take(i as int));
            assert(all.take(i + 1).last() == parts[i as int]@);
        }
        if i > 0 {
            out.append(sep);
        }
        out.append(parts[i].as_str());
        i += 1;
        assert(out@ =~= joined(texts(parts@).take(i as int), sep@));
    }
    assert(texts(parts@).take(parts.len() as int) =~= texts(parts@));
    out
}

fn append_line(out: &mut String, cells: &Vec<String>)
    ensures
        final(out)@ == old(out)@ + table_line(texts(cells@)),
{
    let body = join(cells, " | ");
    out.append("| ");
    out.append(body.as_str());
    out.append(" |\n");
    assert(out@ =~= old(out)@ + table_line(texts(cells@)));
}

fn padded_row(row: &Vec<String>, widths: &Vec<usize>) -> (r: Vec<String>)
    ensures
        texts(r@) == row_cells(texts(row@), nats(widths@)),
{
    let mut cells: Vec<String> = Vec::new();
    let mut i: usize = 0;
    while i < row.len() && i < widths.len()
        invariant
            i <= row.len(),
            i <= widths.len(),
            cells.len() == i,
            forall|j: int| 0 <= j < i ==> cells[j]@ == padded(row[j]@, widths[j] as nat),
        decreases row.len() - i,
    {
        cells.push(pad_right(row[i].as_str(), widths[i]));
        i += 1;
    }
    assert(texts(cells@) =~= row_cells(texts(row@), nats(widths@)));
    cells
}

fn rule_row(widths: &Vec<usize>) -> (r: Vec<String>)
    ensures
        texts(r@) == rule_cells(nats(widths@)),
{
    let mut cells: Vec<String> = Vec::new();
    let mut i: usize = 0;
    while i < widths.len()
        invariant
            i <= widths.len(),
            cells.len() == i,
            forall|j: int| 0 <= j < i ==> cells[j]@ == repeated('-', widths[j] as nat),
        decreases widths.len() - i,
    {
        let mut dashes = String::new();
        push_repeated(&mut dashes, '-', widths[i]);
        assert(dashes@ =~= repeated('-', widths[i as int] as nat));
        cells.push(dashes);
        i += 1;
    }
    assert(texts(cells@) =~= rule_cells(nats(widths@)));
    cells
}

fn measure(table: &Vec<Vec<String>>, columns: usize) -> (widths: Vec<usize>)
    requires
        forall|i: int| 0 <= i < table.len() ==> table[i].len() <= columns,
    ensures
        nats(widths@) == column_widths(table_texts(table@), columns as nat),
{
    let mut widths: Vec<usize> = Vec::new();
    let mut c: usize = 0;
    while c < columns
        invariant
            c <= columns,
            widths.len() == c,
            forall|j: int| 0 <= j < c ==> widths[j] == 0,
        decreases columns - c,
    {
        widths.push(0);
        c += 1;
    }
    let ghost all = table_texts(table@);
    let mut i: usize = 0;
    while i < table.len()
        invariant
            i <= table.len(),
            all == table_texts(table@),
            widths.len() == columns,
            forall|k: int| 0 <= k < table.len() ==> table[k].len() <= columns,
            forall|j: int| 0 <= j < columns ==> widths[j] as nat == column_width(all.take(i as int), j),
        decreases table.len() - i,
    {
        let row = &table[i];
        let ghost before = widths@;
        assert(all.take(i + 1).drop_last() =~= all.take(i as int));
        assert(all.take(i + 1).last() == texts(row@));
        let mut j: usize = 0;
        while j < row.len()
            invariant
                j <= row.len(),
                row.len() <= columns,
                widths.len() == columns,
                before.len() == columns,
                forall|k: int| j <= k < columns ==> widths[k] == before[k],
                forall|k: int|
                    0 <= k < j ==> widths[k] as nat == (if byte_len(row[k]@) > before[k] as nat {
                        byte_len(row[k]@)
                    } else {
                        before[k] as nat
                    }),
            decreases row.len() - j,
        {
            let size = row[j].as_str().as_bytes().len();
            assert(size as nat == byte_len(row[j as int]@));
            if size > widths[j] {
                widths.set(j, size);
            }
            j += 1;
        }
        assert forall|c: int| 0 <= c < columns implies widths[c] as nat == column_width(
            all.take(i + 1),
            c,
        ) by {
            assert(before[c] as nat == column_width(all.take(i as int), c));
            if c < row.len() {
                assert(texts(row@)[c] == row[c]@);
            }
        }
        i += 1;
    }
    assert(all.take(table.len() as int) =~= all);
    assert(nats(widths@) =~= column_widths(all, columns as nat));
    widths
}

/// Format a table to markdown.
///
/// Every cell is padded with spaces to the width of its column, the cells of
/// a row are set between bars, and a rule of dashes follows the first row.
/// No row may have more cells than there are columns.
pub fn table_to_markdown_table(table: &Vec<Vec<String>>, columns: usize) -> (r: String)
    requires
        forall|i: int| 0 <= i < table.len() ==> table[i].len() <= columns,
    ensures
        r@ == markdown_table(table_texts(table@), columns as nat),
{
    let widths = measure(table, columns);
    let ghost all = table_texts(table@);
    let ghost w = nats(widths@);
    let mut out = String::new();
    let mut i: usize = 0;
    while i < table.len()
        invariant
            i <= table.len(),
            all == table_texts(table@),
            w == nats(widths@),
            out@ == table_lines(all.take(i as int), w),
        decreases table.len() - i,
    {
        assert(all.take(i + 1).drop_last() =~= all.take(i as int));
        assert(all.take(i + 1).last() == texts(table[i as int]@));
        let cells = padded_row(&table[i], &widths);
        append_line(&mut out, &cells);
        if i == 0 {
            let rule = rule_row(&widths);
            append_line(&mut out, &rule);
        }
        i += 1;
        assert(out@ =~= table_lines(all.take(i as int), w));
    }
    assert(all.take(table.len() as int) =~= all);
    out
}

/// A line of input without its line ending: one trailing line feed is
/// dropped, then one trailing carriage return.
pub open spec fn without_line_ending(s: Seq<char>) -> Seq<char> {
    let a = if s.len() > 0 && s.last() == '\n' {
        s.drop_last()
    } else {
        s
    };
    if a.len() > 0 && a.last() == '\r' {
        a.drop_last()
    } else {
        a
    }
}

/// Removes the line ending from a line that was read.
pub fn strip_line_ending(raw: &str) -> (r: String)
    ensures
        r@ == without_line_ending(raw@),
{
    let mut chars = chars_of(raw);
    if chars.len() > 0 && chars[chars.len() - 1] == '\n' {
        chars.pop();
    }
    if chars.len() > 0 && chars[chars.len() - 1] == '\r' {
        chars.pop();
    }
    string_of(&chars)
}

/// The error for a line that could not be read.
pub fn read_line_error(cause: &str) -> (e: GeneralError)
    ensures
        e@ == (GeneralErrorView {
            message: "Failed to read line from stdin:"@ + cause@,
            source: None,
        }),
{
    let mut message = String::from_str("Failed to read line from stdin:");
    message.append(cause);
    GeneralError::from(message)
}

/// The question that is put for a yes or a no.
pub open spec fn yes_no_question(prompt: Seq<char>) -> Seq<char> {
    prompt + " (y/n):"@
}

/// The text to print when asking for a yes or a no.
pub fn yes_no_prompt(prompt: &str) -> (r: String)
    ensures
        r@ == yes_no_question(prompt@),
{
    let mut out = String::from_str(prompt);
    out.append(" (y/n):");
    out
}

/// The lower-case form of a text, as std's `str::to_lowercase` gives it.
pub uninterp spec fn lowercase(s: Seq<char>) -> Seq<char>;

/// Puts a text in lower case.
///
/// Trusted: calls std's `str::to_lowercase`, whose result depends on the
/// text alone; the contract gives that result a name and says nothing more
/// of it.
#[verifier::external_body]
pub(crate) fn to_lowercase(s: &str) -> (r: String)
    ensures
        r@ == lowercase(s@),
{
    s.to_lowercase()
}

/// Whether a lower-case answer says yes: it is `y` or `yes`.
pub open spec fn says_yes(lowered: Seq<char>) -> bool {
    lowered == "y"@ || lowered == "yes"@
}

/// Whether an answer, already in lower case, says yes.
pub fn is_yes(lowered: &str) -> (r: bool)
    ensures
        r == says_yes(lowered@),
{
    same_text(lowered, "y") || same_text(lowered, "yes")
}

/// Whether the user's answer says yes, whatever its case.
pub fn input_yes(answer: &str) -> (r: bool)
    ensures
        r == says_yes(lowercase(answer@)),
{
    let lowered = to_lowercase(answer);
    is_yes(lowered.as_str())
}

/// Whether the user's answer does not say yes.
pub fn input_no(answer: &str) -> (r: bool)
    ensures
        r == !says_yes(lowercase(answer@)),
{
    !input_yes(answer)
}

/// Where a result goes.
#[derive(Clone, Debug, PartialEq)]
pub enum Output {
    /// To the standard output
    Stdout,
    /// To the file at this path
    File(String),
}

/// Where a result goes for a given output path: a single dash stands for
/// the standard output, anything else names the file.
pub fn output_for(path_file: &str) -> (r: Output)
    ensures
        match r {
            Output::Stdout => path_file@ == "-"@,
            Output::File(p) => path_file@ != "-"@ && p@ == path_file@,
        },
{
    if same_text(path_file, "-") {
        Output::Stdout
    } else {
        Output::File(String::from_str(path_file))
    }
}

} // verus!
