use n4n5::utils::{
    input_no, input_yes, is_yes, join, output_for, read_line_error, strip_line_ending,
    table_to_markdown_table, yes_no_prompt, Output,
};

fn row(cells: &[&str]) -> Vec<String> {
    cells.iter().map(|c| c.to_string()).collect()
}

#[test]
fn markdown_table_pads_and_rules() {
    let table = vec![row(&["Name", "Note"]), row(&["Alien", "9"]), row(&["Up", "10"])];
    let text = table_to_markdown_table(&table, 2);
    assert_eq!(text, "| Name  | Note |\n| ----- | ---- |\n| Alien | 9    |\n| Up    | 10   |\n");
}

#[test]
fn markdown_table_of_nothing_is_empty() {
    let table: Vec<Vec<String>> = Vec::new();
    assert_eq!(table_to_markdown_table(&table, 3), "");
}

#[test]
fn markdown_table_with_header_only() {
    let table = vec![row(&["A", "B"])];
    assert_eq!(table_to_markdown_table(&table, 2), "| A | B |\n| - | - |\n");
}

#[test]
fn markdown_table_with_short_rows_and_spare_columns() {
    let table = vec![row(&["A", "B"]), row(&["long"])];
    assert_eq!(
        table_to_markdown_table(&table, 3),
        "| A    | B |\n| ---- | - |  |\n| long |\n"
    );
}

#[test]
fn markdown_table_measures_bytes_and_pads_characters() {
    let table = vec![row(&["é"]), row(&["ab"])];
    assert_eq!(table_to_markdown_table(&table, 1), "| é  |\n| -- |\n| ab |\n");
}

#[test]
fn join_puts_the_separator_between() {
    assert_eq!(join(&row(&["a", "b", "c"]), " | "), "a | b | c");
    assert_eq!(join(&row(&["a"]), ","), "a");
    assert_eq!(join(&row(&[]), ","), "");
}

#[test]
fn line_ending_is_stripped_once() {
    assert_eq!(strip_line_ending("abc\n"), "abc");
    assert_eq!(strip_line_ending("abc\r\n"), "abc");
    assert_eq!(strip_line_ending("abc"), "abc");
    assert_eq!(strip_line_ending("abc\n\n"), "abc\n");
    assert_eq!(strip_line_ending("abc\r"), "abc");
    assert_eq!(strip_line_ending("abc\n\r"), "abc\n");
    assert_eq!(strip_line_ending(""), "");
    assert_eq!(strip_line_ending("\n"), "");
}

#[test]
fn read_line_error_names_the_cause() {
    assert_eq!(read_line_error("closed").message(), "Failed to read line from stdin:closed");
}

#[test]
fn yes_is_recognised_in_any_case() {
    assert!(input_yes("y"));
    assert!(input_yes("Y"));
    assert!(input_yes("yes"));
    assert!(input_yes("YES"));
    assert!(input_yes("Yes"));
    assert!(!input_yes("n"));
    assert!(!input_yes(""));
    assert!(!input_yes("yes "));
    assert!(!input_yes("yeah"));
}

#[test]
fn input_no_is_the_opposite_of_yes() {
    assert!(input_no("n"));
    assert!(input_no("whatever"));
    assert!(!input_no("y"));
    assert!(!input_no("YES"));
}

#[test]
fn is_yes_takes_lower_case_only() {
    assert!(is_yes("y"));
    assert!(is_yes("yes"));
    assert!(!is_yes("Y"));
}

#[test]
fn yes_no_prompt_appends_the_choice() {
    assert_eq!(yes_no_prompt("Add one?"), "Add one? (y/n):");
}

#[test]
fn dash_means_standard_output() {
    assert_eq!(output_for("-"), Output::Stdout);
    assert_eq!(output_for("out.json"), Output::File("out.json".to_string()));
    assert_eq!(output_for("--"), Output::File("--".to_string()));
}
