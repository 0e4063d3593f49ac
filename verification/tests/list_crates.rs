use n4n5::commands::utils::lib::UtilsSubCommand;
use n4n5::commands::utils::list_crates::{
    get_default_output_file, get_user_agent, CrateRow, CratesPager, Delivery, Listing,
    UtilsListCrates, PER_PAGE,
};
use n4n5::commands::utils::types::{CrateData, CrateInfo, CrateInnerData, User, UserResponse};
use n4n5::errors::GeneralError;
use n4n5::json::names_document;
use n4n5::utils::Output;

fn options(output_file: &str, filtered: bool, specials: Option<&str>) -> UtilsListCrates {
    UtilsListCrates {
        username: "someone".to_string(),
        user_agent: get_user_agent(),
        output_file: output_file.to_string(),
        delay: 500,
        full: true,
        markdown: true,
        filtered,
        specials: specials.map(|s| s.to_string()),
    }
}

fn data(name: &str, description: Option<&str>) -> CrateInnerData {
    CrateInnerData {
        name: name.to_string(),
        repository: Some(format!("https://git/{}", name)),
        homepage: None,
        documentation: Some(format!("https://docs/{}", name)),
        description: description.map(|d| d.to_string()),
    }
}

fn infos(count: usize) -> Vec<CrateInfo> {
    (0..count).map(|i| CrateInfo { id: format!("crate{}", i) }).collect()
}

#[test]
fn defaults_of_the_listing() {
    assert_eq!(get_user_agent(), "n4n5 (https://github.com/Its-Just-Nans/n4n5)");
    assert_eq!(get_default_output_file(), "list.json");
    assert_eq!(PER_PAGE, 50);
}

#[test]
fn row_of_a_crate() {
    let row = UtilsListCrates::row(&data("abc", Some("A crate")));
    assert_eq!(
        row,
        CrateRow {
            name: "abc".to_string(),
            link: "[abc](https://crates.io/crates/abc)".to_string(),
            description: "A crate".to_string(),
            links: "N/A <br/> <https://git/abc> <br/> <https://docs/abc>".to_string(),
        }
    );
    let bare = CrateInnerData {
        name: "x".to_string(),
        repository: None,
        homepage: Some("https://x.org".to_string()),
        documentation: None,
        description: None,
    };
    let row = UtilsListCrates::row(&bare);
    assert_eq!(row.description, "N/A");
    assert_eq!(row.links, "<https://x.org> <br/> N/A <br/> N/A");
}

#[test]
fn special_names_are_split_and_trimmed() {
    assert_eq!(options("-", true, Some("a, b ,c")).special_crates(), vec!["a", "b", "c"]);
    assert_eq!(options("-", true, Some("")).special_crates(), vec![""]);
    assert!(options("-", true, None).special_crates().is_empty());
}

#[test]
fn tables_set_the_incoming_and_the_special_crates_apart() {
    let rows = vec![
        UtilsListCrates::row(&data("one", Some("First"))),
        UtilsListCrates::row(&data("two", Some("INCOMING: soon"))),
        UtilsListCrates::row(&data("odd", Some("incoming too, but special"))),
        UtilsListCrates::row(&data("six", None)),
    ];
    let text = options("-", true, Some("odd, nothing")).generate_markdown_table(&rows);
    let expected = "\
| Crate                               | Description | Homepage && Repo                                     |
| ----------------------------------- | ----------- | ---------------------------------------------------- |
| [one](https://crates.io/crates/one) | First       | N/A <br/> <https://git/one> <br/> <https://docs/one> |
| [six](https://crates.io/crates/six) | N/A         | N/A <br/> <https://git/six> <br/> <https://docs/six> |

## Incoming

| Crate                               | Description    | Homepage && Repo                                     |
| ----------------------------------- | -------------- | ---------------------------------------------------- |
| [two](https://crates.io/crates/two) | INCOMING: soon | N/A <br/> <https://git/two> <br/> <https://docs/two> |

## Others

| Crate                               | Description               | Homepage && Repo                                     |
| ----------------------------------- | ------------------------- | ---------------------------------------------------- |
| [odd](https://crates.io/crates/odd) | incoming too, but special | N/A <br/> <https://git/odd> <br/> <https://docs/odd> |
";
    assert_eq!(text, expected);
}

#[test]
fn tables_without_rows_hold_the_header_only() {
    let expected = "| Crate | Description | Homepage && Repo |\n| ----- | ----------- | ---------------- |\n";
    assert_eq!(options("-", true, None).generate_markdown_table(&vec![]), expected);
    assert_eq!(options("-", false, None).generate_markdown_table(&vec![]), expected);
}

#[test]
fn page_has_its_title_and_the_link_to_the_user() {
    assert_eq!(
        options("-", true, None).page("TABLES"),
        "# crates\n\n- <https://crates.io/users/someone>\n\n## Crates\n\nTABLES"
    );
}

#[test]
fn table_of_three_columns() {
    let table = vec![
        vec!["a".to_string(), "b".to_string(), "c".to_string()],
        vec!["dd".to_string(), "e".to_string()],
    ];
    assert_eq!(
        UtilsListCrates::format_table(&table),
        "| a  | b | c |\n| -- | - | - |\n| dd | e |\n"
    );
}

#[test]
fn kind_of_listing_follows_the_flags() {
    let mut o = options("-", false, None);
    assert_eq!(o.list_crates(), Listing::Markdown);
    o.markdown = false;
    assert_eq!(o.list_crates(), Listing::Details);
    o.full = false;
    assert_eq!(o.list_crates(), Listing::Names);
    o.markdown = true;
    assert_eq!(o.list_crates(), Listing::Names);
}

#[test]
fn listing_goes_to_the_output_file_or_the_standard_output() {
    let o = options("-", false, None);
    assert!(!o.verbose());
    assert_eq!(
        o.delivery(Listing::Names),
        Delivery { output: Output::Stdout, line_break: true, message: None }
    );
    assert_eq!(
        o.delivery(Listing::Markdown),
        Delivery { output: Output::Stdout, line_break: false, message: None }
    );
    let o = options("list.json", false, None);
    assert!(o.verbose());
    assert_eq!(
        o.delivery(Listing::Details),
        Delivery {
            output: Output::File("list.json".to_string()),
            line_break: true,
            message: Some("Written to list.json".to_string()),
        }
    );
    assert_eq!(
        o.delivery(Listing::Markdown),
        Delivery {
            output: Output::File("README.md".to_string()),
            line_break: false,
            message: Some("Written to README.md".to_string()),
        }
    );
    let o = options("crates.md", false, None);
    assert_eq!(
        o.delivery(Listing::Markdown),
        Delivery {
            output: Output::File("crates.md".to_string()),
            line_break: false,
            message: Some("Written to crates.md".to_string()),
        }
    );
}

#[test]
fn walk_begins_when_the_user_is_known() {
    let o = options("-", false, None);
    assert_eq!(o.user_url_text(), "https://crates.io/api/v1/users/someone");
    assert_eq!(
        o.get_all_crates(UserResponse { user: None }),
        Err(GeneralError::new("User 'someone' not found on crates.io."))
    );
    let pager = o.get_all_crates(UserResponse { user: Some(User { id: 4242 }) }).ok().unwrap();
    assert_eq!(pager, CratesPager { user_id: 4242, page: 1, all_crates: vec![] });
    assert_eq!(
        pager.next_url(),
        "https://crates.io/api/v1/crates?user_id=4242&page=1&per_page=50"
    );
    assert_eq!(o.fetching_text(4242), "Fetching crates for user 'someone' (ID: 4242)...");
}

#[test]
fn walk_goes_on_after_a_full_page_only() {
    let mut pager = CratesPager { user_id: -7, page: 1, all_crates: vec![] };
    assert!(pager.on_page(infos(50)));
    assert_eq!(pager.page, 2);
    assert_eq!(pager.all_crates.len(), 50);
    assert_eq!(
        pager.next_url(),
        "https://crates.io/api/v1/crates?user_id=-7&page=2&per_page=50"
    );
    assert!(!pager.on_page(infos(49)));
    assert_eq!(pager.page, 2);
    assert_eq!(pager.all_crates.len(), 99);
    assert_eq!(pager.all_crates[50], "crate0");
    assert!(!pager.on_page(vec![]));
    assert_eq!(pager.all_crates.len(), 99);
    assert_eq!(UtilsListCrates::found_text(99), "Found 99 crates");
}

#[test]
fn address_of_one_crate() {
    assert_eq!(UtilsListCrates::get_one_crate("serde"), "https://crates.io/api/v1/crates/serde");
}

#[test]
fn names_are_written_as_a_json_array() {
    let names = vec!["a".to_string(), "b\"c".to_string()];
    assert_eq!(names_document(&names), Ok("[\n  \"a\",\n  \"b\\\"c\"\n]".to_string()));
    assert_eq!(names_document(&vec![]), Ok("[]".to_string()));
}

#[test]
fn tools_are_named() {
    assert_eq!(UtilsSubCommand::PngTools.invoke(), "pngtools");
    assert_eq!(UtilsSubCommand::GitMover { args: vec![] }.invoke(), "git-mover");
    assert_eq!(UtilsSubCommand::ListCrates(options("-", false, None)).invoke(), "list_crates");
    assert_eq!(UtilsSubCommand::pngtools(), "Error with pngtools");
    assert_eq!(UtilsSubCommand::git_mover(), "Error with git-mover");
}

#[test]
fn crate_that_could_not_be_fetched_is_left_out_with_a_warning() {
    let a = CrateData { krate: data("a", None) };
    let c = CrateData { krate: data("c", Some("third")) };
    let fetched = UtilsListCrates::keep_fetched(vec![
        Ok(a.clone()),
        Err("status 404".to_string()),
        Ok(c.clone()),
        Err("timed out".to_string()),
    ]);
    assert_eq!(fetched.crates, vec![a, c]);
    assert_eq!(
        fetched.warnings,
        vec!["Error fetching crate: status 404", "Error fetching crate: timed out"]
    );
    let none = UtilsListCrates::keep_fetched(vec![]);
    assert!(none.crates.is_empty());
    assert!(none.warnings.is_empty());
}
