use n4n5::commands::gh::lib::{
    get_github_username, Gh, GhJob, GhSubCommand, Located, ProjectType, ProjectsPager,
    ProjectsReply, PullsPager,
};
use n4n5::commands::gh::types::{
    GhBaseRepository, GhData, GhLanguages, GhOwner, GhPageInfo, GhProject, GhPullRequest,
    GhPullRequestNode, GhPullRequests, GhResponse, GhUser,
};
use n4n5::errors::GeneralError;
use n4n5::json::{object_member, value_document};

const PULLS: &str = "gh api graphql -F owner='Its-Just-Nans' -f query='
    query($owner: String!) {
        user(login: $owner) {
            pullRequests(first: 100) {
                edges {
                    node {
                        id
                        number
                        title
                        url
                        state
                        createdAt
                        baseRepository {
                            url
                            name
                            description
                            owner {
                            login
                            }
                            languages(first: 1) {
                                nodes {
                                    name
                                    color
                                }
                            }
                        }
                    }
                }
                pageInfo {
                    endCursor
                    startCursor
                    hasNextPage
                    hasPreviousPage
                }
            }
        }
    }'";

const PROJECTS: &str = "gh api graphql -F owner='Its-Just-Nans' -f query='
    query( $owner: String!){
        user(login: $owner) {
            TYPE(first: 100,ADD REPO_ARG, privacy: PUBLIC) {
                pageInfo {
                    hasNextPage
                    endCursor
                    startCursor
                }
                nodes {
                    url
                    name
                    REPO_DATA
                    description
                    stargazerCount
                }
            }
        }
    }'";

const REPO_DATA: &str = "primaryLanguage {
                        name
                        color
                    }
                    homepageUrl
                    diskUsage
                    forkCount
                    licenseInfo {
                        name
                    }";

fn pull(number: i32) -> GhPullRequest {
    GhPullRequest {
        node: GhPullRequestNode {
            id: format!("id{}", number),
            number,
            title: "t".to_string(),
            url: "u".to_string(),
            state: "OPEN".to_string(),
            created_at: "now".to_string(),
            base_repository: GhBaseRepository {
                url: "r".to_string(),
                name: "n".to_string(),
                description: None,
                owner: GhOwner { login: "o".to_string() },
                languages: GhLanguages { nodes: vec![] },
            },
        },
    }
}

fn page(pulls: Vec<GhPullRequest>, cursor: &str, more: bool) -> GhResponse {
    GhResponse {
        data: GhData {
            user: GhUser {
                pull_requests: GhPullRequests {
                    edges: pulls,
                    page_info: GhPageInfo { end_cursor: cursor.to_string(), has_next_page: more },
                },
            },
        },
    }
}

fn project(name: &str, usage: Option<u64>) -> GhProject {
    GhProject {
        url: format!("https://github.com/x/{}", name),
        name: name.to_string(),
        description: None,
        stargazer_count: 0,
        primary_language: None,
        homepage_url: None,
        disk_usage: usage,
        fork_count: None,
        license_info: None,
    }
}

fn names(projects: &[GhProject]) -> Vec<String> {
    projects.iter().map(|p| p.name.clone()).collect()
}

#[test]
fn first_pulls_command_has_no_cursor() {
    let pager = PullsPager::new();
    assert_eq!(pager.next_command(), Some(PULLS.to_string()));
}

#[test]
fn later_pulls_command_names_the_cursor() {
    let mut pager = PullsPager::new();
    let message = pager.on_page(page(vec![pull(1), pull(2)], "Y3Vyc29y", true));
    assert_eq!(message, "Received 2 pulls requests");
    assert_eq!(
        pager.next_command(),
        Some(PULLS.replace("100)", "100, after: \"Y3Vyc29y\")"))
    );
}

#[test]
fn pulls_of_all_pages_are_kept_in_order_until_the_last_page() {
    let mut pager = PullsPager::new();
    pager.on_page(page(vec![pull(1), pull(2)], "a", true));
    pager.on_page(page(vec![pull(3)], "b", true));
    let message = pager.on_page(page(vec![], "", false));
    assert_eq!(message, "Received 0 pulls requests");
    assert_eq!(pager.all_pulls, vec![pull(1), pull(2), pull(3)]);
    assert_eq!(pager.next_command(), None);
}

#[test]
fn blank_cursor_counts_as_no_cursor() {
    let mut pager = PullsPager::new();
    pager.on_page(page(vec![], "  \n", true));
    assert_eq!(pager.next_command(), Some(PULLS.to_string()));
}

#[test]
fn first_projects_commands() {
    let repos = ProjectsPager::new(ProjectType::Repos);
    let expected = PROJECTS
        .replace("TYPE", "repositories")
        .replace(",ADD", "")
        .replace("REPO_ARG", "isFork: false, ownerAffiliations: [OWNER]")
        .replace("REPO_DATA", REPO_DATA);
    assert_eq!(repos.next_command(), Some(expected));
    let gists = ProjectsPager::new(ProjectType::Gists);
    let expected = PROJECTS
        .replace("TYPE", "gists")
        .replace(",ADD", "")
        .replace("REPO_ARG", "")
        .replace("REPO_DATA", "");
    assert_eq!(gists.next_command(), Some(expected));
}

#[test]
fn later_projects_command_names_the_cursor() {
    let mut pager = ProjectsPager::new(ProjectType::Repos);
    let reply = ProjectsReply::Listing {
        nodes: Some(vec![project("a", None)]),
        page_info: Some(GhPageInfo { end_cursor: "CUR".to_string(), has_next_page: true }),
    };
    assert_eq!(pager.on_page(reply, 1), Ok(Some("Received 1 repositories".to_string())));
    let expected = PROJECTS
        .replace("TYPE", "repositories")
        .replace(",ADD", ", after: \"CUR\", ")
        .replace("REPO_ARG", "isFork: false, ownerAffiliations: [OWNER]")
        .replace("REPO_DATA", REPO_DATA);
    assert_eq!(pager.next_command(), Some(expected));
}

#[test]
fn projects_replies_are_taken_as_they_come() {
    let mut pager = ProjectsPager::new(ProjectType::Gists);
    let start = pager.clone();
    assert_eq!(
        pager.on_page(ProjectsReply::NotAnObject, 0),
        Err(GeneralError::new("Unable to parse json from gh command"))
    );
    assert_eq!(pager, start);
    assert_eq!(
        pager.on_page(ProjectsReply::NoListing, 2),
        Err(GeneralError::new("Unable to find gists in gh command"))
    );
    assert_eq!(pager, start);
    assert_eq!(
        ProjectsPager::new(ProjectType::Repos).on_page(ProjectsReply::NoListing, 0),
        Err(GeneralError::new("Unable to find repositories in gh command"))
    );
    let reply = ProjectsReply::Listing {
        nodes: Some(vec![project("a", None), project("b", None)]),
        page_info: Some(GhPageInfo { end_cursor: "c1".to_string(), has_next_page: true }),
    };
    assert_eq!(pager.on_page(reply, 0), Ok(None));
    let reply = ProjectsReply::Listing {
        nodes: None,
        page_info: Some(GhPageInfo { end_cursor: "c2".to_string(), has_next_page: true }),
    };
    assert_eq!(pager.on_page(reply, 5), Ok(None));
    let reply = ProjectsReply::Listing {
        nodes: Some(vec![project("c", None)]),
        page_info: Some(GhPageInfo { end_cursor: "".to_string(), has_next_page: false }),
    };
    assert_eq!(pager.on_page(reply, 5), Ok(Some("Received 1 gists".to_string())));
    assert_eq!(names(&pager.all_projects), vec!["a", "b", "c"]);
    assert_eq!(pager.next_command(), None);
}

#[test]
fn listing_without_page_info_is_an_error() {
    let mut pager = ProjectsPager::new(ProjectType::Repos);
    let reply = ProjectsReply::Listing { nodes: Some(vec![project("a", None)]), page_info: None };
    assert_eq!(
        pager.on_page(reply, 1),
        Err(GeneralError::new("Unable to find pageInfo in gh command"))
    );
}

#[test]
fn projects_are_sorted_by_name() {
    let sorted = Gh::sort_projects(vec![
        project("zeta", None),
        project("alpha", None),
        project("Beta", None),
        project("alp", None),
        project("", None),
    ]);
    assert_eq!(names(&sorted), vec!["", "Beta", "alp", "alpha", "zeta"]);
}

#[test]
fn projects_of_the_same_name_keep_their_order() {
    let sorted = Gh::sort_projects(vec![
        project("b", Some(1)),
        project("a", Some(2)),
        project("b", Some(3)),
        project("a", Some(4)),
    ]);
    let usage: Vec<Option<u64>> = sorted.iter().map(|p| p.disk_usage).collect();
    assert_eq!(usage, vec![Some(2), Some(4), Some(1), Some(3)]);
}

#[test]
fn repositories_come_before_gists() {
    let all = Gh::save_projects(
        vec![project("r2", None), project("r1", None)],
        vec![project("g2", None), project("a-gist", None)],
    );
    assert_eq!(names(&all), vec!["r1", "r2", "a-gist", "g2"]);
    assert!(Gh::save_projects(vec![], vec![]).is_empty());
}

#[test]
fn disk_usage_is_listed_for_the_projects_that_report_it() {
    let projects = vec![project("a", Some(10)), project("b", None), project("c", Some(0))];
    assert_eq!(
        Gh::projects_disk_usage(&projects),
        vec![
            ("https://github.com/x/a".to_string(), 10),
            ("https://github.com/x/c".to_string(), 0),
        ]
    );
}

#[test]
fn projects_are_fetched_one_level_louder() {
    assert_eq!(Gh::fetch_debug_level(true, 3), 0);
    assert_eq!(Gh::fetch_debug_level(false, 0), 1);
    assert_eq!(Gh::fetch_debug_level(false, 3), 4);
    assert_eq!(Gh::fetch_debug_level(false, 255), 255);
}

#[test]
fn github_messages() {
    assert_eq!(Gh::saving_pulls_text("/p.json"), "Saving pulls to /p.json");
    assert_eq!(Gh::save_pulls(12, "/p.json"), "Saving 12 pulls to /p.json");
    assert_eq!(Gh::saving_projects_text("/p.json"), "Saving projects to /p.json");
    assert_eq!(
        Gh::saved_projects_text(3, 0, "/p.json"),
        "Saving 3 repos and 0 gists to /p.json"
    );
    assert_eq!(get_github_username(), "Its-Just-Nans");
}

#[test]
fn github_jobs() {
    assert_eq!(Gh::sync_github(false), vec![GhJob::Pulls, GhJob::Projects { print_json: false }]);
    assert_eq!(GhSubCommand::Pulls { print_json: true }.invoke(), GhJob::Pulls);
    assert_eq!(
        GhSubCommand::Projects { print_json: true }.invoke(),
        GhJob::Projects { print_json: true }
    );
}

fn answer(text: &str) -> serde_json::Value {
    value_document(text).ok().unwrap()
}

#[test]
fn listing_is_found_under_data_and_user() {
    let value = answer(
        "{\"data\": {\"user\": {\"repositories\": {\"nodes\": [1, 2], \"pageInfo\": {\"x\": 1}}}}}",
    );
    match Gh::fetch_projects(&value, ProjectType::Repos) {
        Located::Listing { nodes, page_info } => {
            assert_eq!(nodes, Some(&answer("[1, 2]")));
            assert_eq!(page_info, Some(&answer("{\"x\": 1}")));
        }
        _ => panic!("the listing is there"),
    }
    assert!(matches!(Gh::fetch_projects(&value, ProjectType::Gists), Located::NoListing));
}

#[test]
fn listing_may_lack_its_parts() {
    let value = answer("{\"data\": {\"user\": {\"gists\": {}}}}");
    match Gh::fetch_projects(&value, ProjectType::Gists) {
        Located::Listing { nodes, page_info } => {
            assert_eq!(nodes, None);
            assert_eq!(page_info, None);
        }
        _ => panic!("the listing is there"),
    }
}

#[test]
fn answer_without_listing() {
    for text in [
        "{}",
        "{\"data\": 1}",
        "{\"data\": {}}",
        "{\"data\": {\"user\": []}}",
        "{\"data\": {\"user\": {}}}",
        "{\"data\": {\"user\": {\"gists\": \"x\"}}}",
        "{\"user\": {\"gists\": {}}}",
    ] {
        assert!(matches!(
            Gh::fetch_projects(&answer(text), ProjectType::Gists),
            Located::NoListing
        ));
    }
}

#[test]
fn answer_that_is_no_object() {
    for text in ["[]", "1", "\"data\"", "null", "[{\"data\": {}}]"] {
        assert!(matches!(
            Gh::fetch_projects(&answer(text), ProjectType::Repos),
            Located::NotAnObject
        ));
    }
}

#[test]
fn text_that_is_no_json_is_an_error() {
    let e = value_document("{\"data\": ").err().unwrap();
    assert!(!e.message().is_empty());
    assert_eq!(e.source(), Some(e.message()));
}

#[test]
fn object_member_is_an_object_or_nothing() {
    let value = answer("{\"a\": {\"b\": 1}, \"c\": 2}");
    assert_eq!(object_member(&value, "a"), Some(&answer("{\"b\": 1}")));
    assert_eq!(object_member(&value, "c"), None);
    assert_eq!(object_member(&value, "d"), None);
}
