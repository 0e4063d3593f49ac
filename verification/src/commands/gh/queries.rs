//! The commands that ask the GitHub command line tool for one page of a
//! listing. A command is put together from the parts below, with the kind of
//! listing and the cursor of the page between them.

use vstd::prelude::*;

verus! {

/// The command that asks for a page of pull requests, up to the place of the cursor.
pub const PULLS_QUERY_HEAD: &'static str =
    "gh api graphql -F owner='Its-Just-Nans' -f query='\n    query($owner: String!) {\n        user(login: $owner) {\n            pullRequests(first: 100";

/// The rest of the command that asks for a page of pull requests.
pub const PULLS_QUERY_TAIL: &'static str =
    ") {\n                edges {\n                    node {\n                        id\n                        number\n                        title\n                        url\n                        state\n                        createdAt\n                        baseRepository {\n                            url\n                            name\n                            description\n                            owner {\n                            login\n                            }\n                            languages(first: 1) {\n                                nodes {\n                                    name\n                                    color\n                                }\n                            }\n                        }\n                    }\n                }\n                pageInfo {\n                    endCursor\n                    startCursor\n                    hasNextPage\n                    hasPreviousPage\n                }\n            }\n        }\n    }'";

/// The command that asks for a page of projects, up to the kind of project.
pub const PROJECTS_QUERY_HEAD: &'static str =
    "gh api graphql -F owner='Its-Just-Nans' -f query='\n    query( $owner: String!){\n        user(login: $owner) {\n            ";

/// The part between the kind of project and the place of the cursor.
pub const PROJECTS_QUERY_COUNT: &'static str =
    "(first: 100";

/// The part between the place of the cursor and the filter.
pub const PROJECTS_QUERY_FILTER: &'static str =
    " ";

/// The part between the filter and the fields that only repositories have.
pub const PROJECTS_QUERY_FIELDS: &'static str =
    ", privacy: PUBLIC) {\n                pageInfo {\n                    hasNextPage\n                    endCursor\n                    startCursor\n                }\n                nodes {\n                    url\n                    name\n                    ";

/// The rest of the command that asks for a page of projects.
pub const PROJECTS_QUERY_TAIL: &'static str =
    "\n                    description\n                    stargazerCount\n                }\n            }\n        }\n    }'";

/// The fields that only repositories have.
pub const REPOSITORY_FIELDS: &'static str =
    "primaryLanguage {\n                        name\n                        color\n                    }\n                    homepageUrl\n                    diskUsage\n                    forkCount\n                    licenseInfo {\n                        name\n                    }";

} // verus!
