//! What the registry of crates answers.

use vstd::prelude::*;

verus! {

/// User Response
#[derive(Clone, Debug, PartialEq)]
pub struct UserResponse {
    /// User definition
    pub user: Option<User>,
}

/// User type
#[derive(Clone, Debug, PartialEq)]
pub struct User {
    /// Id of user
    pub id: i64,
}

/// Crates info list
#[derive(Clone, Debug, PartialEq)]
pub struct CrateResponse {
    /// crates list
    pub crates: Vec<CrateInfo>,
}

/// crate info
#[derive(Clone, Debug, PartialEq)]
pub struct CrateInfo {
    /// Id of crate
    pub id: String,
}

/// crate data from crates.io
#[derive(Clone, Debug, PartialEq)]
pub struct CrateData {
    /// inner crate data
    pub krate: CrateInnerData,
}

/// Crate inner data
#[derive(Clone, Debug, PartialEq)]
pub struct CrateInnerData {
    /// crate name
    pub name: String,
    /// repository url
    pub repository: Option<String>,
    /// homepage url
    pub homepage: Option<String>,
    /// documentation url
    pub documentation: Option<String>,
    /// description
    pub description: Option<String>,
}

} // verus!
