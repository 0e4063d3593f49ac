//! Mirroring of GitHub pull requests and projects.

pub mod lib;
pub mod queries;
pub mod types;
