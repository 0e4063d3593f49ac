//! Small tools that stand beside the main commands.

pub mod lib;
pub mod list_crates;
pub mod types;
