//! The commands of the tool, one module each.

pub mod config;
pub mod gh;
pub mod helpers;
pub mod movies;
pub mod music;
pub mod settings;
pub mod shortcuts;
pub mod sync;
pub mod utils;
