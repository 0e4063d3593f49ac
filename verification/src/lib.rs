//! # n4n5
//!
//! The logic of a personal command line tool: the configuration and the
//! dialogue that completes it, the movie list, the mirror of GitHub, the
//! mirror of settings files and the lists of installed programs.
//!
//! Nothing in this library reads a file, asks the user or runs a program.
//! Each command says what is to be printed, asked, read or written, and
//! takes what came of it; the program around the library does the rest.

pub mod cli;
pub mod commands;
pub mod config;
pub mod document;
pub mod errors;
pub mod json;
pub mod location;
pub mod order;
pub mod paths;
pub mod store;
pub mod text;
pub mod utils;

pub use cli::cli_main;
