//! Verified core of a command-line client for the Loco translation
//! management API: argument parsing, configuration resolution, request
//! construction, response classification and the text that commands print.
pub mod text;
pub mod cli;
pub mod error;
pub mod models;
pub mod client;
pub mod commands;
pub mod config;
pub mod output;
