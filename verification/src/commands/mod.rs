//! The decisions behind each command: what to ask the API, where results
//! go and what is printed.
pub mod pull;
pub mod push;
pub mod status;
pub mod assets;
pub mod strings;
pub mod string_flow;
pub mod translations;
pub mod locales;
pub mod tags;
pub mod auth;
pub mod completions;
pub mod init;
