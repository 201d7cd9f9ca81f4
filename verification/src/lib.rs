//! A small note-taking service: the note model, an in-memory note store with
//! add, remove and search, the command-line client's decisions, and the server's
//! configuration.

pub mod cli;
pub mod compose;
pub mod config;
pub mod error_def;
pub mod lifecycle;
pub mod note;
pub mod service;
pub mod store;
pub mod text;

