//! Script-like filesystem and process control: the decisions, path handling,
//! executable search and error classification behind a small set of shell
//! commands, each stated as a contract and proved.

pub mod error;
pub mod path;
pub mod directory;
pub mod search;
pub mod metadata;
pub mod process;
pub mod workdir;
