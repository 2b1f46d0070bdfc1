//! Resolving a pull request from a git reference and planning the comment
//! that is published on it.
//!
//! Every function here computes on plain values. Whoever talks to the remote
//! service performs the requests that the library describes and hands the
//! answers back.
//!
//! - `github`: repository coordinates from a repository URL, the requests
//!   of the API client, and the pull request of a git reference;
//!   `github::metadata`: the metadata that is hidden in a comment.
//! - `pr_ref`: the git references that name a pull request by its number.
//! - `publish`: the overwrite modes, and where a new comment goes.
//! - `config`: what an invocation asks for, settled from what it was given.
//! - `error`: the failures and their kinds.
//! - `text`, `decimal`: searching in texts, reading and writing numbers.
//! - `boundary`: the calls into other crates, whose contracts are trusted.

pub mod boundary;
pub mod config;
pub mod decimal;
pub mod error;
pub mod github;
pub mod pr_ref;
pub mod publish;
pub mod text;
