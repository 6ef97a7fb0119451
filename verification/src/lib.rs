//! Planning and reporting for fetching every remote of a list of git
//! repositories.
//!
//! The crate holds the decisions and the text of such a run: how the index of
//! repositories is read, in which order repositories and remotes are visited,
//! what is reported for each outcome, and how progress is rendered. Access to
//! repositories, the network and the console belongs to the caller.

pub mod text;
pub mod object_id;
pub mod progress;
pub mod credentials;
pub mod index;
pub mod report;
pub mod session;
pub mod laws;
