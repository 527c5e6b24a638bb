//! A verified core for a trash-can style file remover.
//!
//! Instead of deleting files permanently, the tool relocates them into a
//! recoverable trash store (`files` and `info` directories, with a metadata
//! sidecar per trashed item).  This crate holds the decision logic of that
//! relocation engine: path and name handling, collision-free destination
//! naming, metadata rendering, and the per-item relocation state machine.
//! The surrounding binary performs the actual filesystem calls and feeds
//! their outcomes back into the state machine.

pub mod batch;
pub mod decimal;
pub mod errors;
pub mod listing;
pub mod metadata;
pub mod naming;
pub mod paths;
pub mod relocate;
pub mod store;
pub mod view_model;

use vstd::prelude::*;

verus! {

/// The option flags accepted by the tool, as one read-only value shared by
/// every relocation in a run.
pub struct Args {
    /// remove directories and their contents recursively
    pub recursive: bool,
    /// list contents of trash directory
    pub view_trash: bool,
    /// explain what is being done
    pub verbose: bool,
    /// prompt before every removal
    pub interactive: bool,
    /// permanently delete all files in the trash directory
    pub empty: bool,
    /// permanently delete instead of moving to the trash
    pub skip_trash: bool,
    /// list of files/directories to send to trash
    pub files: Vec<String>,
}

} // verus!
