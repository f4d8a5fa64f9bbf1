//! The host-wide application state: the registered projects.
//!
//! A project supplies the two things a terminal session is opened with,
//! a project id and a working directory. The persisted project list is
//! read and written by the host at its file-system edge; the state it
//! hands the rest of the application starts empty and is filled from
//! what was loaded.

use vstd::prelude::*;

verus! {

/// A project the host knows: its id, display name, working directory
/// path, and whether some process is currently active in it.
#[derive(Clone, Debug)]
pub struct Project {
    pub id: String,
    pub name: String,
    pub path: String,
    pub has_active_process: bool,
}

/// The owned application state handed to the command layer.
#[derive(Debug)]
pub struct AppState {
    pub projects: Vec<Project>,
}

impl AppState {
    /// A state with no projects registered; the host appends the
    /// projects it loaded from disk, if that file exists.
    pub fn new() -> (r: Self)
        ensures
            r.projects@.len() == 0,
    {
        AppState { projects: Vec::new() }
    }
}

impl Default for AppState {
    fn default() -> (r: Self)
        ensures
            r.projects@.len() == 0,
    {
        AppState::new()
    }
}

} // verus!
