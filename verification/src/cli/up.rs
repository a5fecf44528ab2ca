//! `up`: spin up a devcontainer.

use std::path::PathBuf;
use vstd::prelude::*;

use crate::runner::RunError;

verus! {

/// Spin up a devcontainer: for a project, under a name, and exec into it once
/// it is up.
#[derive(Debug)]
pub struct Up {
    pub project: Option<String>,
    pub name: Option<PathBuf>,
    pub exec_cmd: Option<Vec<String>>,
}

impl Up {
    /// Runs the command. There is nothing to do yet, so it succeeds.
    pub fn run(self) -> (outcome: Result<(), RunError>)
        ensures
            outcome is Ok,
    {
        Ok(())
    }
}

} // verus!
