//! The parts of a devcontainer description that this tool reads.

use vstd::prelude::*;

pub mod dc_options;
pub mod forward_port;
pub mod lifecycle_command;
pub mod unsupported;

verus! {

/// What happens to the containers when the tool attached to them goes away.
#[derive(Clone, Copy, Debug, PartialEq, Eq, Structural)]
pub enum ComposeShutdownAction {
    /// They are left running.
    Leave,
    /// The compose project is stopped.
    StopCompose,
}

/// A devcontainer that is made of compose services.
#[derive(Clone, Debug)]
pub struct DevContainer {
    pub docker_compose_file: Vec<String>,
    pub service: String,
    pub run_services: Vec<String>,
    pub workspace_folder: String,
    pub override_command: Option<bool>,
    pub shutdown_action: Option<ComposeShutdownAction>,
}

impl Default for DevContainer {
    fn default() -> (container: DevContainer)
        ensures
            container.docker_compose_file@.len() == 0,
            container.service@.len() == 0,
            container.run_services@.len() == 0,
            container.workspace_folder@.len() == 0,
            container.override_command is None,
            container.shutdown_action is None,
    {
        DevContainer {
            docker_compose_file: Vec::new(),
            service: String::new(),
            run_services: Vec::new(),
            workspace_folder: String::new(),
            override_command: None,
            shutdown_action: None,
        }
    }
}

} // verus!
