//! Task execution and live observability for ephemeral development
//! environments: what a task is, how a group of tasks is joined, and what the
//! terminal shows while they run.

pub mod ansi;
pub mod bytes;
pub mod cli;
pub mod clock;
pub mod devcontainer;
pub mod preflight;
pub mod run;
pub mod runner;
pub mod subscriber;
pub mod text;
pub mod workspace;
pub mod worktree;
