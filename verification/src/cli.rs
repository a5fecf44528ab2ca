//! The commands of the command line, as plain data.

use std::path::PathBuf;
use vstd::prelude::*;

pub mod kill;
pub mod list;
pub mod up;

verus! {

/// std's owned path. It is carried from the command line to whoever opens
/// the path; nothing here looks inside.
#[verifier::external_type_specification]
#[verifier::external_body]
pub struct ExPathBuf(std::path::PathBuf);

/// The command line as a whole.
#[derive(Debug)]
pub struct Cli {
    pub command: Commands,
}

/// The subcommands.
#[derive(Debug)]
pub enum Commands {
    Up(up::Up),
    Down(Down),
    Clean(Clean),
    Exec(Exec),
    List(List),
}

impl Commands {
    /// The one-letter alias of the subcommand.
    pub open spec fn alias(&self) -> char {
        match self {
            Commands::Up(_) => 'u',
            Commands::Down(_) => 'd',
            Commands::Clean(_) => 'c',
            Commands::Exec(_) => 'x',
            Commands::List(_) => 'l',
        }
    }

    /// The one-letter alias of the subcommand.
    pub fn visible_alias(&self) -> (alias: char)
        ensures
            alias == self.alias(),
    {
        match self {
            Commands::Up(_) => 'u',
            Commands::Down(_) => 'd',
            Commands::Clean(_) => 'c',
            Commands::Exec(_) => 'x',
            Commands::List(_) => 'l',
        }
    }
}

/// Take a devcontainer down.
#[derive(Debug)]
pub struct Down {}

/// Clean up what devcontainers left behind.
#[derive(Debug)]
pub struct Clean {}

/// Exec into a running devcontainer, named by the path of its workspace or by
/// its name; with neither, the user picks one.
#[derive(Debug)]
pub struct Exec {
    pub workspace: Option<PathBuf>,
    pub name: Option<String>,
    pub cmd: Option<Vec<String>>,
}

/// List active devcontainers.
#[derive(Debug)]
pub struct List {}

} // verus!
