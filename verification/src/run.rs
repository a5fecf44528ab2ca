//! Commands that run on the host or inside a running container, as argument
//! vectors, and the way in which each kind is executed.

use vstd::prelude::*;

pub mod cmd;
pub mod docker_exec;

verus! {

/// A way of executing a subprocess.
#[derive(Clone, Copy, Debug, PartialEq, Eq, Structural)]
pub enum Strategy {
    /// The output is captured and forwarded line by line.
    BufferedLines,
    /// The subprocess gets a terminal of its own, and what it writes goes
    /// to the real terminal as it is.
    PseudoTerminal,
}

impl Strategy {
    /// Whether what the subprocess writes as errors goes down the same pipe
    /// as its output: it does where the output is captured, so that the
    /// lines come in the order in which they were written.
    pub fn merges_errors(self) -> (merged: bool)
        ensures
            merged == (self == Strategy::BufferedLines),
    {
        match self {
            Strategy::BufferedLines => true,
            Strategy::PseudoTerminal => false,
        }
    }

    /// Whether the subprocess is left without input. It always is: no task
    /// reads what is typed at this process.
    pub fn closes_input(self) -> (closed: bool)
        ensures
            closed,
    {
        true
    }
}

} // verus!
