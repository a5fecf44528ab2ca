//! `list`: list the active devcontainers of a project.

use vstd::prelude::*;
use vstd::string::*;

verus! {

/// List active devcontainers. `project` is absent where the option was not
/// given, and holds nothing where it was given without a name.
#[derive(Debug)]
pub struct List {
    pub project: Option<Option<String>>,
}

impl List {
    /// The project to list, where one was named.
    pub open spec fn named_project(&self) -> Option<Seq<char>> {
        match self.project {
            Some(Some(name)) => Some(name@),
            _ => None,
        }
    }

    /// The project to list, where one was named.
    pub fn project(&self) -> (name: Option<&str>)
        ensures
            match name {
                Some(n) => Some(n@),
                None => None,
            } == self.named_project(),
    {
        match &self.project {
            Some(Some(name)) => Some(name.as_str()),
            _ => None,
        }
    }
}

} // verus!
