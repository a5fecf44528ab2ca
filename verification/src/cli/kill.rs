//! `kill`: destroy a workspace, its containers and its worktree.

use vstd::prelude::*;
use vstd::string::*;

use crate::ansi::{Color, Theme};
use crate::text::same_text;

verus! {

/// Destroy a workspace by name, removing its containers and worktree.
#[derive(Debug)]
pub struct Kill {
    /// Force the removal of worktrees.
    pub force: bool,
}

/// What is removed along with a workspace's containers.
#[derive(Clone, Copy, Debug, PartialEq, Eq, Structural)]
pub struct Cleanup {
    pub remove_worktree: bool,
    pub force: bool,
}

/// What `kill` does next.
pub enum Step {
    /// Give up: there is no such workspace.
    NotFound { message: String },
    /// Warn that the root workspace is about to go, and ask whether to go on.
    Confirm { warning: String },
    /// The user said no: stop, and call it success.
    Aborted,
    /// Remove the workspace.
    Remove(Cleanup),
}

/// `no workspace named 'NAME' found`.
pub open spec fn not_found_message(name: Seq<char>) -> Seq<char> {
    "no workspace named '"@ + name + "' found"@
}

/// The warning before the root workspace is destroyed: yellow, with `root`
/// in red.
pub open spec fn root_warning(theme: Theme) -> Seq<char> {
    theme.code(Color::Yellow) + "Will destroy "@ + theme.code(Color::Red) + "root"@ + theme.code(
        Color::Yellow,
    ) + " workspace \u{2014} DATA WILL BE LOST"@ + theme.reset()
}

impl Kill {
    /// The step that `kill` starts with, for the workspace called `name` at
    /// `path` in the project at `project_path`: a workspace that does not
    /// exist is not found, the project's own root asks first, any other is
    /// removed with its worktree.
    pub fn begin(&self, theme: &Theme, name: &str, path: &str, project_path: &str, exists: bool) -> (step:
        Step)
        ensures
            !exists ==> (step matches Step::NotFound { message } && message@ == not_found_message(
                name@,
            )),
            exists && path@ == project_path@ ==> (step matches Step::Confirm { warning } && warning@
                == root_warning(*theme)),
            exists && path@ != project_path@ ==> step == Step::Remove(
                Cleanup { remove_worktree: true, force: self.force },
            ),
    {
        let is_root = same_text(path, project_path);
        if !exists {
            let mut message = String::from_str("no workspace named '");
            message.append(name);
            message.append("' found");
            Step::NotFound { message }
        } else if is_root {
            let mut warning = String::from_str(theme.code_of(Color::Yellow));
            warning.append("Will destroy ");
            warning.append(theme.code_of(Color::Red));
            warning.append("root");
            warning.append(theme.code_of(Color::Yellow));
            warning.append(" workspace \u{2014} DATA WILL BE LOST");
            warning.append(theme.reset_of());
            Step::Confirm { warning }
        } else {
            Step::Remove(Cleanup { remove_worktree: true, force: self.force })
        }
    }

    /// The step after the user has answered the warning: the root workspace
    /// is removed without its worktree, or nothing is.
    pub fn confirmed(&self, yes: bool) -> (step: Step)
        ensures
            step == if yes {
                Step::Remove(Cleanup { remove_worktree: false, force: self.force })
            } else {
                Step::Aborted
            },
    {
        if yes {
            Step::Remove(Cleanup { remove_worktree: false, force: self.force })
        } else {
            Step::Aborted
        }
    }
}

} // verus!
