//! The options that this tool adds to a devcontainer description.

use vstd::prelude::*;
use vstd::string::*;

use crate::run::cmd::Cmd;
use crate::text::text_of;

verus! {

/// `home` in place of the first character of `input`.
pub open spec fn with_home(home: Seq<char>, input: Seq<char>) -> Seq<char> {
    home + input.skip(1)
}

/// Whether `input` is a tilde that stands alone or before a separator, a
/// slash or a backslash: the only texts that expansion may change.
pub open spec fn names_home(input: Seq<char>) -> bool {
    &&& input.len() > 0
    &&& input[0] == '~'
    &&& (input.len() == 1 || input[1] == '/' || input[1] == '\\')
}

/// shellexpand's `tilde`: a text that does not start with a tilde, or that
/// has something other than a separator right behind it, comes back as it
/// is. A tilde that stands alone or before a separator comes back with
/// something in its place: the home directory where the process has one,
/// else the tilde itself (as before a backslash where that is no separator).
#[verifier::external_body]
fn tilde(input: &str) -> (expanded: String)
    ensures
        !names_home(input@) ==> expanded@ == input@,
        names_home(input@) ==> exists|home: Seq<char>|
            expanded@ == #[trigger] with_home(home, input@),
{
    shellexpand::tilde(input).into_owned()
}

/// Whether `path` is something that `written` may expand to: `written`
/// itself, or, where it starts with a tilde that stands alone or before a
/// separator, `written` with something in the tilde's place.
pub open spec fn expands_to(written: Seq<char>, path: Seq<char>) -> bool {
    if names_home(written) {
        exists|home: Seq<char>| path == #[trigger] with_home(home, written)
    } else {
        path == written
    }
}

/// Reads a path as a shell would: a tilde at its front stands for the home
/// directory.
pub fn shell_path(written: Option<String>) -> (path: Option<String>)
    ensures
        written is Some <==> path is Some,
        written matches Some(w) ==> expands_to(w@, path->0@),
{
    match written {
        Some(w) => Some(tilde(w.as_str())),
        None => None,
    }
}

/// The options of this tool in a devcontainer description.
pub struct DcOptions {
    pub default_exec: Option<Cmd>,
    pub worktree_folder: Option<String>,
    /// The host port that forwarding uses.
    pub forward_port: Option<u16>,
    /// The port inside the container that is forwarded to.
    pub container_port: Option<u16>,
    /// The volumes that are copied by default.
    pub default_copy_volumes: Option<Vec<String>>,
    /// Whether the project's git directory is mounted into each workspace's
    /// devcontainer.
    pub mount_git: bool,
}

impl Default for DcOptions {
    fn default() -> (options: DcOptions)
        ensures
            options.default_exec is None,
            options.worktree_folder is None,
            options.forward_port is None,
            options.container_port is None,
            options.default_copy_volumes is None,
            !options.mount_git,
    {
        DcOptions {
            default_exec: None,
            worktree_folder: None,
            forward_port: None,
            container_port: None,
            default_copy_volumes: None,
            mount_git: false,
        }
    }
}

impl DcOptions {
    /// The directory that workspaces are made in: the configured one, or
    /// `/tmp/`.
    pub open spec fn workspace_path(&self) -> Seq<char> {
        match self.worktree_folder {
            Some(folder) => folder@,
            None => "/tmp/"@,
        }
    }

    /// The directory that workspaces are made in.
    pub fn workspace_dir(&self) -> (dir: String)
        ensures
            dir@ == self.workspace_path(),
    {
        match &self.worktree_folder {
            Some(folder) => folder.clone(),
            None => String::from_str("/tmp/"),
        }
    }
}

} // verus!
