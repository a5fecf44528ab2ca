//! A command as a devcontainer names it, and the command under the name that
//! it runs as.

use vec1::Vec1;
use vstd::prelude::*;
use vstd::string::*;

use crate::run::Strategy;
use crate::text::{join, join_strings, str_views, views};

verus! {

/// vec1's vector that is never empty.
#[verifier::external_type_specification]
#[verifier::external_body]
#[verifier::reject_recursive_types(I)]
pub struct ExVec1<I>(vec1::Vec1<I>);

/// The texts that a `Vec1<String>` holds, in order.
pub uninterp spec fn vec1_texts(items: Vec1<String>) -> Seq<Seq<char>>;

/// vec1's `Vec1::as_vec`: the vector underneath, which holds the same items
/// in the same order and, as every `Vec1` does, at least one.
#[verifier::external_body]
fn as_vec(items: &Vec1<String>) -> (inner: &Vec<String>)
    ensures
        views(inner@) == vec1_texts(*items),
        inner.len() >= 1,
{
    items.as_vec()
}

/// A command: a shell command line, or a program with its arguments.
pub enum Cmd {
    Shell(String),
    Args(Vec1<String>),
}

/// The arguments that hand `prog` to the shell as one command line.
pub open spec fn shell_args(prog: Seq<char>) -> Seq<Seq<char>> {
    seq![seq!['/', 'b', 'i', 'n', '/', 's', 'h'], seq!['-', 'c'], prog]
}

impl Cmd {
    /// The argument vector that runs the command: the shell with the command
    /// line, or the program and its arguments as they are.
    pub open spec fn args(&self) -> Seq<Seq<char>> {
        match self {
            Cmd::Shell(prog) => shell_args(prog@),
            Cmd::Args(args) => vec1_texts(*args),
        }
    }

    /// The command for people to read: the command line as it is, or the
    /// arguments with one space between them.
    pub open spec fn description_text(&self) -> Seq<char> {
        match self {
            Cmd::Shell(prog) => prog@,
            Cmd::Args(args) => join(vec1_texts(*args), seq![' ']),
        }
    }

    /// The argument vector that runs the command.
    pub fn as_args(&self) -> (args: Vec<&str>)
        ensures
            str_views(args@) == self.args(),
            args.len() >= 1,
    {
        match self {
            Cmd::Shell(prog) => {
                proof {
                    reveal_strlit("/bin/sh");
                    reveal_strlit("-c");
                }
                let mut args: Vec<&str> = Vec::new();
                args.push("/bin/sh");
                args.push("-c");
                args.push(prog.as_str());
                assert(str_views(args@) =~= shell_args(prog@)) by {
                    assert("/bin/sh"@ =~= seq!['/', 'b', 'i', 'n', '/', 's', 'h']);
                    assert("-c"@ =~= seq!['-', 'c']);
                }
                args
            },
            Cmd::Args(items) => {
                let inner = as_vec(items);
                let mut args: Vec<&str> = Vec::new();
                let mut i: usize = 0;
                while i < inner.len()
                    invariant
                        i <= inner.len(),
                        args.len() == i,
                        forall|j: int| 0 <= j < i ==> (#[trigger] args[j])@ == inner[j]@,
                    decreases inner.len() - i,
                {
                    args.push(inner[i].as_str());
                    i += 1;
                }
                assert(str_views(args@) =~= views(inner@));
                args
            },
        }
    }

    /// The command for people to read.
    pub fn description(&self) -> (text: String)
        ensures
            text@ == self.description_text(),
    {
        match self {
            Cmd::Shell(prog) => prog.clone(),
            Cmd::Args(items) => {
                proof {
                    reveal_strlit(" ");
                    assert(" "@ =~= seq![' ']);
                }
                join_strings(as_vec(items), " ")
            },
        }
    }
}

/// A command under the name that it runs as, with the directory to run it
/// in.
pub struct NamedCmd<'a> {
    pub name: &'a str,
    pub cmd: &'a Cmd,
    pub dir: Option<&'a str>,
}

impl<'a> NamedCmd<'a> {
    /// The name that the command runs as.
    pub fn name(&self) -> (name: &'a str)
        ensures
            name@ == self.name@,
    {
        self.name
    }

    /// The command for people to read.
    pub fn description(&self) -> (text: String)
        ensures
            text@ == self.cmd.description_text(),
    {
        self.cmd.description()
    }

    /// The argument vector that runs the command.
    pub fn argv(&self) -> (argv: Vec<&'a str>)
        ensures
            str_views(argv@) == self.cmd.args(),
            argv.len() >= 1,
    {
        self.cmd.as_args()
    }

    /// The way the command is executed: on a terminal of its own, since a
    /// command on the host is one that someone may attach to.
    pub fn strategy(&self) -> (way: Strategy)
        ensures
            way == Strategy::PseudoTerminal,
    {
        Strategy::PseudoTerminal
    }
}

} // verus!
