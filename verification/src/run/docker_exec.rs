//! A command run inside a running container: the `docker exec` argument
//! vector that takes it there.

use indexmap::IndexMap;
use vstd::prelude::*;
use vstd::string::*;

use crate::run::cmd::Cmd;
use crate::run::Strategy;
use crate::text::{push_text, str_of, str_views, text_of, views};

verus! {

/// indexmap's map that keeps its entries in the order of insertion.
#[verifier::external_type_specification]
#[verifier::external_body]
#[verifier::reject_recursive_types(K)]
#[verifier::reject_recursive_types(V)]
#[verifier::reject_recursive_types(S)]
pub struct ExIndexMap<K, V, S>(indexmap::IndexMap<K, V, S>);

/// The entries of an environment in the map's order, which is that of
/// insertion: each variable's name, and its value where it has one.
pub uninterp spec fn env_entries(env: IndexMap<String, Option<String>>) -> Seq<
    (Seq<char>, Option<Seq<char>>),
>;

/// indexmap's `IndexMap::len`: the number of entries.
#[verifier::external_body]
fn env_len(env: &IndexMap<String, Option<String>>) -> (len: usize)
    ensures
        len == env_entries(*env).len(),
{
    env.len()
}

/// indexmap's `IndexMap::get_index`: the entry at `index` in the order of
/// insertion, where `index` is below the number of entries.
#[verifier::external_body]
fn env_entry<'a>(env: &'a IndexMap<String, Option<String>>, index: usize) -> (entry: Option<
    (&'a String, &'a Option<String>),
>)
    ensures
        entry is Some <==> index < env_entries(*env).len(),
        entry matches Some((name, value)) ==> (name@, text_of(*value)) == env_entries(*env)[index as int],
{
    env.get_index(index)
}

/// A command to run inside a container, under a name, as a user, in a
/// working directory and with an environment.
pub struct DockerExec<'a> {
    pub name: &'a str,
    pub container: &'a str,
    pub cmd: &'a Cmd,
    pub user: Option<&'a str>,
    pub workdir: Option<&'a str>,
    pub env: &'a IndexMap<String, Option<String>>,
}

/// One variable as `docker exec -e` takes it: `NAME=value`, or the bare name,
/// which hands the variable down from the environment outside.
pub open spec fn env_arg(entry: (Seq<char>, Option<Seq<char>>)) -> Seq<char> {
    match entry.1 {
        Some(value) => entry.0 + seq!['='] + value,
        None => entry.0,
    }
}

/// `-e` and the variable, for each entry in order.
pub open spec fn env_flags(entries: Seq<(Seq<char>, Option<Seq<char>>)>) -> Seq<Seq<char>>
    decreases entries.len(),
{
    if entries.len() == 0 {
        Seq::empty()
    } else {
        env_flags(entries.drop_last()) + seq![seq!['-', 'e'], env_arg(entries.last())]
    }
}

/// `flag` and `value`, where there is a value.
pub open spec fn flag(name: Seq<char>, value: Option<Seq<char>>) -> Seq<Seq<char>> {
    match value {
        Some(v) => seq![name, v],
        None => Seq::empty(),
    }
}

/// The argument vector that runs `command` inside `container`: `docker
/// exec`, the user, the working directory, the environment, the container,
/// the command.
pub open spec fn exec_argv(
    container: Seq<char>,
    user: Option<Seq<char>>,
    workdir: Option<Seq<char>>,
    env: Seq<(Seq<char>, Option<Seq<char>>)>,
    command: Seq<Seq<char>>,
) -> Seq<Seq<char>> {
    seq![seq!['d', 'o', 'c', 'k', 'e', 'r'], seq!['e', 'x', 'e', 'c']] + flag(seq!['-', 'u'], user)
        + flag(seq!['-', 'w'], workdir) + env_flags(env) + seq![container] + command
}

impl<'a> DockerExec<'a> {
    /// The name that the command runs as.
    pub fn name(&self) -> (name: &'a str)
        ensures
            name@ == self.name@,
    {
        self.name
    }

    /// The command for people to read.
    pub fn description(&self) -> (text: String)
        ensures
            text@ == self.cmd.description_text(),
    {
        self.cmd.description()
    }

    /// The way the command is executed: with its output forwarded in lines,
    /// since nobody attaches to a command inside the container.
    pub fn strategy(&self) -> (way: Strategy)
        ensures
            way == Strategy::BufferedLines,
    {
        Strategy::BufferedLines
    }

    /// The argument vector that runs the command inside the container.
    pub fn argv(&self) -> (argv: Vec<String>)
        ensures
            views(argv@) == exec_argv(
                self.container@,
                str_of(self.user),
                str_of(self.workdir),
                env_entries(*self.env),
                self.cmd.args(),
            ),
    {
        proof {
            reveal_strlit("docker");
            reveal_strlit("exec");
            reveal_strlit("-u");
            reveal_strlit("-w");
            reveal_strlit("-e");
            reveal_strlit("=");
            assert("docker"@ =~= seq!['d', 'o', 'c', 'k', 'e', 'r']);
            assert("exec"@ =~= seq!['e', 'x', 'e', 'c']);
            assert("-u"@ =~= seq!['-', 'u']);
            assert("-w"@ =~= seq!['-', 'w']);
            assert("-e"@ =~= seq!['-', 'e']);
            assert("="@ =~= seq!['=']);
        }
        let ghost entries = env_entries(*self.env);
        let mut argv: Vec<String> = Vec::new();
        assert(views(argv@) =~= Seq::<Seq<char>>::empty());
        push_text(&mut argv, "docker");
        push_text(&mut argv, "exec");
        let ghost head = seq![seq!['d', 'o', 'c', 'k', 'e', 'r'], seq!['e', 'x', 'e', 'c']];
        assert(views(argv@) =~= head);
        match self.user {
            Some(u) => {
                push_text(&mut argv, "-u");
                push_text(&mut argv, u);
            },
            None => {},
        }
        let ghost with_user = head + flag(seq!['-', 'u'], str_of(self.user));
        assert(views(argv@) =~= with_user);
        match self.workdir {
            Some(w) => {
                push_text(&mut argv, "-w");
                push_text(&mut argv, w);
            },
            None => {},
        }
        let ghost with_dir = with_user + flag(seq!['-', 'w'], str_of(self.workdir));
        assert(views(argv@) =~= with_dir);
        let count = env_len(self.env);
        let mut i: usize = 0;
        assert(env_flags(entries.take(0)) =~= Seq::<Seq<char>>::empty());
        while i < count
            invariant
                i <= count,
                count == entries.len(),
                entries == env_entries(*self.env),
                "-e"@ == seq!['-', 'e'],
                "="@ == seq!['='],
                views(argv@) == with_dir + env_flags(entries.take(i as int)),
            decreases count - i,
        {
            match env_entry(self.env, i) {
                Some((name, value)) => {
                    let mut arg = name.clone();
                    match value {
                        Some(v) => {
                            arg.append("=");
                            arg.append(v.as_str());
                        },
                        None => {},
                    }
                    assert(arg@ =~= env_arg(entries[i as int]));
                    push_text(&mut argv, "-e");
                    push_text(&mut argv, arg.as_str());
                    proof {
                        let next = entries.take(i + 1);
                        assert(next.drop_last() =~= entries.take(i as int));
                        assert(next.last() == entries[i as int]);
                        assert(views(argv@) =~= with_dir + env_flags(next));
                    }
                },
                None => {},
            }
            i += 1;
        }
        assert(entries.take(count as int) =~= entries);
        let ghost with_env = with_dir + env_flags(entries);
        push_text(&mut argv, self.container);
        let args = self.cmd.as_args();
        let ghost before = views(argv@);
        assert(before =~= with_env + seq![self.container@]);
        let mut j: usize = 0;
        assert(before =~= before + str_views(args@).take(0));
        while j < args.len()
            invariant
                j <= args.len(),
                views(argv@) == before + str_views(args@).take(j as int),
            decreases args.len() - j,
        {
            push_text(&mut argv, args[j]);
            assert(views(argv@) =~= before + str_views(args@).take(j + 1));
            j += 1;
        }
        assert(str_views(args@).take(args.len() as int) =~= str_views(args@));
        argv
    }
}

} // verus!
