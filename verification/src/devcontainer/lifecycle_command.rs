//! A lifecycle command of a devcontainer: one command, or a group of named
//! commands that run side by side.

use indexmap::IndexMap;
use vstd::prelude::*;
use vstd::string::*;

use crate::run::cmd::{Cmd, NamedCmd};
use crate::run::docker_exec::DockerExec;

verus! {

/// A lifecycle command: one command, or named commands to run in parallel,
/// in the order in which they were written.
pub enum LifecycleCommand {
    Single(Cmd),
    Parallel(IndexMap<String, Cmd>),
}

/// The entries of a group of commands in the map's order, which is that of
/// insertion: each command under its name.
pub uninterp spec fn group_entries(group: IndexMap<String, Cmd>) -> Seq<(Seq<char>, Cmd)>;

/// indexmap's `IndexMap::len`: the number of entries.
#[verifier::external_body]
fn group_len(group: &IndexMap<String, Cmd>) -> (len: usize)
    ensures
        len == group_entries(*group).len(),
{
    group.len()
}

/// indexmap's `IndexMap::get_index`: the entry at `index` in the order of
/// insertion, where `index` is below the number of entries.
#[verifier::external_body]
fn group_entry<'a>(group: &'a IndexMap<String, Cmd>, index: usize) -> (entry: Option<
    (&'a String, &'a Cmd),
>)
    ensures
        entry is Some <==> index < group_entries(*group).len(),
        entry matches Some((name, cmd)) ==> (name@, *cmd) == group_entries(*group)[index as int],
{
    group.get_index(index)
}

/// What a lifecycle command asks the runner for: one task, or a labelled
/// group of tasks.
pub enum Plan<'a, T> {
    Single(T),
    Parallel(&'a str, Vec<T>),
}

impl LifecycleCommand {
    /// The tasks that run the command on the host, in `dir`: the one command
    /// under `name`, or every command of the group under its own name, the
    /// group under `name`.
    pub fn on_host<'a>(&'a self, name: &'a str, dir: Option<&'a str>) -> (plan: Plan<
        'a,
        NamedCmd<'a>,
    >)
        ensures
            match *self {
                LifecycleCommand::Single(cmd) => plan matches Plan::Single(task) && task.name@
                    == name@ && *task.cmd == cmd && task.dir == dir,
                LifecycleCommand::Parallel(group) => plan matches Plan::Parallel(label, tasks) && {
                    &&& label@ == name@
                    &&& tasks.len() == group_entries(group).len()
                    &&& forall|i: int|
                        0 <= i < tasks.len() ==> {
                            &&& (#[trigger] tasks[i]).name@ == group_entries(group)[i].0
                            &&& *tasks[i].cmd == group_entries(group)[i].1
                            &&& tasks[i].dir == dir
                        }
                },
            },
    {
        match self {
            LifecycleCommand::Single(cmd) => Plan::Single(NamedCmd { name, cmd, dir }),
            LifecycleCommand::Parallel(group) => {
                let count = group_len(group);
                let mut tasks: Vec<NamedCmd<'a>> = Vec::new();
                let mut i: usize = 0;
                while i < count
                    invariant
                        i <= count,
                        count == group_entries(*group).len(),
                        tasks.len() == i,
                        forall|j: int|
                            0 <= j < i ==> {
                                &&& (#[trigger] tasks[j]).name@ == group_entries(*group)[j].0
                                &&& *tasks[j].cmd == group_entries(*group)[j].1
                                &&& tasks[j].dir == dir
                            },
                    decreases count - i,
                {
                    match group_entry(group, i) {
                        Some((cmd_name, cmd)) => {
                            tasks.push(NamedCmd { name: cmd_name.as_str(), cmd, dir });
                        },
                        None => {},
                    }
                    i += 1;
                }
                Plan::Parallel(name, tasks)
            },
        }
    }

    /// The tasks that run the command inside `container`: the one command
    /// under `name`, or every command of the group under its own name, the
    /// group under `name`. Each runs as `user`, in `workdir` and with `env`.
    pub fn in_container<'a>(
        &'a self,
        name: &'a str,
        container: &'a str,
        user: Option<&'a str>,
        workdir: Option<&'a str>,
        env: &'a IndexMap<String, Option<String>>,
    ) -> (plan: Plan<'a, DockerExec<'a>>)
        ensures
            match *self {
                LifecycleCommand::Single(cmd) => plan matches Plan::Single(task) && {
                    &&& task.name@ == name@
                    &&& *task.cmd == cmd
                    &&& task.container@ == container@
                    &&& task.user == user
                    &&& task.workdir == workdir
                    &&& *task.env == *env
                },
                LifecycleCommand::Parallel(group) => plan matches Plan::Parallel(label, tasks) && {
                    &&& label@ == name@
                    &&& tasks.len() == group_entries(group).len()
                    &&& forall|i: int|
                        0 <= i < tasks.len() ==> {
                            &&& (#[trigger] tasks[i]).name@ == group_entries(group)[i].0
                            &&& *tasks[i].cmd == group_entries(group)[i].1
                            &&& tasks[i].container@ == container@
                            &&& tasks[i].user == user
                            &&& tasks[i].workdir == workdir
                            &&& *tasks[i].env == *env
                        }
                },
            },
    {
        match self {
            LifecycleCommand::Single(cmd) => Plan::Single(
                DockerExec { name, container, cmd, user, workdir, env },
            ),
            LifecycleCommand::Parallel(group) => {
                let count = group_len(group);
                let mut tasks: Vec<DockerExec<'a>> = Vec::new();
                let mut i: usize = 0;
                while i < count
                    invariant
                        i <= count,
                        count == group_entries(*group).len(),
                        tasks.len() == i,
                        forall|j: int|
                            0 <= j < i ==> {
                                &&& (#[trigger] tasks[j]).name@ == group_entries(*group)[j].0
                                &&& *tasks[j].cmd == group_entries(*group)[j].1
                                &&& tasks[j].container@ == container@
                                &&& tasks[j].user == user
                                &&& tasks[j].workdir == workdir
                                &&& *tasks[j].env == *env
                            },
                    decreases count - i,
                {
                    match group_entry(group, i) {
                        Some((cmd_name, cmd)) => {
                            tasks.push(
                                DockerExec {
                                    name: cmd_name.as_str(),
                                    container,
                                    cmd,
                                    user,
                                    workdir,
                                    env,
                                },
                            );
                        },
                        None => {},
                    }
                    i += 1;
                }
                Plan::Parallel(name, tasks)
            },
        }
    }
}

} // verus!
