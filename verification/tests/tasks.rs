use dc::devcontainer::dc_options::{shell_path, DcOptions};
use dc::devcontainer::lifecycle_command::{LifecycleCommand, Plan};
use dc::devcontainer::unsupported::Unsupported;
use dc::run::cmd::{Cmd, NamedCmd};
use dc::run::docker_exec::DockerExec;
use dc::run::Strategy;
use dc::runner::cmd::{Cmd as HostCmd, Expression};
use indexmap::IndexMap;
use vec1::Vec1;

fn args(items: &[&str]) -> Cmd {
    Cmd::Args(Vec1::try_from_vec(items.iter().map(|s| s.to_string()).collect()).unwrap())
}

#[test]
fn description_of_a_shell_command_is_its_text() {
    assert_eq!(Cmd::Shell("echo  a | wc -l".into()).description(), "echo  a | wc -l");
    assert_eq!(Cmd::Shell(String::new()).description(), "");
    assert_eq!(HostCmd::Shell("make -j4 && ./run".into()).command(), "make -j4 && ./run");
}

#[test]
fn description_of_arguments_joins_them_with_one_space() {
    assert_eq!(args(&["cargo", "test", "--all"]).description(), "cargo test --all");
    assert_eq!(args(&["ls"]).description(), "ls");
    assert_eq!(args(&["echo", "", "a b"]).description(), "echo  a b");
    let host = HostCmd::Args(vec!["git".into(), "status".into(), "-s".into()]);
    assert_eq!(host.command(), "git status -s");
    assert_eq!(HostCmd::Args(Vec::new()).command(), "");
}

#[test]
fn arguments_run_as_they_are_and_a_shell_command_through_the_shell() {
    assert_eq!(args(&["cargo", "test"]).as_args(), vec!["cargo", "test"]);
    assert_eq!(Cmd::Shell("echo hi".into()).as_args(), vec!["/bin/sh", "-c", "echo hi"]);
}

#[test]
fn no_command_launches_nothing_however_often() {
    let cmd = HostCmd::NoOp;
    for _ in 0..5 {
        assert!(cmd.as_expression().is_none());
        assert_eq!(cmd.command(), "");
    }
    assert!(matches!(HostCmd::default(), HostCmd::NoOp));
    assert!(HostCmd::Args(Vec::new()).as_expression().is_none());
}

#[test]
fn a_command_launches_the_shell_or_its_first_argument() {
    match HostCmd::Shell("exit 3".into()).as_expression() {
        Some(Expression::Shell { script }) => assert_eq!(script, "exit 3"),
        _ => panic!("a shell command runs in the shell"),
    }
    match HostCmd::Args(vec!["echo".into(), "a".into(), "b".into()]).as_expression() {
        Some(Expression::Program { program, args }) => {
            assert_eq!(program, "echo");
            assert_eq!(args, vec!["a".to_string(), "b".to_string()]);
        }
        _ => panic!("arguments run without a shell"),
    }
    match HostCmd::Args(vec!["true".into()]).as_expression() {
        Some(Expression::Program { program, args }) => {
            assert_eq!(program, "true");
            assert!(args.is_empty());
        }
        _ => panic!("arguments run without a shell"),
    }
}

#[test]
fn a_host_command_gets_a_terminal_and_one_in_a_container_is_forwarded() {
    let cmd = args(&["bash"]);
    let named = NamedCmd { name: "shell", cmd: &cmd, dir: None };
    assert_eq!(named.strategy(), Strategy::PseudoTerminal);
    let env: IndexMap<String, Option<String>> = IndexMap::new();
    let exec =
        DockerExec { name: "x", container: "c", cmd: &cmd, user: None, workdir: None, env: &env };
    assert_eq!(exec.strategy(), Strategy::BufferedLines);
}

#[test]
fn captured_output_carries_the_errors_and_no_task_gets_input() {
    assert!(Strategy::BufferedLines.merges_errors());
    assert!(!Strategy::PseudoTerminal.merges_errors());
    assert!(Strategy::BufferedLines.closes_input());
    assert!(Strategy::PseudoTerminal.closes_input());
}

#[test]
fn named_command_keeps_name_and_command() {
    let cmd = args(&["npm", "ci"]);
    let named = NamedCmd { name: "install", cmd: &cmd, dir: Some("/work") };
    assert_eq!(named.name(), "install");
    assert_eq!(named.description(), "npm ci");
    assert_eq!(named.argv(), vec!["npm", "ci"]);
}

#[test]
fn docker_exec_assembles_the_whole_vector() {
    let cmd = Cmd::Shell("echo $GREETING".into());
    let mut env: IndexMap<String, Option<String>> = IndexMap::new();
    env.insert("GREETING".into(), Some("hello world".into()));
    env.insert("TERM".into(), None);
    env.insert("EMPTY".into(), Some(String::new()));
    let exec = DockerExec {
        name: "greet",
        container: "dev-1",
        cmd: &cmd,
        user: Some("vscode"),
        workdir: Some("/workspaces/app"),
        env: &env,
    };
    assert_eq!(exec.name(), "greet");
    assert_eq!(exec.description(), "echo $GREETING");
    assert_eq!(
        exec.argv(),
        vec![
            "docker", "exec", "-u", "vscode", "-w", "/workspaces/app", "-e",
            "GREETING=hello world", "-e", "TERM", "-e", "EMPTY=", "dev-1", "/bin/sh", "-c",
            "echo $GREETING",
        ]
    );
}

#[test]
fn docker_exec_leaves_out_what_is_not_set() {
    let cmd = args(&["ls", "-la"]);
    let env: IndexMap<String, Option<String>> = IndexMap::new();
    let exec = DockerExec {
        name: "ls",
        container: "c",
        cmd: &cmd,
        user: None,
        workdir: None,
        env: &env,
    };
    assert_eq!(exec.argv(), vec!["docker", "exec", "c", "ls", "-la"]);
    let exec = DockerExec { user: Some("root"), ..exec };
    assert_eq!(exec.argv(), vec!["docker", "exec", "-u", "root", "c", "ls", "-la"]);
    let exec = DockerExec { user: None, workdir: Some("/w"), ..exec };
    assert_eq!(exec.argv(), vec!["docker", "exec", "-w", "/w", "c", "ls", "-la"]);
}

#[test]
fn docker_exec_keeps_the_order_of_the_environment() {
    let cmd = args(&["env"]);
    let mut env: IndexMap<String, Option<String>> = IndexMap::new();
    for name in ["Z", "A", "M"] {
        env.insert(name.to_string(), Some(name.to_lowercase()));
    }
    let exec =
        DockerExec { name: "env", container: "c", cmd: &cmd, user: None, workdir: None, env: &env };
    assert_eq!(
        exec.argv(),
        vec!["docker", "exec", "-e", "Z=z", "-e", "A=a", "-e", "M=m", "c", "env"]
    );
}

#[test]
fn a_single_lifecycle_command_is_one_task() {
    let command = LifecycleCommand::Single(Cmd::Shell("make".into()));
    match command.on_host("postCreate", Some("/repo")) {
        Plan::Single(task) => {
            assert_eq!(task.name, "postCreate");
            assert_eq!(task.description(), "make");
            assert_eq!(task.dir, Some("/repo"));
        }
        Plan::Parallel(..) => panic!("one command is one task"),
    }
}

#[test]
fn a_group_of_lifecycle_commands_keeps_names_and_order() {
    let mut group: IndexMap<String, Cmd> = IndexMap::new();
    group.insert("build".into(), Cmd::Shell("echo building".into()));
    group.insert("test".into(), args(&["echo", "testing"]));
    group.insert("audit".into(), Cmd::Shell("true".into()));
    let command = LifecycleCommand::Parallel(group);
    match command.on_host("ci", None) {
        Plan::Parallel(label, tasks) => {
            assert_eq!(label, "ci");
            let names: Vec<&str> = tasks.iter().map(|t| t.name).collect();
            assert_eq!(names, vec!["build", "test", "audit"]);
            let texts: Vec<String> = tasks.iter().map(|t| t.description()).collect();
            assert_eq!(texts, vec!["echo building", "echo testing", "true"]);
            assert!(tasks.iter().all(|t| t.dir.is_none()));
        }
        Plan::Single(_) => panic!("a group is a group"),
    }
    let env: IndexMap<String, Option<String>> = IndexMap::new();
    match command.in_container("ci", "dev", Some("me"), None, &env) {
        Plan::Parallel(label, tasks) => {
            assert_eq!(label, "ci");
            assert_eq!(tasks.len(), 3);
            assert_eq!(tasks[1].name, "test");
            assert_eq!(
                tasks[1].argv(),
                vec!["docker", "exec", "-u", "me", "dev", "echo", "testing"]
            );
            assert_eq!(tasks[0].container, "dev");
        }
        Plan::Single(_) => panic!("a group is a group"),
    }
}

#[test]
fn an_empty_group_is_an_empty_plan() {
    let command = LifecycleCommand::Parallel(IndexMap::new());
    match command.on_host("nothing", None) {
        Plan::Parallel(label, tasks) => {
            assert_eq!(label, "nothing");
            assert!(tasks.is_empty());
        }
        Plan::Single(_) => panic!("a group is a group"),
    }
}

#[test]
fn workspace_dir_is_the_configured_folder_or_tmp() {
    let options = DcOptions::default();
    assert_eq!(options.workspace_dir(), "/tmp/");
    assert!(!options.mount_git);
    let options = DcOptions { worktree_folder: Some("/srv/trees".into()), ..DcOptions::default() };
    assert_eq!(options.workspace_dir(), "/srv/trees");
}

#[test]
fn shell_path_leaves_what_has_no_tilde() {
    assert_eq!(shell_path(None), None);
    assert_eq!(shell_path(Some("/var/tmp".into())), Some("/var/tmp".to_string()));
    assert_eq!(shell_path(Some("a~b".into())), Some("a~b".to_string()));
    assert_eq!(shell_path(Some(String::new())), Some(String::new()));
}

#[test]
fn shell_path_puts_something_in_place_of_the_tilde() {
    let expanded = shell_path(Some("~/trees".into())).unwrap();
    assert!(expanded.ends_with("/trees"), "{expanded}");
    assert_eq!(expanded, shellexpand::tilde("~/trees"));
    let alone = shell_path(Some("~".into())).unwrap();
    assert_eq!(alone, shellexpand::tilde("~"));
    assert_eq!(expanded, format!("{alone}/trees"));
    for kept in ["~someone/trees", "~~", "~ /x", "~.", "a/~/b"] {
        assert_eq!(shell_path(Some(kept.to_string())).unwrap(), kept);
    }
}

#[test]
fn unsupported_fields_say_so() {
    assert_eq!(Unsupported::Image.field(), "Image");
    assert_eq!(Unsupported::OverrideFeatureInstallOrder.field(), "overrideFeatureInstallOrder");
    assert_eq!(Unsupported::Mounts.warn(), "`mounts` is not supported; ignoring");
    assert_eq!(Unsupported::Features.error(), "`features` is not supported at this time");
    assert_eq!(Unsupported::Secrets.error(), "`secrets` is not supported at this time");
    assert_eq!(Unsupported::Dockerfile.warn(), "`Dockerfile` is not supported; ignoring");
    assert_eq!(
        Unsupported::OtherPortsAttributes.error(),
        "`otherPortsAttributes` is not supported at this time"
    );
}
