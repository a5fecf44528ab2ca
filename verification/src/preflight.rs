//! The checks before anything is started: docker, its compose plugin and its
//! buildx plugin must answer.

use vstd::prelude::*;
use vstd::string::*;

use crate::text::{push_text, views};

verus! {

/// One question put to docker.
#[derive(Clone, Copy, Debug, PartialEq, Eq, Structural)]
pub enum Probe {
    /// Is docker installed, and does its daemon answer?
    Docker,
    /// Is the compose plugin there?
    Compose,
    /// Is the buildx plugin there?
    Buildx,
}

/// What the check does next.
#[derive(Clone, Copy, Debug, PartialEq, Eq, Structural)]
pub enum Step {
    /// Run `docker` with the probe's arguments, its output thrown away.
    Run(Probe),
    /// Give up, with the complaint of the probe that failed.
    Fail(Probe),
    /// Every probe succeeded.
    Pass,
}

impl Probe {
    /// The arguments that `docker` is run with.
    pub open spec fn args(self) -> Seq<Seq<char>> {
        match self {
            Probe::Docker => seq!["version"@, "--format"@, "{{.Client.Version}}"@],
            Probe::Compose => seq!["compose"@, "version"@, "--short"@],
            Probe::Buildx => seq!["buildx"@, "version"@],
        }
    }

    /// What the user is told when the probe fails.
    pub open spec fn complaint(self) -> Seq<char> {
        match self {
            Probe::Docker => "docker is not installed or the daemon is not running.\nInstall Docker: https://docs.docker.com/get-docker/"@,
            Probe::Compose => "docker compose (v2) is not available.\nInstall the Compose plugin: https://docs.docker.com/compose/install/"@,
            Probe::Buildx => "docker buildx is not available.\nInstall the Buildx plugin: https://docs.docker.com/build/install-buildx/"@,
        }
    }

    /// The step that follows the probe's answer. A probe that could not be
    /// run, or that ran and failed, ends the check with its complaint; one
    /// that succeeded leads to the next probe, and the last to success.
    pub open spec fn follow(self, status: Option<bool>) -> Step {
        if status == Some(true) {
            match self {
                Probe::Docker => Step::Run(Probe::Compose),
                Probe::Compose => Step::Run(Probe::Buildx),
                Probe::Buildx => Step::Pass,
            }
        } else {
            Step::Fail(self)
        }
    }

    /// The arguments that `docker` is run with.
    pub fn argv(self) -> (argv: Vec<String>)
        ensures
            views(argv@) == self.args(),
    {
        let mut argv: Vec<String> = Vec::new();
        assert(views(argv@) =~= Seq::<Seq<char>>::empty());
        match self {
            Probe::Docker => {
                push_text(&mut argv, "version");
                push_text(&mut argv, "--format");
                push_text(&mut argv, "{{.Client.Version}}");
            },
            Probe::Compose => {
                push_text(&mut argv, "compose");
                push_text(&mut argv, "version");
                push_text(&mut argv, "--short");
            },
            Probe::Buildx => {
                push_text(&mut argv, "buildx");
                push_text(&mut argv, "version");
            },
        }
        assert(views(argv@) =~= self.args());
        argv
    }

    /// What the user is told when the probe fails.
    pub fn failure(self) -> (message: &'static str)
        ensures
            message@ == self.complaint(),
    {
        match self {
            Probe::Docker => "docker is not installed or the daemon is not running.\nInstall Docker: https://docs.docker.com/get-docker/",
            Probe::Compose => "docker compose (v2) is not available.\nInstall the Compose plugin: https://docs.docker.com/compose/install/",
            Probe::Buildx => "docker buildx is not available.\nInstall the Buildx plugin: https://docs.docker.com/build/install-buildx/",
        }
    }

    /// The step that follows the probe's answer: `status` is absent where
    /// docker could not be run, else whether it ended in success.
    pub fn advance(self, status: Option<bool>) -> (step: Step)
        ensures
            step == self.follow(status),
    {
        match status {
            Some(true) => match self {
                Probe::Docker => Step::Run(Probe::Compose),
                Probe::Compose => Step::Run(Probe::Buildx),
                Probe::Buildx => Step::Pass,
            },
            _ => Step::Fail(self),
        }
    }
}

/// The step that the check starts with.
pub fn begin() -> (step: Step)
    ensures
        step == Step::Run(Probe::Docker),
{
    Step::Run(Probe::Docker)
}

/// The end of a check in which the probes answered `docker`, `compose` and
/// `buildx`, each asked only after the one before it succeeded.
pub open spec fn verdict(docker: Option<bool>, compose: Option<bool>, buildx: Option<bool>) -> Step {
    match Probe::Docker.follow(docker) {
        Step::Run(_) => match Probe::Compose.follow(compose) {
            Step::Run(_) => Probe::Buildx.follow(buildx),
            end => end,
        },
        end => end,
    }
}

/// The check passes exactly when all three probes succeed; otherwise it
/// fails with the complaint of the first probe that did not.
pub proof fn lemma_first_complaint(docker: Option<bool>, compose: Option<bool>, buildx: Option<bool>)
    ensures
        verdict(docker, compose, buildx) == Step::Pass <==> docker == Some(true) && compose == Some(
            true,
        ) && buildx == Some(true),
        docker != Some(true) ==> verdict(docker, compose, buildx) == Step::Fail(Probe::Docker),
        docker == Some(true) && compose != Some(true) ==> verdict(docker, compose, buildx)
            == Step::Fail(Probe::Compose),
        docker == Some(true) && compose == Some(true) && buildx != Some(true) ==> verdict(
            docker,
            compose,
            buildx,
        ) == Step::Fail(Probe::Buildx),
{
}

} // verus!
