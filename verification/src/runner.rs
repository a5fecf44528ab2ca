//! The runner: what a task is, how one task is run inside a span, and how a
//! group of tasks is run and joined.

use vstd::prelude::*;
use vstd::string::*;

use crate::ansi::{Color, Theme};
use crate::clock::{friendly_duration, rounded_millis, Clock, Stamp};
use crate::text::{signed_decimal, signed_decimal_string, text_of};
use crate::subscriber::{
    close_line, enter_line, forward_line, nearest_parallel, parallel_name, DcLayer, LineWriter,
    Output, SpanView, Visitor,
};

pub mod cmd;

verus! {

/// Why a task failed.
#[derive(Debug, Clone, PartialEq, Eq)]
pub enum RunError {
    /// The subprocess could not be started, or its output could not be
    /// read.
    Launch { reason: String },
    /// A line of the subprocess's output was no valid text.
    Decode,
    /// The subprocess ran and did not end with status zero. `name` is the
    /// task's name where it has one; `status` is absent where the subprocess
    /// ended without one.
    Exit { name: Option<String>, status: Option<i32> },
    /// No terminal device could be had for the subprocess.
    Device { reason: String },
}

/// A failure as contracts see it.
pub enum RunErrorView {
    Launch { reason: Seq<char> },
    Decode,
    Exit { name: Option<Seq<char>>, status: Option<i32> },
    Device { reason: Seq<char> },
}

impl View for RunError {
    type V = RunErrorView;

    open spec fn view(&self) -> RunErrorView {
        match self {
            RunError::Launch { reason } => RunErrorView::Launch { reason: reason@ },
            RunError::Decode => RunErrorView::Decode,
            RunError::Exit { name, status } => RunErrorView::Exit {
                name: text_of(*name),
                status: *status,
            },
            RunError::Device { reason } => RunErrorView::Device { reason: reason@ },
        }
    }
}

/// An outcome as contracts see it.
pub open spec fn outcome_view(outcome: Result<(), RunError>) -> Result<(), RunErrorView> {
    match outcome {
        Ok(()) => Ok(()),
        Err(e) => Err(e@),
    }
}

/// The task's name in backticks, or `command` for a task without one.
pub open spec fn culprit(name: Option<Seq<char>>) -> Seq<char> {
    match name {
        Some(n) => "`"@ + n + "`"@,
        None => "command"@,
    }
}

/// A failure in words.
pub open spec fn failure_text(error: RunErrorView) -> Seq<char> {
    match error {
        RunErrorView::Launch { reason } => "failed to launch: "@ + reason,
        RunErrorView::Decode => "output is not valid UTF-8"@,
        RunErrorView::Exit { name, status } => match status {
            Some(code) => culprit(name) + " exited with status "@ + signed_decimal(code as int),
            None => culprit(name) + " ended without a status"@,
        },
        RunErrorView::Device { reason } => "no terminal device: "@ + reason,
    }
}

impl RunError {
    /// The failure in words.
    pub fn message(&self) -> (text: String)
        ensures
            text@ == failure_text(self@),
    {
        match self {
            RunError::Launch { reason } => {
                let mut text = String::from_str("failed to launch: ");
                text.append(reason.as_str());
                text
            },
            RunError::Decode => String::from_str("output is not valid UTF-8"),
            RunError::Exit { name, status } => {
                let mut text = match name {
                    Some(n) => {
                        let mut text = String::from_str("`");
                        text.append(n.as_str());
                        text.append("`");
                        text
                    },
                    None => String::from_str("command"),
                };
                assert(text@ == culprit(text_of(*name)));
                match status {
                    Some(code) => {
                        text.append(" exited with status ");
                        text.append(signed_decimal_string(*code as i64).as_str());
                    },
                    None => {
                        text.append(" ended without a status");
                    },
                }
                text
            },
            RunError::Device { reason } => {
                let mut text = String::from_str("no terminal device: ");
                text.append(reason.as_str());
                text
            },
        }
    }
}

/// The lines that forwarding `messages` under `label` writes, in order.
pub open spec fn forwarded_lines(label: Option<Seq<char>>, messages: Seq<Seq<char>>) -> Seq<
    Seq<char>,
> {
    Seq::new(messages.len(), |i: int| forward_line(label, messages[i]))
}

/// A unit of work that can be described and run.
pub trait Runnable {
    /// Whether `text` is a description that the task may give of itself. A
    /// task that promises nothing admits every text.
    open spec fn describes(&self, text: Seq<char>) -> bool {
        true
    }

    /// Whether one run of the task may forward `messages`, in this order,
    /// and end in `outcome`. A task that promises nothing may do anything.
    open spec fn yields(&self, outcome: Result<(), RunError>, messages: Seq<Seq<char>>) -> bool {
        true
    }

    /// What the task does, for people to read.
    fn command(&self) -> (text: String)
        ensures
            self.describes(text@),
    ;

    /// Runs the task to its end. What it prints is forwarded to `out`, line
    /// by line. Forwarding is all that an `Output` lets a task do, so
    /// whatever the task is, what it leaves behind is what was there with
    /// forwarded lines behind it, under the label that it was given. The
    /// messages forwarded and the outcome are those of one run.
    fn run<W: LineWriter>(&self, out: &mut Output<W>) -> (outcome: Result<(), RunError>)
        ensures
            final(out).label() == old(out).label(),
            exists|messages: Seq<Seq<char>>|
                #![trigger self.yields(outcome, messages)]
                {
                    &&& self.yields(outcome, messages)
                    &&& final(out).written() == old(out).written() + forwarded_lines(
                        old(out).label(),
                        messages,
                    )
                },
    ;
}

/// A task that may be absent. The absent task is the task that does nothing:
/// its description is empty, and running it succeeds at once and forwards
/// nothing, however often it is run.
impl<R: Runnable> Runnable for Option<R> {
    open spec fn describes(&self, text: Seq<char>) -> bool {
        match self {
            Some(task) => task.describes(text),
            None => text.len() == 0,
        }
    }

    open spec fn yields(&self, outcome: Result<(), RunError>, messages: Seq<Seq<char>>) -> bool {
        match self {
            Some(task) => task.yields(outcome, messages),
            None => outcome is Ok && messages.len() == 0,
        }
    }

    fn command(&self) -> (text: String) {
        match self {
            Some(task) => task.command(),
            None => String::new(),
        }
    }

    fn run<W: LineWriter>(&self, out: &mut Output<W>) -> (outcome: Result<(), RunError>)
        ensures
            self is None ==> final(out).written() == old(out).written(),
    {
        match self {
            Some(task) => {
                let outcome = task.run(out);
                proof {
                    let messages = choose|messages: Seq<Seq<char>>|
                        #![trigger task.yields(outcome, messages)]
                        task.yields(outcome, messages) && out.written() == old(out).written()
                            + forwarded_lines(old(out).label(), messages);
                    assert(self.yields(outcome, messages));
                }
                outcome
            },
            None => {
                let outcome: Result<(), RunError> = Ok(());
                proof {
                    let nothing = Seq::<Seq<char>>::empty();
                    assert(out.written() =~= out.written() + forwarded_lines(out.label(), nothing));
                    assert(self.yields(outcome, nothing));
                }
                outcome
            },
        }
    }
}

/// The line that a task's span starts with.
pub open spec fn start_line(theme: Theme, at: Stamp, label: Seq<char>, command: Seq<char>) -> Seq<
    char,
> {
    enter_line(theme, at.text(), Some(label), Some(command))
}

/// The line that a task's span ends with.
pub open spec fn end_line(theme: Theme, started: Stamp, at: Stamp, label: Seq<char>) -> Seq<char> {
    close_line(
        theme,
        at.text(),
        Some(label),
        friendly_duration(rounded_millis(at.instant() - started.instant())),
    )
}

/// The record of the span that a task gets when it runs alone: under no other
/// span, with the task's description, and with no label to hand down.
pub open spec fn solo_view(label: Seq<char>, command: Seq<char>, started: Stamp) -> SpanView {
    SpanView {
        label: Some(label),
        message: Some(command),
        start: started,
        parent: None,
        parallel: None,
        entered: false,
    }
}

/// Runs one task inside a span of its own. The span carries `label` and the
/// task's description; it is opened before the task runs and closed when the
/// task has returned, whatever the outcome. The task is run once, and what
/// that run ended in is handed back unchanged.
pub fn run<R: Runnable, W: LineWriter, C: Clock>(
    label: &str,
    runnable: &R,
    layer: &mut DcLayer<W>,
    clock: &mut C,
) -> (outcome: Result<(), RunError>)
    ensures
        final(layer).theme() == old(layer).theme(),
        final(layer).spans() == old(layer).spans().push(None),
        exists|command: Seq<char>, started: Stamp, ended: Stamp, messages: Seq<Seq<char>>|
            #![trigger
                runnable.describes(command),
                runnable.yields(outcome, messages),
                end_line(old(layer).theme(), started, ended, label@),
            ]
            {
                &&& runnable.describes(command)
                &&& runnable.yields(outcome, messages)
                &&& final(layer).opened() == old(layer).opened().push(
                    solo_view(label@, command, started),
                )
                &&& final(layer).written() == old(layer).written().push(
                    start_line(old(layer).theme(), started, label@, command),
                ) + forwarded_lines(None, messages) + seq![
                    end_line(old(layer).theme(), started, ended, label@),
                ]
            },
{
    let command = runnable.command();
    let started = clock.now();
    let visitor = Visitor { label: Some(String::from_str(label)), message: Some(command) };
    let ghost theme = layer.theme();
    let ghost before = layer.written();
    proof {
        reveal_strlit("run");
        reveal_strlit("parallel");
        assert("run"@ != parallel_name()) by {
            assert("run"@.len() == 3);
        }
    }
    let id = layer.on_new_span(None, "run", visitor, started);
    assert(layer.opened() == old(layer).opened().push(solo_view(label@, command@, started)));
    layer.on_enter(id, &started);
    let ghost entered = layer.written();
    assert(entered == before.push(start_line(theme, started, label@, command@)));
    assert(nearest_parallel(layer.spans(), id as int) is None);
    let outcome = layer.in_scope(id, runnable);
    let ghost ran = layer.written();
    let ended = clock.now();
    layer.on_close(id, &ended);
    proof {
        let messages = choose|messages: Seq<Seq<char>>|
            #![trigger runnable.yields(outcome, messages)]
            runnable.yields(outcome, messages) && ran == entered + forwarded_lines(None, messages);
        assert(layer.spans() =~= old(layer).spans().push(None));
        assert(layer.written() =~= before.push(start_line(theme, started, label@, command@))
            + forwarded_lines(None, messages) + seq![end_line(theme, started, ended, label@)]);
        assert(runnable.describes(command@));
        assert(runnable.yields(outcome, messages));
    }
    outcome
}

/// The colour of the label of the task at `position` in its group: the
/// palette cyan, green, yellow, blue, red, taken round and round.
pub open spec fn label_color(position: int) -> Color {
    let place = position % 5;
    if place == 0 {
        Color::Cyan
    } else if place == 1 {
        Color::Green
    } else if place == 2 {
        Color::Yellow
    } else if place == 3 {
        Color::Blue
    } else {
        Color::Red
    }
}

/// The label of the task at `position` in its group, in its colour.
pub open spec fn colored_label(theme: Theme, position: int, label: Seq<char>) -> Seq<char> {
    theme.paint(label_color(position), label)
}

/// The colour of the label of the task at `position` in its group.
pub fn label_color_at(position: usize) -> (color: Color)
    ensures
        color == label_color(position as int),
{
    let place: usize = position % 5;
    if place == 0 {
        Color::Cyan
    } else if place == 1 {
        Color::Green
    } else if place == 2 {
        Color::Yellow
    } else if place == 3 {
        Color::Blue
    } else {
        Color::Red
    }
}

/// Writes the label of the task at `position` in its group, in its colour.
pub fn paint_label(theme: &Theme, position: usize, label: &str) -> (painted: String)
    ensures
        painted@ == colored_label(*theme, position as int, label@),
{
    let mut painted = String::new();
    theme.push_painted(&mut painted, label_color_at(position), label);
    painted
}

/// What the live progress display says of a task that runs alone: its label
/// in magenta and brackets, and what is running.
pub open spec fn progress_text(theme: Theme, label: Seq<char>, command: Seq<char>) -> Seq<char> {
    "["@ + theme.paint(Color::Magenta, label) + "] Running "@ + command + "..."@
}

/// What the live progress display says of one task of a group.
pub open spec fn parallel_progress_text(label: Seq<char>, command: Seq<char>) -> Seq<char> {
    "Running "@ + label + ": "@ + command + "..."@
}

/// Writes what the live progress display says of a task that runs alone.
pub fn progress_message(theme: &Theme, label: &str, command: &str) -> (message: String)
    ensures
        message@ == progress_text(*theme, label@, command@),
{
    let mut message = String::from_str("[");
    theme.push_painted(&mut message, Color::Magenta, label);
    message.append("] Running ");
    message.append(command);
    message.append("...");
    message
}

/// Writes what the live progress display says of one task of a group.
pub fn parallel_progress_message(label: &str, command: &str) -> (message: String)
    ensures
        message@ == parallel_progress_text(label@, command@),
{
    let mut message = String::from_str("Running ");
    message.append(label);
    message.append(": ");
    message.append(command);
    message.append("...");
    message
}

/// The outcome of a group: the first failure in the group's order, or
/// success where there is none.
pub open spec fn first_failure(outcomes: Seq<Result<(), RunError>>) -> Result<(), RunError>
    decreases outcomes.len(),
{
    if outcomes.len() == 0 {
        Ok(())
    } else if outcomes[0] is Err {
        outcomes[0]
    } else {
        first_failure(outcomes.skip(1))
    }
}

/// A group succeeds exactly when every one of its tasks succeeded. Where one
/// failed, the group's outcome is the failure of the first task, in the
/// group's order, that failed, whatever became of the tasks behind it.
pub proof fn lemma_first_failure_wins(outcomes: Seq<Result<(), RunError>>)
    ensures
        first_failure(outcomes) is Ok <==> forall|i: int|
            0 <= i < outcomes.len() ==> (#[trigger] outcomes[i]) is Ok,
        first_failure(outcomes) is Err ==> exists|k: int|
            {
                &&& 0 <= k < outcomes.len()
                &&& #[trigger] outcomes[k] == first_failure(outcomes)
                &&& forall|j: int| 0 <= j < k ==> (#[trigger] outcomes[j]) is Ok
            },
    decreases outcomes.len(),
{
    if outcomes.len() == 0 {
    } else if outcomes[0] is Err {
        assert(outcomes[0] == first_failure(outcomes));
    } else {
        let rest = outcomes.skip(1);
        lemma_first_failure_wins(rest);
        assert forall|i: int| 0 <= i < rest.len() implies rest[i] == outcomes[i + 1] by {}
        if first_failure(rest) is Ok {
            assert forall|i: int| 0 <= i < outcomes.len() implies (#[trigger] outcomes[i]) is Ok by {
                if i > 0 {
                    assert(rest[i - 1] is Ok);
                }
            }
        } else {
            let k = choose|k: int|
                {
                    &&& 0 <= k < rest.len()
                    &&& #[trigger] rest[k] == first_failure(rest)
                    &&& forall|j: int| 0 <= j < k ==> (#[trigger] rest[j]) is Ok
                };
            assert(outcomes[k + 1] == first_failure(outcomes));
            assert forall|j: int| 0 <= j < k + 1 implies (#[trigger] outcomes[j]) is Ok by {
                if j > 0 {
                    assert(rest[j - 1] is Ok);
                }
            }
            assert(outcomes[k + 1] is Err);
        }
    }
}

/// Joins the outcomes of a group's tasks, given in the group's order: the
/// first failure wins, later ones are dropped.
pub fn join(outcomes: Vec<Result<(), RunError>>) -> (outcome: Result<(), RunError>)
    ensures
        outcome == first_failure(outcomes@),
        outcome is Ok <==> forall|i: int| 0 <= i < outcomes.len() ==> (#[trigger] outcomes[i]) is Ok,
        outcome is Err ==> exists|k: int|
            {
                &&& 0 <= k < outcomes.len()
                &&& #[trigger] outcomes[k] == outcome
                &&& forall|j: int| 0 <= j < k ==> (#[trigger] outcomes[j]) is Ok
            },
{
    proof {
        lemma_first_failure_wins(outcomes@);
    }
    let mut rest = outcomes;
    let mut outcome: Result<(), RunError> = Ok(());
    while rest.len() > 0
        invariant
            rest.len() <= outcomes.len(),
            rest@ == outcomes@.take(rest.len() as int),
            outcome == first_failure(outcomes@.skip(rest.len() as int)),
        decreases rest.len(),
    {
        let last = rest.pop().unwrap();
        proof {
            let k = rest.len() as int;
            assert(rest@ =~= outcomes@.take(k));
            assert(last == outcomes@[k]);
            assert(outcomes@.skip(k).skip(1) =~= outcomes@.skip(k + 1));
            assert(outcomes@.skip(k)[0] == outcomes@[k]);
        }
        if last.is_err() {
            outcome = last;
        }
    }
    proof {
        assert(outcomes@.skip(0) =~= outcomes@);
    }
    outcome
}

/// What became of one task of a group: the span that its own span is nested
/// in, how it described itself, when its span was made, entered and closed,
/// what it forwarded, and how it ended.
pub struct TaskRun {
    pub parent: Option<int>,
    pub command: Seq<char>,
    pub created: Stamp,
    pub entered: Stamp,
    pub closed: Stamp,
    pub messages: Seq<Seq<char>>,
    pub outcome: Result<(), RunError>,
}

/// The lines of one task of a group: its start, what it forwarded behind its
/// label, and its end.
pub open spec fn task_lines(theme: Theme, label: Seq<char>, run: TaskRun) -> Seq<Seq<char>> {
    seq![start_line(theme, run.entered, label, run.command)] + forwarded_lines(
        Some(label),
        run.messages,
    ) + seq![end_line(theme, run.created, run.closed, label)]
}

/// The lines of the first `runs.len()` tasks of a group, one task after the
/// other.
pub open spec fn group_lines(theme: Theme, labels: Seq<Seq<char>>, runs: Seq<TaskRun>) -> Seq<
    Seq<char>,
>
    decreases runs.len(),
{
    if runs.len() == 0 {
        Seq::empty()
    } else {
        let last = runs.len() - 1;
        group_lines(theme, labels, runs.drop_last()) + task_lines(
            theme,
            colored_label(theme, last, labels[last]),
            runs.last(),
        )
    }
}

/// How the tasks of a group ended, in the group's order.
pub open spec fn outcomes_of(runs: Seq<TaskRun>) -> Seq<Result<(), RunError>> {
    Seq::new(runs.len(), |i: int| runs[i].outcome)
}

/// The labels of a group, in the group's order.
pub open spec fn labels_of<R>(tasks: Seq<(String, R)>) -> Seq<Seq<char>> {
    Seq::new(tasks.len(), |i: int| tasks[i].0@)
}

/// The line that the group's own span starts with.
pub open spec fn group_start_line(theme: Theme, at: Stamp, label: Seq<char>) -> Seq<char> {
    enter_line(theme, at.text(), Some(label), None)
}

/// The record of the group's own span: under no other span, without a
/// description, and with no label to hand down.
pub open spec fn group_view(label: Seq<char>, opened: Stamp) -> SpanView {
    SpanView {
        label: Some(label),
        message: None,
        start: opened,
        parent: None,
        parallel: None,
        entered: false,
    }
}

/// The record of the span of the task at `position` in its group: nested in
/// the span that the run names, with the task's label in the colour of its
/// position, which it hands down to what the task forwards.
pub open spec fn child_view(theme: Theme, position: int, label: Seq<char>, run: TaskRun) -> SpanView {
    SpanView {
        label: Some(colored_label(theme, position, label)),
        message: Some(run.command),
        start: run.created,
        parent: run.parent,
        parallel: Some(colored_label(theme, position, label)),
        entered: false,
    }
}

/// The records of the spans of a group's tasks, in the group's order.
pub open spec fn child_views(theme: Theme, labels: Seq<Seq<char>>, runs: Seq<TaskRun>) -> Seq<
    SpanView,
> {
    Seq::new(runs.len(), |i: int| child_view(theme, i, labels[i], runs[i]))
}

/// The record of a task's span before the task has run.
spec fn child_span(
    theme: Theme,
    group: int,
    position: int,
    label: Seq<char>,
    command: Seq<char>,
    created: Stamp,
) -> SpanView {
    SpanView {
        label: Some(colored_label(theme, position, label)),
        message: Some(command),
        start: created,
        parent: Some(group),
        parallel: Some(colored_label(theme, position, label)),
        entered: false,
    }
}

/// Runs the tasks of a group, each inside a span of its own that is nested in
/// the group's span. The spans are made in the group's order, each with its
/// label in the colour of its position. The tasks run one after the other,
/// each once and to its end, whatever became of the others; then the group's
/// span is closed and the first failure in the group's order is handed back,
/// or success where no task failed.
pub fn run_many<R: Runnable, W: LineWriter, C: Clock>(
    group_label: &str,
    tasks: &Vec<(String, R)>,
    layer: &mut DcLayer<W>,
    clock: &mut C,
) -> (outcome: Result<(), RunError>)
    ensures
        final(layer).theme() == old(layer).theme(),
        final(layer).spans() == old(layer).spans() + Seq::new(
            (tasks.len() + 1) as nat,
            |i: int| None::<SpanView>,
        ),
        exists|runs: Seq<TaskRun>, opened: Stamp, closed: Stamp|
            #![trigger
                group_lines(old(layer).theme(), labels_of(tasks@), runs),
                end_line(old(layer).theme(), opened, closed, group_label@),
            ]
            {
                &&& runs.len() == tasks.len()
                &&& forall|i: int|
                    0 <= i < runs.len() ==> {
                        &&& (#[trigger] tasks[i]).1.describes(runs[i].command)
                        &&& tasks[i].1.yields(runs[i].outcome, runs[i].messages)
                        &&& runs[i].parent == Some(old(layer).spans().len() as int)
                    }
                &&& outcome == first_failure(outcomes_of(runs))
                &&& outcome is Ok <==> forall|i: int|
                    0 <= i < runs.len() ==> (#[trigger] runs[i]).outcome is Ok
                &&& final(layer).opened() == old(layer).opened().push(
                    group_view(group_label@, opened),
                ) + child_views(old(layer).theme(), labels_of(tasks@), runs)
                &&& final(layer).written() == old(layer).written().push(
                    group_start_line(old(layer).theme(), opened, group_label@),
                ) + group_lines(old(layer).theme(), labels_of(tasks@), runs) + seq![
                    end_line(old(layer).theme(), opened, closed, group_label@),
                ]
            },
{
    let ghost theme = layer.theme();
    let ghost base = layer.spans();
    let ghost past = layer.opened();
    let ghost labels = labels_of(tasks@);
    proof {
        reveal_strlit("group");
        reveal_strlit("parallel");
        assert("parallel"@ =~= parallel_name());
        assert("group"@ != parallel_name()) by {
            assert("group"@.len() == 5);
        }
    }
    let opened = clock.now();
    let visitor = Visitor { label: Some(String::from_str(group_label)), message: None };
    let group = layer.on_new_span(None, "group", visitor, opened);
    let ghost made = group_view(group_label@, opened);
    let ghost active = SpanView { entered: true, ..made };
    assert(layer.spans() == base.push(Some(made)));
    layer.on_enter(group, &opened);
    assert(layer.spans() =~= base.push(Some(active)));
    let ghost entered = layer.written();
    assert(entered == old(layer).written().push(group_start_line(theme, opened, group_label@)));

    let n = tasks.len();
    let ghost mut commands: Seq<Seq<char>> = Seq::empty();
    let ghost mut created: Seq<Stamp> = Seq::empty();
    let mut ids: Vec<usize> = Vec::new();
    let mut k: usize = 0;
    assert(layer.opened() =~= past.push(made) + Seq::new(
        0nat,
        |j: int| child_span(theme, group as int, j, labels[j], commands[j], created[j]),
    ));
    assert(layer.spans() =~= base.push(Some(active)) + Seq::new(
        0nat,
        |j: int| Some(child_span(theme, group as int, j, labels[j], commands[j], created[j])),
    ));
    while k < n
        invariant
            k <= n,
            n == tasks.len(),
            group == base.len(),
            labels == labels_of(tasks@),
            "parallel"@ == parallel_name(),
            ids.len() == k,
            forall|j: int| 0 <= j < k ==> #[trigger] ids[j] == group + 1 + j,
            layer.theme() == theme,
            layer.written() == entered,
            commands.len() == k,
            created.len() == k,
            forall|j: int| 0 <= j < k ==> (#[trigger] tasks[j]).1.describes(commands[j]),
            layer.spans() == base.push(Some(active)) + Seq::new(
                k as nat,
                |j: int| Some(child_span(theme, group as int, j, labels[j], commands[j], created[j])),
            ),
            layer.opened() == past.push(made) + Seq::new(
                k as nat,
                |j: int| child_span(theme, group as int, j, labels[j], commands[j], created[j]),
            ),
        decreases n - k,
    {
        let command = tasks[k].1.command();
        let painted = paint_label(layer.theme_ref(), k, tasks[k].0.as_str());
        let now = clock.now();
        let ghost text = command@;
        let visitor = Visitor { label: Some(painted), message: Some(command) };
        let id = layer.on_new_span(Some(group), "parallel", visitor, now);
        proof {
            commands = commands.push(text);
            created = created.push(now);
            assert(labels[k as int] == tasks[k as int].0@);
            assert(layer.spans() =~= base.push(Some(active)) + Seq::new(
                (k + 1) as nat,
                |j: int| Some(child_span(theme, group as int, j, labels[j], commands[j], created[j])),
            ));
            assert(layer.opened() =~= past.push(made) + Seq::new(
                (k + 1) as nat,
                |j: int| child_span(theme, group as int, j, labels[j], commands[j], created[j]),
            ));
        }
        ids.push(id);
        k += 1;
    }

    let ghost mut runs: Seq<TaskRun> = Seq::empty();
    let mut outcomes: Vec<Result<(), RunError>> = Vec::new();
    let mut i: usize = 0;
    while i < n
        invariant
            i <= n,
            n == tasks.len(),
            group == base.len(),
            labels == labels_of(tasks@),
            layer.theme() == theme,
            ids.len() == n,
            forall|j: int| 0 <= j < n ==> #[trigger] ids[j] == group + 1 + j,
            commands.len() == n,
            created.len() == n,
            forall|j: int| 0 <= j < n ==> (#[trigger] tasks[j]).1.describes(commands[j]),
            layer.spans().len() == base.len() + 1 + n,
            forall|j: int| 0 <= j < base.len() ==> layer.spans()[j] == base[j],
            layer.spans()[group as int] == Some(active),
            forall|j: int| 0 <= j < i ==> (#[trigger] layer.spans()[group + 1 + j]) is None,
            forall|j: int|
                i <= j < n ==> #[trigger] layer.spans()[group + 1 + j] == Some(
                    child_span(theme, group as int, j, labels[j], commands[j], created[j]),
                ),
            layer.opened() == past.push(made) + Seq::new(
                n as nat,
                |j: int| child_span(theme, group as int, j, labels[j], commands[j], created[j]),
            ),
            runs.len() == i,
            outcomes@ == outcomes_of(runs),
            forall|j: int|
                0 <= j < i ==> {
                    &&& (#[trigger] runs[j]).command == commands[j]
                    &&& runs[j].created == created[j]
                    &&& runs[j].parent == Some(group as int)
                    &&& tasks[j].1.yields(runs[j].outcome, runs[j].messages)
                },
            layer.written() == entered + group_lines(theme, labels, runs),
        decreases n - i,
    {
        let id = ids[i];
        let ghost child = child_span(
            theme,
            group as int,
            i as int,
            labels[i as int],
            commands[i as int],
            created[i as int],
        );
        let ghost label = colored_label(theme, i as int, labels[i as int]);
        let ghost spans_before = layer.spans();
        let ghost written_before = layer.written();
        assert(spans_before[group + 1 + i] == Some(child));
        let now = clock.now();
        layer.on_enter(id, &now);
        let ghost written_entered = layer.written();
        assert(layer.spans()[id as int] == Some(SpanView { entered: true, ..child }));
        assert(nearest_parallel(layer.spans(), id as int) == Some(label));
        let outcome = layer.in_scope(id, &tasks[i].1);
        let ghost written_ran = layer.written();
        let end = clock.now();
        layer.on_close(id, &end);
        proof {
            let messages = choose|messages: Seq<Seq<char>>|
                #![trigger tasks[i as int].1.yields(outcome, messages)]
                tasks[i as int].1.yields(outcome, messages) && written_ran == written_entered
                    + forwarded_lines(Some(label), messages);
            let run = TaskRun {
                parent: Some(group as int),
                command: commands[i as int],
                created: created[i as int],
                entered: now,
                closed: end,
                messages,
                outcome,
            };
            let grown = runs.push(run);
            assert(grown.drop_last() =~= runs);
            assert(layer.written() =~= written_before + task_lines(theme, label, run));
            assert(layer.written() =~= entered + group_lines(theme, labels, grown));
            assert(outcomes@.push(outcome) =~= outcomes_of(grown));
            runs = grown;
            assert forall|j: int| 0 <= j < i + 1 implies (#[trigger] layer.spans()[group + 1
                + j]) is None by {
                if j < i {
                    assert(spans_before[group + 1 + j] is None);
                }
            }
            assert forall|j: int| i + 1 <= j < n implies #[trigger] layer.spans()[group + 1 + j]
                == Some(
                child_span(theme, group as int, j, labels[j], commands[j], created[j]),
            ) by {
                assert(spans_before[group + 1 + j] == Some(
                    child_span(theme, group as int, j, labels[j], commands[j], created[j]),
                ));
            }
        }
        outcomes.push(outcome);
        i += 1;
    }
    let closed = clock.now();
    layer.on_close(group, &closed);
    let outcome = join(outcomes);
    proof {
        assert(outcome is Ok <==> forall|i: int|
            0 <= i < runs.len() ==> (#[trigger] runs[i]).outcome is Ok) by {
            if outcome is Ok {
                assert forall|i: int| 0 <= i < runs.len() implies (#[trigger] runs[i]).outcome is Ok by {
                    assert(outcomes_of(runs)[i] is Ok);
                }
            } else {
                let k = choose|k: int|
                    0 <= k < outcomes_of(runs).len() && #[trigger] outcomes_of(runs)[k] == outcome;
                assert(runs[k].outcome is Err);
            }
        }
        assert forall|i: int| 0 <= i < runs.len() implies {
            &&& (#[trigger] tasks[i]).1.describes(runs[i].command)
            &&& tasks[i].1.yields(runs[i].outcome, runs[i].messages)
            &&& runs[i].parent == Some(old(layer).spans().len() as int)
        } by {
            assert(runs[i].command == commands[i]);
        }
        assert(layer.opened() =~= past.push(made) + child_views(theme, labels, runs)) by {
            assert forall|j: int| 0 <= j < n implies child_span(
                theme,
                group as int,
                j,
                labels[j],
                commands[j],
                created[j],
            ) == #[trigger] child_view(theme, j, labels[j], runs[j]) by {
                assert(runs[j].command == commands[j]);
            }
        }
        assert(layer.spans() =~= base + Seq::new((n + 1) as nat, |i: int| None::<SpanView>)) by {
            assert forall|j: int| 0 <= j < layer.spans().len() implies layer.spans()[j] == (base
                + Seq::new((n + 1) as nat, |i: int| None::<SpanView>))[j] by {
                if j > group {
                    let d = j - group - 1;
                    assert(layer.spans()[group + 1 + d] is None);
                }
            }
        }
        assert(layer.written() =~= old(layer).written().push(
            group_start_line(theme, opened, group_label@),
        ) + group_lines(theme, labels, runs) + seq![end_line(theme, opened, closed, group_label@)]);
    }
    outcome
}

} // verus!
