//! A configured command, and the buffered-line way of running one: what is
//! launched, what each line of output becomes, and how the run ends.

use vstd::prelude::*;
use vstd::string::*;
use vstd::utf8::{decode_utf8, valid_utf8};

use crate::runner::{forwarded_lines, outcome_view, RunError, RunErrorView};
use crate::subscriber::{forward_line, LineWriter, Output};
use crate::text::{join, join_strings, str_of, views};

verus! {

/// A command as configuration gives it: none, a shell command line, or a
/// program with its arguments.
#[derive(Debug, Clone)]
pub enum Cmd {
    NoOp,
    Shell(String),
    Args(Vec<String>),
}

impl Default for Cmd {
    fn default() -> (cmd: Cmd)
        ensures
            cmd is NoOp,
    {
        Cmd::NoOp
    }
}

/// What is launched to run a command.
pub enum Expression {
    /// The text, handed to the shell as one command line.
    Shell { script: String },
    /// The program, with these arguments and no shell in between.
    Program { program: String, args: Vec<String> },
}

/// An `Expression` as contracts see it.
pub enum ExpressionView {
    Shell { script: Seq<char> },
    Program { program: Seq<char>, args: Seq<Seq<char>> },
}

impl View for Expression {
    type V = ExpressionView;

    open spec fn view(&self) -> ExpressionView {
        match self {
            Expression::Shell { script } => ExpressionView::Shell { script: script@ },
            Expression::Program { program, args } => ExpressionView::Program {
                program: program@,
                args: views(args@),
            },
        }
    }
}

impl Cmd {
    /// The command for people to read: nothing, the command line as it is,
    /// or the arguments with one space between them.
    pub open spec fn description(&self) -> Seq<char> {
        match self {
            Cmd::NoOp => Seq::empty(),
            Cmd::Shell(prog) => prog@,
            Cmd::Args(args) => join(views(args@), seq![' ']),
        }
    }

    /// What is launched to run the command: nothing where there is no
    /// command or no program to name, the shell for a command line, else the
    /// first argument as the program with the rest as its arguments.
    pub open spec fn expression(&self) -> Option<ExpressionView> {
        match self {
            Cmd::NoOp => None,
            Cmd::Shell(prog) => Some(ExpressionView::Shell { script: prog@ }),
            Cmd::Args(args) => if args.len() == 0 {
                None
            } else {
                Some(
                    ExpressionView::Program { program: args[0]@, args: views(args@).skip(1) },
                )
            },
        }
    }

    /// What is launched to run the command.
    pub fn as_expression(&self) -> (expression: Option<Expression>)
        ensures
            match expression {
                Some(e) => Some(e@),
                None => None,
            } == self.expression(),
    {
        match self {
            Cmd::NoOp => None,
            Cmd::Shell(prog) => Some(Expression::Shell { script: prog.clone() }),
            Cmd::Args(args) => {
                if args.len() == 0 {
                    None
                } else {
                    let mut rest: Vec<String> = Vec::new();
                    let mut i: usize = 1;
                    while i < args.len()
                        invariant
                            1 <= i <= args.len(),
                            rest.len() == i - 1,
                            forall|j: int| 0 <= j < rest.len() ==> (#[trigger] rest[j])@ == args[j + 1]@,
                        decreases args.len() - i,
                    {
                        rest.push(args[i].clone());
                        i += 1;
                    }
                    assert(views(rest@) =~= views(args@).skip(1));
                    Some(Expression::Program { program: args[0].clone(), args: rest })
                }
            },
        }
    }

    /// The command for people to read.
    pub fn command(&self) -> (text: String)
        ensures
            text@ == self.description(),
    {
        match self {
            Cmd::NoOp => String::new(),
            Cmd::Shell(prog) => prog.clone(),
            Cmd::Args(args) => {
                proof {
                    reveal_strlit(" ");
                    assert(" "@ =~= seq![' ']);
                }
                join_strings(args, " ")
            },
        }
    }
}

/// Running no command launches nothing, however often it is asked for, and
/// its description is empty.
pub proof fn lemma_no_command_launches_nothing(cmd: Cmd)
    requires
        cmd is NoOp,
    ensures
        cmd.expression() is None,
        cmd.description().len() == 0,
{
}

/// std's `str::from_utf8`: the text that the bytes encode, where they are
/// valid UTF-8, and nothing where they are not.
#[verifier::external_body]
pub(crate) fn decode(raw: &[u8]) -> (text: Option<&str>)
    ensures
        text is Some <==> valid_utf8(raw@),
        text matches Some(t) ==> t@ == decode_utf8(raw@),
{
    std::str::from_utf8(raw).ok()
}

/// How a run ends, by the status that the subprocess left: success for
/// status zero, else the failure that carries the task's name and the
/// status.
pub open spec fn conclusion(name: Option<Seq<char>>, status: Option<i32>) -> Result<
    (),
    RunErrorView,
> {
    if status == Some(0i32) {
        Ok(())
    } else {
        Err(RunErrorView::Exit { name, status })
    }
}

/// Ends the run of the task called `name`, given the status that the
/// subprocess left.
pub fn conclude(name: Option<&str>, status: Option<i32>) -> (outcome: Result<(), RunError>)
    ensures
        outcome_view(outcome) == conclusion(str_of(name), status),
{
    let failed = match status {
        Some(code) => code != 0,
        None => true,
    };
    if failed {
        let name = match name {
            Some(n) => Some(String::from_str(n)),
            None => None,
        };
        Err(RunError::Exit { name, status })
    } else {
        Ok(())
    }
}

/// What was read up to and with a newline, without its line end: the
/// newline goes, and a carriage return in front of it. What ends without a
/// newline is the last line as it is.
pub open spec fn without_line_end(raw: Seq<u8>) -> Seq<u8> {
    if raw.len() > 0 && raw.last() == 10 {
        let cut = raw.drop_last();
        if cut.len() > 0 && cut.last() == 13 {
            cut.drop_last()
        } else {
            cut
        }
    } else {
        raw
    }
}

/// Takes the line end off what was read up to and with a newline.
pub fn line_of(raw: &[u8]) -> (line: &[u8])
    ensures
        line@ == without_line_end(raw@),
{
    let len = raw.len();
    if len > 0 && raw[len - 1] == 10 {
        if len > 1 && raw[len - 2] == 13 {
            let line = vstd::slice::slice_subrange(raw, 0, len - 2);
            assert(line@ =~= raw@.drop_last().drop_last());
            line
        } else {
            let line = vstd::slice::slice_subrange(raw, 0, len - 1);
            assert(line@ =~= raw@.drop_last());
            line
        }
    } else {
        raw
    }
}

/// Takes one line of the subprocess's output, as bytes without the line
/// end: valid text is forwarded as one line, anything else is a decode
/// failure and forwards nothing.
pub fn forward_raw<W: LineWriter>(out: &mut Output<W>, raw: &[u8]) -> (outcome: Result<(), RunError>)
    ensures
        final(out).label() == old(out).label(),
        outcome is Ok <==> valid_utf8(raw@),
        outcome matches Err(e) ==> e@ == RunErrorView::Decode,
        final(out).written() == if valid_utf8(raw@) {
            old(out).written().push(forward_line(old(out).label(), decode_utf8(raw@)))
        } else {
            old(out).written()
        },
{
    match decode(raw) {
        Some(text) => {
            out.forward(text);
            Ok(())
        },
        None => Err(RunError::Decode),
    }
}

/// What the buffered-line strategy meets while it runs a subprocess.
pub enum Event<'a> {
    /// The subprocess could not be started, or its output could not be read.
    Failed(String),
    /// The next stretch of output, up to and with its newline; the last one
    /// may end without.
    Chunk(&'a [u8]),
    /// The output has ended, and the subprocess left this status.
    Ended(Option<i32>),
}

/// What the strategy makes of an event, as contracts see it: the line that it
/// forwards, if it forwards one, and the outcome that the run ends with, if
/// it ends.
pub open spec fn reaction(name: Option<Seq<char>>, event: Event) -> (
    Option<Seq<char>>,
    Option<Result<(), RunErrorView>>,
) {
    match event {
        Event::Failed(reason) => (None, Some(Err(RunErrorView::Launch { reason: reason@ }))),
        Event::Chunk(raw) => if valid_utf8(without_line_end(raw@)) {
            (Some(decode_utf8(without_line_end(raw@))), None)
        } else {
            (None, Some(Err(RunErrorView::Decode)))
        },
        Event::Ended(status) => (None, Some(conclusion(name, status))),
    }
}

/// Takes the next event of a running subprocess of the task called `name`.
/// A stretch of output is forwarded as one line, without its line end, and
/// the run goes on; output that is no valid text, a failure to start or to
/// read, and the end of the output each end the run, with the outcome that
/// is handed back.
pub fn step<W: LineWriter>(out: &mut Output<W>, name: Option<&str>, event: Event) -> (end: Option<
    Result<(), RunError>,
>)
    ensures
        final(out).label() == old(out).label(),
        final(out).written() == match reaction(str_of(name), event).0 {
            Some(line) => old(out).written().push(forward_line(old(out).label(), line)),
            None => old(out).written(),
        },
        match end {
            Some(outcome) => Some(outcome_view(outcome)),
            None => None,
        } == reaction(str_of(name), event).1,
{
    match event {
        Event::Failed(reason) => Some(Err(RunError::Launch { reason })),
        Event::Chunk(raw) => match forward_raw(out, line_of(raw)) {
            Ok(()) => None,
            Err(error) => Some(Err(error)),
        },
        Event::Ended(status) => Some(conclude(name, status)),
    }
}

/// What a run forwards and how it ends, where `events` is what it meets:
/// the events are taken through `step` in order until one ends the run. The
/// end is absent where none of them does.
pub open spec fn run_of(name: Option<Seq<char>>, events: Seq<Event>) -> (
    Seq<Seq<char>>,
    Option<Result<(), RunErrorView>>,
)
    decreases events.len(),
{
    if events.len() == 0 {
        (Seq::empty(), None)
    } else {
        let first = reaction(name, events[0]);
        let line = match first.0 {
            Some(line) => seq![line],
            None => Seq::empty(),
        };
        match first.1 {
            Some(outcome) => (line, Some(outcome)),
            None => (line + run_of(name, events.skip(1)).0, run_of(name, events.skip(1)).1),
        }
    }
}

/// Whether `events` is what a subprocess gives that writes `n` lines of
/// valid text and leaves status zero: `n` stretches of output, each valid
/// text once its line end is off, and then the end with status zero.
pub open spec fn writes_lines(events: Seq<Event>, n: int) -> bool {
    &&& 0 <= n
    &&& events.len() == n + 1
    &&& forall|i: int|
        0 <= i < n ==> ((#[trigger] events[i]) matches Event::Chunk(raw) && valid_utf8(
            without_line_end(raw@),
        ))
    &&& events[n] == Event::Ended(Some(0i32))
}

/// The line that the event at `i` holds, its line end off.
pub open spec fn line_at(events: Seq<Event>, i: int) -> Seq<char> {
    match events[i] {
        Event::Chunk(raw) => decode_utf8(without_line_end(raw@)),
        _ => Seq::empty(),
    }
}

/// A subprocess that writes `n` lines of valid text and leaves status zero
/// has exactly these `n` lines forwarded, each once, in the order in which
/// they were written and each without its line end, and the run succeeds.
pub proof fn lemma_lines_in_lines_out(name: Option<Seq<char>>, events: Seq<Event>, n: int)
    requires
        writes_lines(events, n),
    ensures
        run_of(name, events).0 == Seq::new(n as nat, |i: int| line_at(events, i)),
        run_of(name, events).1 == Some(Ok::<(), RunErrorView>(())),
    decreases events.len(),
{
    if n == 0 {
        assert(run_of(name, events).0 =~= Seq::new(0nat, |i: int| line_at(events, i)));
    } else {
        let rest = events.skip(1);
        assert(events[0] is Chunk);
        assert forall|i: int| 0 <= i < n - 1 implies ((#[trigger] rest[i]) matches Event::Chunk(
            raw,
        ) && valid_utf8(without_line_end(raw@))) by {
            assert(rest[i] == events[i + 1]);
        }
        assert(rest[n - 1] == events[n]);
        lemma_lines_in_lines_out(name, rest, n - 1);
        assert forall|i: int| 0 <= i < n - 1 implies line_at(rest, i) == line_at(events, i + 1) by {
            assert(rest[i] == events[i + 1]);
        }
        assert(run_of(name, events).0 =~= Seq::new(n as nat, |i: int| line_at(events, i)));
    }
}

/// Whether the first `k` lines are valid text and the one behind them, if
/// there is one, is not: `k` is where a run over `lines` stops forwarding.
pub open spec fn stops_at(lines: Seq<Vec<u8>>, k: int) -> bool {
    &&& 0 <= k <= lines.len()
    &&& forall|j: int| 0 <= j < k ==> valid_utf8((#[trigger] lines[j])@)
    &&& k < lines.len() ==> !valid_utf8(lines[k]@)
}

/// The texts of the first `k` lines.
pub open spec fn decoded(lines: Seq<Vec<u8>>, k: int) -> Seq<Seq<char>> {
    Seq::new(k as nat, |j: int| decode_utf8(lines[j]@))
}

/// A run over `lines` stops forwarding at one place only. Where every line
/// is valid text, that place is the end: as many lines are forwarded as came
/// in, each for itself and in its place.
pub proof fn lemma_every_line_once(lines: Seq<Vec<u8>>, k: int, other: int)
    requires
        stops_at(lines, k),
        stops_at(lines, other),
    ensures
        k == other,
        (forall|i: int| 0 <= i < lines.len() ==> valid_utf8((#[trigger] lines[i])@)) ==> {
            &&& k == lines.len()
            &&& decoded(lines, k).len() == lines.len()
            &&& forall|i: int|
                0 <= i < lines.len() ==> #[trigger] decoded(lines, k)[i] == decode_utf8(lines[i]@)
        },
{
    if k < other {
        assert(valid_utf8(lines[k]@));
    }
    if other < k {
        assert(valid_utf8(lines[other]@));
    }
    if forall|i: int| 0 <= i < lines.len() ==> valid_utf8((#[trigger] lines[i])@) {
        if k < lines.len() {
            assert(valid_utf8(lines[k]@));
        }
    }
}

/// Plays a finished capture through the buffered-line strategy: the lines of
/// output in order, then the status that the subprocess left. Each line is
/// forwarded as one line, none left out and none joined to another. The
/// first line that is no valid text ends the run with a decode failure;
/// otherwise the status decides, and a failure carries the task's `name`.
pub fn relay<W: LineWriter>(
    out: &mut Output<W>,
    name: Option<&str>,
    lines: &Vec<Vec<u8>>,
    status: Option<i32>,
) -> (outcome: Result<(), RunError>)
    ensures
        final(out).label() == old(out).label(),
        exists|k: int|
            #![trigger stops_at(lines@, k)]
            {
                &&& stops_at(lines@, k)
                &&& final(out).written() == old(out).written() + forwarded_lines(
                    old(out).label(),
                    decoded(lines@, k),
                )
                &&& outcome_view(outcome) == if k == lines.len() {
                    conclusion(str_of(name), status)
                } else {
                    Err(RunErrorView::Decode)
                }
            },
        (forall|i: int| 0 <= i < lines.len() ==> valid_utf8((#[trigger] lines[i])@))
            ==> final(out).written().len() == old(out).written().len() + lines.len(),
{
    let mut i: usize = 0;
    while i < lines.len()
        invariant
            i <= lines.len(),
            out.label() == old(out).label(),
            forall|j: int| 0 <= j < i ==> valid_utf8((#[trigger] lines[j])@),
            out.written() == old(out).written() + forwarded_lines(
                old(out).label(),
                decoded(lines@, i as int),
            ),
        decreases lines.len() - i,
    {
        match forward_raw(out, lines[i].as_slice()) {
            Ok(()) => {
                assert(out.written() =~= old(out).written() + forwarded_lines(
                    old(out).label(),
                    decoded(lines@, i + 1),
                ));
            },
            Err(e) => {
                assert(stops_at(lines@, i as int));
                assert(!valid_utf8(lines[i as int]@));
                return Err(RunError::Decode);
            },
        }
        i += 1;
    }
    assert(stops_at(lines@, lines.len() as int));
    conclude(name, status)
}

} // verus!
