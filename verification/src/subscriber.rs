//! The observability layer: the table of running spans, and the line that
//! each span start, log event and span end puts on the terminal.

use vstd::prelude::*;
use vstd::string::*;

use crate::ansi::{Color, Theme};
use crate::clock::{friendly_duration, rounded_millis, took, ts, Stamp};
use crate::runner::{forwarded_lines, RunError, Runnable};
use crate::text::{begins_with, same_text, starts_with, text_of};

verus! {

/// How severe a log event is, from the verbatim line of a subprocess up to an
/// error.
#[derive(Clone, Copy, Debug, PartialEq, Eq, Structural)]
pub enum Level {
    Trace,
    Debug,
    Info,
    Warn,
    Error,
}

impl Level {
    /// The level's place in the order of severity, lowest first.
    pub open spec fn rank(self) -> int {
        match self {
            Level::Trace => 0,
            Level::Debug => 1,
            Level::Info => 2,
            Level::Warn => 3,
            Level::Error => 4,
        }
    }

    /// The level's name, right-aligned in five columns.
    pub open spec fn tag(self) -> Seq<char> {
        match self {
            Level::Trace => seq!['T', 'R', 'A', 'C', 'E'],
            Level::Debug => seq!['D', 'E', 'B', 'U', 'G'],
            Level::Info => seq![' ', 'I', 'N', 'F', 'O'],
            Level::Warn => seq![' ', 'W', 'A', 'R', 'N'],
            Level::Error => seq!['E', 'R', 'R', 'O', 'R'],
        }
    }

    /// The colour that the level's name is shown in. Forwarded output is
    /// shown without its level, so `Trace` has none.
    pub open spec fn color(self) -> Option<Color> {
        match self {
            Level::Trace => None,
            Level::Debug => Some(Color::Blue),
            Level::Info => Some(Color::Green),
            Level::Warn => Some(Color::Yellow),
            Level::Error => Some(Color::Red),
        }
    }

    /// The level's name as a status line shows it: in the level's colour.
    pub open spec fn painted_tag(self, theme: Theme) -> Seq<char> {
        match self.color() {
            Some(color) => theme.paint(color, self.tag()),
            None => self.tag(),
        }
    }

    /// The level's place in the order of severity, lowest first.
    pub fn severity(self) -> (rank: u8)
        ensures
            rank == self.rank(),
    {
        match self {
            Level::Trace => 0,
            Level::Debug => 1,
            Level::Info => 2,
            Level::Warn => 3,
            Level::Error => 4,
        }
    }

    /// The level's name, right-aligned in five columns.
    pub fn tag_of(self) -> (tag: &'static str)
        ensures
            tag@ == self.tag(),
    {
        proof {
            reveal_strlit("TRACE");
            reveal_strlit("DEBUG");
            reveal_strlit(" INFO");
            reveal_strlit(" WARN");
            reveal_strlit("ERROR");
        }
        let tag = match self {
            Level::Trace => "TRACE",
            Level::Debug => "DEBUG",
            Level::Info => " INFO",
            Level::Warn => " WARN",
            Level::Error => "ERROR",
        };
        assert(tag@ =~= self.tag());
        tag
    }

    /// The colour that the level's name is shown in, where it has one.
    pub fn color_of(self) -> (color: Option<Color>)
        ensures
            color == self.color(),
    {
        match self {
            Level::Trace => None,
            Level::Debug => Some(Color::Blue),
            Level::Info => Some(Color::Green),
            Level::Warn => Some(Color::Yellow),
            Level::Error => Some(Color::Red),
        }
    }
}

/// Whether the layer takes an event of `level` from `target`: a status
/// message from anywhere, forwarded output only from this crate's own
/// targets, whose names begin with `dc`.
pub open spec fn passes(level: Level, target: Seq<char>) -> bool {
    level.rank() > Level::Trace.rank() || begins_with(target, "dc"@)
}

/// Whether the layer takes an event of `level` from `target`.
pub fn enabled(level: Level, target: &str) -> (taken: bool)
    ensures
        taken == passes(level, target@),
{
    level.severity() > Level::Trace.severity() || starts_with(target, "dc")
}

/// ` [label]`, the label in magenta; nothing without a label.
pub open spec fn label_part(theme: Theme, label: Option<Seq<char>>) -> Seq<char> {
    match label {
        Some(l) => seq![' ', '['] + theme.paint(Color::Magenta, l) + seq![']'],
        None => Seq::empty(),
    }
}

/// The line of a span that becomes active: the time in gray, the label in
/// brackets, the description.
pub open spec fn enter_line(
    theme: Theme,
    time: Seq<char>,
    label: Option<Seq<char>>,
    message: Option<Seq<char>>,
) -> Seq<char> {
    theme.paint(Color::Gray, time) + label_part(theme, label) + match message {
        Some(m) => seq![' '] + m,
        None => Seq::empty(),
    }
}

/// The line of a span that ends: the time in gray, the label in brackets, and
/// how long the span took in green.
pub open spec fn close_line(
    theme: Theme,
    time: Seq<char>,
    label: Option<Seq<char>>,
    duration: Seq<char>,
) -> Seq<char> {
    theme.paint(Color::Gray, time) + label_part(theme, label) + seq![' ', 'T', 'o', 'o', 'k', ' ']
        + theme.paint(Color::Green, duration)
}

/// A forwarded line of subprocess output: as it came, behind `[label] ` where
/// it belongs to a labelled parallel task.
pub open spec fn forward_line(label: Option<Seq<char>>, message: Seq<char>) -> Seq<char> {
    match label {
        Some(l) => seq!['['] + l + seq![']', ' '] + message,
        None => message,
    }
}

/// The line of a status message: the time in gray, the level in its colour,
/// the label in brackets, the message.
pub open spec fn status_line(
    theme: Theme,
    time: Seq<char>,
    level: Level,
    label: Option<Seq<char>>,
    message: Seq<char>,
) -> Seq<char> {
    theme.paint(Color::Gray, time) + seq![' '] + level.painted_tag(theme) + label_part(theme, label)
        + seq![' '] + message
}

/// Appends ` [label]` to `line`, where there is a label.
fn push_label_part(theme: &Theme, line: &mut String, label: Option<&str>)
    ensures
        final(line)@ == old(line)@ + label_part(
            *theme,
            match label {
                Some(l) => Some(l@),
                None => None,
            },
        ),
{
    match label {
        Some(l) => {
            proof {
                reveal_strlit(" [");
                reveal_strlit("]");
            }
            line.append(" [");
            theme.push_painted(line, Color::Magenta, l);
            line.append("]");
            assert(line@ =~= old(line)@ + label_part(*theme, Some(l@)));
        },
        None => {
            assert(line@ =~= old(line)@ + label_part(*theme, None));
        },
    }
}

/// Writes the line of a span that becomes active.
pub fn format_enter(theme: &Theme, time: &str, label: Option<&str>, message: Option<&str>) -> (line:
    String)
    ensures
        line@ == enter_line(
            *theme,
            time@,
            match label {
                Some(l) => Some(l@),
                None => None,
            },
            match message {
                Some(m) => Some(m@),
                None => None,
            },
        ),
{
    let mut line = String::new();
    theme.push_painted(&mut line, Color::Gray, time);
    push_label_part(theme, &mut line, label);
    let ghost before = line@;
    match message {
        Some(m) => {
            proof {
                reveal_strlit(" ");
            }
            line.append(" ");
            line.append(m);
            assert(line@ =~= before + (seq![' '] + m@));
        },
        None => {
            assert(line@ =~= before + Seq::<char>::empty());
        },
    }
    line
}

/// Writes the line of a span that ends.
pub fn format_close(theme: &Theme, time: &str, label: Option<&str>, duration: &str) -> (line: String)
    ensures
        line@ == close_line(
            *theme,
            time@,
            match label {
                Some(l) => Some(l@),
                None => None,
            },
            duration@,
        ),
{
    proof {
        reveal_strlit(" Took ");
    }
    let mut line = String::new();
    theme.push_painted(&mut line, Color::Gray, time);
    push_label_part(theme, &mut line, label);
    let ghost before = line@;
    line.append(" Took ");
    assert(line@ =~= before + seq![' ', 'T', 'o', 'o', 'k', ' ']);
    theme.push_painted(&mut line, Color::Green, duration);
    line
}

/// Writes a forwarded line of subprocess output.
pub fn format_forward(label: Option<&str>, message: &str) -> (line: String)
    ensures
        line@ == forward_line(
            match label {
                Some(l) => Some(l@),
                None => None,
            },
            message@,
        ),
{
    match label {
        Some(l) => {
            proof {
                reveal_strlit("[");
                reveal_strlit("] ");
            }
            let mut line = String::from_str("[");
            line.append(l);
            line.append("] ");
            line.append(message);
            assert(line@ =~= forward_line(Some(l@), message@));
            line
        },
        None => String::from_str(message),
    }
}

/// Writes the line of a status message.
pub fn format_status(theme: &Theme, time: &str, level: Level, label: Option<&str>, message: &str) -> (line:
    String)
    ensures
        line@ == status_line(
            *theme,
            time@,
            level,
            match label {
                Some(l) => Some(l@),
                None => None,
            },
            message@,
        ),
{
    proof {
        reveal_strlit(" ");
    }
    let mut line = String::new();
    theme.push_painted(&mut line, Color::Gray, time);
    line.append(" ");
    let ghost before = line@;
    match level.color_of() {
        Some(color) => {
            theme.push_painted(&mut line, color, level.tag_of());
        },
        None => {
            line.append(level.tag_of());
        },
    }
    assert(line@ == before + level.painted_tag(*theme));
    push_label_part(theme, &mut line, label);
    line.append(" ");
    line.append(message);
    line
}

/// Where lines go: the terminal, past any live progress display.
pub trait LineWriter {
    /// Writes `line` and ends it.
    fn write_line(&mut self, line: &str);
}

/// The way to the terminal that a running task is given: it forwards the
/// task's output, each line behind the label of the parallel task it belongs
/// to.
pub struct Output<W: LineWriter> {
    writer: W,
    label: Option<String>,
    written: Ghost<Seq<Seq<char>>>,
}

impl<W: LineWriter> Output<W> {
    /// Every line written so far, oldest first.
    pub closed spec fn written(&self) -> Seq<Seq<char>> {
        self.written@
    }

    /// The label that forwarded lines are attributed to.
    pub closed spec fn label(&self) -> Option<Seq<char>> {
        text_of(self.label)
    }

    /// An output on `writer` that attributes to `label` and has written
    /// nothing.
    pub fn new(writer: W, label: Option<String>) -> (out: Self)
        ensures
            out.written() == Seq::<Seq<char>>::empty(),
            out.label() == text_of(label),
    {
        Output { writer, label, written: Ghost(Seq::empty()) }
    }

    /// Attributes what is forwarded from now on to `label`.
    pub(crate) fn attribute(&mut self, label: Option<String>)
        ensures
            final(self).label() == text_of(label),
            final(self).written() == old(self).written(),
    {
        self.label = label;
    }

    /// Writes `line` as it is.
    pub(crate) fn write(&mut self, line: &str)
        ensures
            final(self).written() == old(self).written().push(line@),
            final(self).label() == old(self).label(),
    {
        self.writer.write_line(line);
        proof {
            self.written@ = self.written@.push(line@);
        }
    }

    /// Forwards one line of a subprocess's output.
    pub fn forward(&mut self, message: &str)
        ensures
            final(self).written() == old(self).written().push(
                forward_line(old(self).label(), message@),
            ),
            final(self).label() == old(self).label(),
    {
        let line = match &self.label {
            Some(l) => format_forward(Some(l.as_str()), message),
            None => format_forward(None, message),
        };
        self.write(line.as_str());
    }

    /// The writer that the lines go to.
    pub closed spec fn sink(&self) -> W {
        self.writer
    }

    /// The writer, for whoever made the output.
    pub fn writer(&self) -> (writer: &W)
        ensures
            *writer == self.sink(),
    {
        &self.writer
    }

    /// Gives the writer back.
    pub fn into_writer(self) -> (writer: W)
        ensures
            writer == self.sink(),
    {
        self.writer
    }
}

/// What a span or an event says of itself: the fields `label` and `message`.
pub struct Visitor {
    pub label: Option<String>,
    pub message: Option<String>,
}

impl Visitor {
    /// A visitor that has seen no field.
    pub fn new() -> (visitor: Visitor)
        ensures
            visitor.label is None,
            visitor.message is None,
    {
        Visitor { label: None, message: None }
    }

    /// Takes a text field: `label` and `message` are kept, any other is
    /// passed over.
    pub fn record_str(&mut self, field: &str, value: &str)
        ensures
            text_of(final(self).label) == if field@ == "label"@ {
                Some(value@)
            } else {
                text_of(old(self).label)
            },
            text_of(final(self).message) == if field@ != "label"@ && field@ == "message"@ {
                Some(value@)
            } else {
                text_of(old(self).message)
            },
    {
        if same_text(field, "label") {
            self.label = Some(String::from_str(value));
        } else if same_text(field, "message") {
            self.message = Some(String::from_str(value));
        }
    }

    /// Takes a field of any other kind, by the text that its debug
    /// formatting gave.
    pub fn record_debug(&mut self, field: &str, rendered: &str)
        ensures
            text_of(final(self).label) == if field@ == "label"@ {
                Some(rendered@)
            } else {
                text_of(old(self).label)
            },
            text_of(final(self).message) == if field@ != "label"@ && field@ == "message"@ {
                Some(rendered@)
            } else {
                text_of(old(self).message)
            },
    {
        self.record_str(field, rendered);
    }
}

/// What the layer keeps of a span while it is open.
pub struct SpanTiming {
    label: Option<String>,
    message: Option<String>,
    start: Stamp,
}

/// One entry of the span table: the span's record, the span it is nested in,
/// and the label that it gives its descendants if it is a parallel task.
pub struct SpanEntry {
    timing: SpanTiming,
    parent: Option<usize>,
    parallel: Option<String>,
    entered: bool,
}

/// A span as contracts see it: its label, its description, when it started,
/// the span it is nested in, the label that it hands down, and whether it has
/// become active yet.
pub struct SpanView {
    pub label: Option<Seq<char>>,
    pub message: Option<Seq<char>>,
    pub start: Stamp,
    pub parent: Option<int>,
    pub parallel: Option<Seq<char>>,
    pub entered: bool,
}

impl SpanEntry {
    /// The entry as contracts see it.
    pub closed spec fn view(&self) -> SpanView {
        SpanView {
            label: text_of(self.timing.label),
            message: text_of(self.timing.message),
            start: self.timing.start,
            parent: match self.parent {
                Some(p) => Some(p as int),
                None => None,
            },
            parallel: text_of(self.parallel),
            entered: self.entered,
        }
    }
}

/// A slot of the span table as contracts see it: empty once its span has
/// closed.
pub open spec fn slot_view(slot: Option<SpanEntry>) -> Option<SpanView> {
    match slot {
        Some(entry) => Some(entry@),
        None => None,
    }
}

/// The span table as contracts see it, indexed by span identifier.
pub open spec fn table_view(slots: Seq<Option<SpanEntry>>) -> Seq<Option<SpanView>> {
    Seq::new(slots.len(), |i: int| slot_view(slots[i]))
}

/// The label that output inside span `id` is attributed to: that of the
/// nearest span on the way up, `id` itself included, that is a labelled
/// parallel task. The way up ends at a span that has closed.
pub open spec fn nearest_parallel(spans: Seq<Option<SpanView>>, id: int) -> Option<Seq<char>>
    decreases id,
{
    if 0 <= id < spans.len() {
        match spans[id] {
            Some(span) => match span.parallel {
                Some(label) => Some(label),
                None => match span.parent {
                    Some(parent) => if 0 <= parent < id {
                        nearest_parallel(spans, parent)
                    } else {
                        None
                    },
                    None => None,
                },
            },
            None => None,
        }
    } else {
        None
    }
}

/// The open span with identifier `id`, if there is one.
pub open spec fn span_at(spans: Seq<Option<SpanView>>, id: int) -> Option<SpanView> {
    if 0 <= id < spans.len() {
        spans[id]
    } else {
        None
    }
}

/// The label that an event is attributed to, by the span it was emitted in.
pub open spec fn event_label(spans: Seq<Option<SpanView>>, scope: Option<int>) -> Option<Seq<char>> {
    match scope {
        Some(id) => nearest_parallel(spans, id),
        None => None,
    }
}

/// The line that a log event puts on the terminal: forwarded output
/// undecorated, anything else as a status line.
pub open spec fn event_line(
    theme: Theme,
    spans: Seq<Option<SpanView>>,
    scope: Option<int>,
    level: Level,
    message: Option<Seq<char>>,
    time: Seq<char>,
) -> Seq<char> {
    let text = match message {
        Some(m) => m,
        None => Seq::empty(),
    };
    if level == Level::Trace {
        forward_line(event_label(spans, scope), text)
    } else {
        status_line(theme, time, level, event_label(spans, scope), text)
    }
}

/// Opening a span leaves every span that is there attributed as it was.
pub proof fn lemma_open_keeps_labels(spans: Seq<Option<SpanView>>, entry: Option<SpanView>, id: int)
    requires
        0 <= id < spans.len(),
    ensures
        nearest_parallel(spans.push(entry), id) == nearest_parallel(spans, id),
    decreases id,
{
    let grown = spans.push(entry);
    assert(grown[id] == spans[id]);
    match spans[id] {
        Some(span) => match span.parallel {
            Some(label) => {},
            None => match span.parent {
                Some(parent) => {
                    if 0 <= parent < id {
                        lemma_open_keeps_labels(spans, entry, parent);
                    }
                },
                None => {},
            },
        },
        None => {},
    }
}

/// Closing a span leaves a labelled parallel task, other than the span
/// itself, attributed as it was.
pub proof fn lemma_close_keeps_label(spans: Seq<Option<SpanView>>, closed: int, id: int)
    requires
        0 <= closed < spans.len(),
        closed != id,
        span_at(spans, id) matches Some(span) && span.parallel is Some,
    ensures
        nearest_parallel(spans.update(closed, None), id) == nearest_parallel(spans, id),
{
    assert(spans.update(closed, None)[id] == spans[id]);
}

/// The same message under two labels gives the same line only if the labels
/// are the same.
pub proof fn lemma_label_shows(first: Seq<char>, second: Seq<char>, message: Seq<char>)
    requires
        forward_line(Some(first), message) == forward_line(Some(second), message),
    ensures
        first == second,
{
    let one = forward_line(Some(first), message);
    let two = forward_line(Some(second), message);
    assert(one.len() == first.len() + message.len() + 3);
    assert(two.len() == second.len() + message.len() + 3);
    assert(first.len() == second.len());
    assert forall|i: int| 0 <= i < first.len() implies first[i] == second[i] by {
        assert(one[i + 1] == first[i]);
        assert(two[i + 1] == second[i]);
    }
    assert(first =~= second);
}

/// One line of output forwarded from inside a span.
pub struct Forwarded {
    pub scope: int,
    pub message: Seq<char>,
}

/// Two parallel tasks with different labels forward their output in any
/// order, one line after the other as they come: every line is written
/// behind the label of the task that it came from, and never as the other
/// task would have written it.
pub proof fn lemma_attribution(
    theme: Theme,
    spans: Seq<Option<SpanView>>,
    first: int,
    second: int,
    events: Seq<Forwarded>,
    time: Seq<char>,
)
    requires
        span_at(spans, first) matches Some(span) && span.parallel is Some,
        span_at(spans, second) matches Some(span) && span.parallel is Some,
        nearest_parallel(spans, first) != nearest_parallel(spans, second),
        forall|i: int|
            0 <= i < events.len() ==> (#[trigger] events[i]).scope == first || events[i].scope
                == second,
    ensures
        forall|i: int|
            0 <= i < events.len() ==> {
                let own = nearest_parallel(spans, (#[trigger] events[i]).scope);
                let other = if events[i].scope == first {
                    nearest_parallel(spans, second)
                } else {
                    nearest_parallel(spans, first)
                };
                let line = event_line(
                    theme,
                    spans,
                    Some(events[i].scope),
                    Level::Trace,
                    Some(events[i].message),
                    time,
                );
                &&& own is Some
                &&& line == forward_line(own, events[i].message)
                &&& line != forward_line(other, events[i].message)
            },
{
    assert forall|i: int| 0 <= i < events.len() implies {
        let own = nearest_parallel(spans, (#[trigger] events[i]).scope);
        let other = if events[i].scope == first {
            nearest_parallel(spans, second)
        } else {
            nearest_parallel(spans, first)
        };
        let line = event_line(
            theme,
            spans,
            Some(events[i].scope),
            Level::Trace,
            Some(events[i].message),
            time,
        );
        &&& own is Some
        &&& line == forward_line(own, events[i].message)
        &&& line != forward_line(other, events[i].message)
    } by {
        let own = nearest_parallel(spans, events[i].scope);
        let other = if events[i].scope == first {
            nearest_parallel(spans, second)
        } else {
            nearest_parallel(spans, first)
        };
        assert(own is Some);
        assert(other is Some);
        if forward_line(own, events[i].message) == forward_line(other, events[i].message) {
            lemma_label_shows(own->0, other->0, events[i].message);
        }
    }
}

/// The name of the spans that stand for one task of a parallel group.
pub open spec fn parallel_name() -> Seq<char> {
    seq!['p', 'a', 'r', 'a', 'l', 'l', 'e', 'l']
}

/// The entry that a new span gets. It has not become active yet.
pub open spec fn new_span_view(
    count: int,
    parent: Option<int>,
    name: Seq<char>,
    label: Option<Seq<char>>,
    message: Option<Seq<char>>,
    now: Stamp,
) -> SpanView {
    SpanView {
        label,
        message,
        start: now,
        parent: match parent {
            Some(p) => if 0 <= p < count {
                Some(p)
            } else {
                None
            },
            None => None,
        },
        parallel: if name == parallel_name() {
            label
        } else {
            None
        },
        entered: false,
    }
}

/// Follows the parents from `id` up to the nearest labelled parallel task.
fn find_parallel<'a>(slots: &'a Vec<Option<SpanEntry>>, id: usize) -> (label: Option<&'a str>)
    ensures
        match label {
            Some(l) => Some(l@),
            None => None,
        } == nearest_parallel(table_view(slots@), id as int),
    decreases id,
{
    if id < slots.len() {
        assert(table_view(slots@)[id as int] == slot_view(slots[id as int]));
        match &slots[id] {
            Some(entry) => match &entry.parallel {
                Some(label) => Some(label.as_str()),
                None => match entry.parent {
                    Some(parent) => if parent < id {
                        find_parallel(slots, parent)
                    } else {
                        None
                    },
                    None => None,
                },
            },
            None => None,
        }
    } else {
        None
    }
}

/// The observability layer: it keeps the table of open spans and writes the
/// line of each span start, log event and span end.
pub struct DcLayer<W: LineWriter> {
    out: Output<W>,
    theme: Theme,
    slots: Vec<Option<SpanEntry>>,
    history: Ghost<Seq<SpanView>>,
}

impl<W: LineWriter> DcLayer<W> {
    /// The span table, indexed by span identifier.
    pub closed spec fn spans(&self) -> Seq<Option<SpanView>> {
        table_view(self.slots@)
    }

    /// Every span that has started so far, each as it was when it started,
    /// oldest first. Closing a span deletes its record from the table and
    /// leaves this untouched.
    pub closed spec fn opened(&self) -> Seq<SpanView> {
        self.history@
    }

    /// The theme that lines are decorated with.
    pub closed spec fn theme(&self) -> Theme {
        self.theme
    }

    /// Every line written so far, oldest first.
    pub closed spec fn written(&self) -> Seq<Seq<char>> {
        self.out.written()
    }

    /// A layer that writes to `stdout_writer`, with no span open.
    pub fn new(stdout_writer: W, theme: Theme) -> (layer: Self)
        ensures
            layer.spans().len() == 0,
            layer.opened().len() == 0,
            layer.theme() == theme,
            layer.written() == Seq::<Seq<char>>::empty(),
    {
        DcLayer {
            out: Output::new(stdout_writer, None),
            theme,
            slots: Vec::new(),
            history: Ghost(Seq::empty()),
        }
    }

    /// A span starts: its label, its description and the time are recorded
    /// under a new identifier, which is returned. A span named `parallel`
    /// hands its label down to the events inside it.
    pub fn on_new_span(&mut self, parent: Option<usize>, name: &str, visitor: Visitor, now: Stamp) -> (id:
        usize)
        ensures
            id == old(self).spans().len(),
            final(self).spans() == old(self).spans().push(
                Some(
                    new_span_view(
                        id as int,
                        match parent {
                            Some(p) => Some(p as int),
                            None => None,
                        },
                        name@,
                        text_of(visitor.label),
                        text_of(visitor.message),
                        now,
                    ),
                ),
            ),
            final(self).opened() == old(self).opened().push(
                new_span_view(
                    id as int,
                    match parent {
                        Some(p) => Some(p as int),
                        None => None,
                    },
                    name@,
                    text_of(visitor.label),
                    text_of(visitor.message),
                    now,
                ),
            ),
            final(self).theme() == old(self).theme(),
            final(self).written() == old(self).written(),
    {
        proof {
            reveal_strlit("parallel");
        }
        let id = self.slots.len();
        let parent = match parent {
            Some(p) => if p < id {
                Some(p)
            } else {
                None
            },
            None => None,
        };
        let parallel = if same_text(name, "parallel") {
            assert("parallel"@ =~= parallel_name());
            visitor.label.clone()
        } else {
            assert("parallel"@ =~= parallel_name());
            None
        };
        let entry = SpanEntry {
            timing: SpanTiming { label: visitor.label, message: visitor.message, start: now },
            parent,
            parallel,
            entered: false,
        };
        proof {
            self.history@ = self.history@.push(entry@);
        }
        self.slots.push(Some(entry));
        assert(self.spans() =~= old(self).spans().push(
            Some(
                new_span_view(
                    id as int,
                    match parent {
                        Some(p) => Some(p as int),
                        None => None,
                    },
                    name@,
                    text_of(visitor.label),
                    text_of(visitor.message),
                    now,
                ),
            ),
        ));
        id
    }

    /// A span becomes active. The first time, its line is written and the
    /// span is marked as entered; when it becomes active again nothing is
    /// written. What was recorded when the span started stays as it is. An
    /// identifier that names no open span changes nothing.
    pub fn on_enter(&mut self, id: usize, now: &Stamp)
        ensures
            final(self).theme() == old(self).theme(),
            final(self).opened() == old(self).opened(),
            match span_at(old(self).spans(), id as int) {
                Some(span) => if span.entered {
                    &&& final(self).spans() == old(self).spans()
                    &&& final(self).written() == old(self).written()
                } else {
                    &&& final(self).spans() == old(self).spans().update(
                        id as int,
                        Some(SpanView { entered: true, ..span }),
                    )
                    &&& final(self).written() == old(self).written().push(
                        enter_line(old(self).theme(), now.text(), span.label, span.message),
                    )
                },
                None => {
                    &&& final(self).spans() == old(self).spans()
                    &&& final(self).written() == old(self).written()
                },
            },
    {
        if id < self.slots.len() {
            assert(self.spans()[id as int] == slot_view(self.slots[id as int]));
            let first = match &self.slots[id] {
                Some(entry) => if entry.entered {
                    None
                } else {
                    let time = ts(now);
                    let label = match &entry.timing.label {
                        Some(l) => Some(l.as_str()),
                        None => None,
                    };
                    let message = match &entry.timing.message {
                        Some(m) => Some(m.as_str()),
                        None => None,
                    };
                    let line = format_enter(&self.theme, time.as_str(), label, message);
                    let marked = SpanEntry {
                        timing: SpanTiming {
                            label: entry.timing.label.clone(),
                            message: entry.timing.message.clone(),
                            start: entry.timing.start,
                        },
                        parent: entry.parent,
                        parallel: entry.parallel.clone(),
                        entered: true,
                    };
                    Some((line, marked))
                },
                None => None,
            };
            match first {
                Some((line, marked)) => {
                    self.slots.set(id, Some(marked));
                    self.out.write(line.as_str());
                    assert(self.spans() =~= old(self).spans().update(
                        id as int,
                        Some(SpanView { entered: true, ..old(self).spans()[id as int]->0 }),
                    ));
                },
                None => {},
            }
        }
    }

    /// A span ends: the line that says how long it took is written, and its
    /// record is deleted. An identifier that names no open span changes
    /// nothing.
    pub fn on_close(&mut self, id: usize, now: &Stamp)
        ensures
            final(self).theme() == old(self).theme(),
            final(self).opened() == old(self).opened(),
            match span_at(old(self).spans(), id as int) {
                Some(span) => {
                    &&& final(self).spans() == old(self).spans().update(id as int, None)
                    &&& final(self).written() == old(self).written().push(
                        close_line(
                            old(self).theme(),
                            now.text(),
                            span.label,
                            friendly_duration(
                                rounded_millis(now.instant() - span.start.instant()),
                            ),
                        ),
                    )
                },
                None => {
                    &&& final(self).spans() == old(self).spans()
                    &&& final(self).written() == old(self).written()
                },
            },
    {
        if id < self.slots.len() {
            assert(self.spans()[id as int] == slot_view(self.slots[id as int]));
            let line = match &self.slots[id] {
                Some(entry) => {
                    let time = ts(now);
                    let label = match &entry.timing.label {
                        Some(l) => Some(l.as_str()),
                        None => None,
                    };
                    let duration = took(&entry.timing.start, now);
                    Some(format_close(&self.theme, time.as_str(), label, duration.as_str()))
                },
                None => None,
            };
            match line {
                Some(line) => {
                    self.slots.set(id, None);
                    self.out.write(line.as_str());
                    assert(self.spans() =~= old(self).spans().update(id as int, None));
                },
                None => {},
            }
        }
    }

    /// A log event arrives from inside span `scope`: its line is written.
    /// Forwarded output goes out as it came, behind the label of the parallel
    /// task around it; a status message goes out with time and level.
    pub fn on_event(&mut self, scope: Option<usize>, level: Level, visitor: Visitor, now: &Stamp)
        ensures
            final(self).spans() == old(self).spans(),
            final(self).opened() == old(self).opened(),
            final(self).theme() == old(self).theme(),
            final(self).written() == old(self).written().push(
                event_line(
                    old(self).theme(),
                    old(self).spans(),
                    match scope {
                        Some(id) => Some(id as int),
                        None => None,
                    },
                    level,
                    text_of(visitor.message),
                    now.text(),
                ),
            ),
    {
        let empty = String::new();
        let message = match &visitor.message {
            Some(m) => m.as_str(),
            None => empty.as_str(),
        };
        let label = match scope {
            Some(id) => find_parallel(&self.slots, id),
            None => None,
        };
        let line = match level {
            Level::Trace => format_forward(label, message),
            _ => {
                let time = ts(now);
                format_status(&self.theme, time.as_str(), level, label, message)
            },
        };
        self.out.write(line.as_str());
    }

    /// Runs `runnable` inside span `id`, once: what that one run forwards is
    /// attributed to the parallel task that the span belongs to, and what it
    /// ends in is handed back.
    pub fn in_scope<R: Runnable>(&mut self, id: usize, runnable: &R) -> (outcome: Result<
        (),
        RunError,
    >)
        ensures
            final(self).spans() == old(self).spans(),
            final(self).opened() == old(self).opened(),
            final(self).theme() == old(self).theme(),
            exists|messages: Seq<Seq<char>>|
                #![trigger runnable.yields(outcome, messages)]
                {
                    &&& runnable.yields(outcome, messages)
                    &&& final(self).written() == old(self).written() + forwarded_lines(
                        nearest_parallel(old(self).spans(), id as int),
                        messages,
                    )
                },
    {
        let label = match find_parallel(&self.slots, id) {
            Some(l) => Some(String::from_str(l)),
            None => None,
        };
        self.out.attribute(label);
        runnable.run(&mut self.out)
    }

    /// The span that the open span `id` is nested in, if it is nested in one.
    pub fn parent_of(&self, id: usize) -> (parent: Option<usize>)
        ensures
            match parent {
                Some(p) => Some(p as int),
                None => None,
            } == match span_at(self.spans(), id as int) {
                Some(span) => span.parent,
                None => None,
            },
    {
        if id < self.slots.len() {
            assert(self.spans()[id as int] == slot_view(self.slots[id as int]));
            match &self.slots[id] {
                Some(entry) => entry.parent,
                None => None,
            }
        } else {
            None
        }
    }

    /// The label that output inside span `id` is attributed to.
    pub fn parallel_label(&self, id: usize) -> (label: Option<&str>)
        ensures
            match label {
                Some(l) => Some(l@),
                None => None,
            } == nearest_parallel(self.spans(), id as int),
    {
        find_parallel(&self.slots, id)
    }

    /// The theme that lines are decorated with.
    pub fn theme_ref(&self) -> (theme: &Theme)
        ensures
            *theme == self.theme(),
    {
        &self.theme
    }

    /// How many spans have started so far.
    pub fn span_count(&self) -> (count: usize)
        ensures
            count == self.spans().len(),
    {
        self.slots.len()
    }

    /// Whether span `id` is open.
    pub fn is_open(&self, id: usize) -> (open: bool)
        ensures
            open == span_at(self.spans(), id as int).is_some(),
    {
        if id < self.slots.len() {
            assert(self.spans()[id as int] == slot_view(self.slots[id as int]));
            self.slots[id].is_some()
        } else {
            false
        }
    }

    /// The writer that the lines go to.
    pub closed spec fn sink(&self) -> W {
        self.out.sink()
    }

    /// Gives the writer back.
    pub fn into_writer(self) -> (writer: W)
        ensures
            writer == self.sink(),
    {
        self.out.into_writer()
    }
}

} // verus!
