use crossterm::style::{Attribute, Color as Named, SetAttribute, SetForegroundColor};
use dc::ansi::{Color, Theme};
use dc::clock::{elapsed_millis, took, ts, Stamp};
use dc::subscriber::{
    enabled, format_close, format_enter, format_forward, format_status, DcLayer, Level,
    LineWriter, Output, Visitor,
};

struct Collect(Vec<String>);

impl LineWriter for Collect {
    fn write_line(&mut self, line: &str) {
        self.0.push(line.to_string());
    }
}

fn marked() -> Theme {
    let codes = (0..16).map(|n| format!("<{n}>")).collect();
    Theme::custom(codes, "</>".to_string()).unwrap()
}

fn at(second: u8, nanos: i128) -> Stamp {
    Stamp::new(2024, 5, 17, 9, 30, second, nanos).unwrap()
}

fn fields(label: Option<&str>, message: Option<&str>) -> Visitor {
    Visitor { label: label.map(str::to_string), message: message.map(str::to_string) }
}

#[test]
fn severity_rises_from_forwarded_output_to_error() {
    let levels = [Level::Trace, Level::Debug, Level::Info, Level::Warn, Level::Error];
    for pair in levels.windows(2) {
        assert!(pair[0].severity() < pair[1].severity());
    }
    assert_eq!(Level::Trace.severity(), 0);
    assert_eq!(Level::Error.severity(), 4);
}

#[test]
fn level_names_fill_five_columns() {
    assert_eq!(Level::Error.tag_of(), "ERROR");
    assert_eq!(Level::Warn.tag_of(), " WARN");
    assert_eq!(Level::Info.tag_of(), " INFO");
    assert_eq!(Level::Debug.tag_of(), "DEBUG");
    assert_eq!(Level::Trace.tag_of(), "TRACE");
}

#[test]
fn each_status_level_has_its_colour() {
    assert_eq!(Level::Error.color_of(), Some(Color::Red));
    assert_eq!(Level::Warn.color_of(), Some(Color::Yellow));
    assert_eq!(Level::Info.color_of(), Some(Color::Green));
    assert_eq!(Level::Debug.color_of(), Some(Color::Blue));
    assert_eq!(Level::Trace.color_of(), None);
}

#[test]
fn enter_line_has_time_label_and_description() {
    let theme = marked();
    assert_eq!(
        format_enter(&theme, "2024-05-17 09:30:00", Some("build"), Some("make all")),
        "<8>2024-05-17 09:30:00</> [<13>build</>] make all"
    );
    assert_eq!(format_enter(&theme, "T", None, Some("make")), "<8>T</> make");
    assert_eq!(format_enter(&theme, "T", Some("x"), None), "<8>T</> [<13>x</>]");
    assert_eq!(format_enter(&theme, "T", None, None), "<8>T</>");
    assert_eq!(
        format_enter(&Theme::plain(), "2024-05-17 09:30:00", Some("build"), Some("make all")),
        "2024-05-17 09:30:00 [build] make all"
    );
}

#[test]
fn close_line_says_how_long_it_took() {
    let theme = marked();
    assert_eq!(
        format_close(&theme, "2024-05-17 09:30:02", Some("build"), "2s 10ms"),
        "<8>2024-05-17 09:30:02</> [<13>build</>] Took <10>2s 10ms</>"
    );
    assert_eq!(format_close(&theme, "T", None, "1ms"), "<8>T</> Took <10>1ms</>");
}

#[test]
fn forwarded_line_is_undecorated() {
    assert_eq!(format_forward(None, "  warning: unused"), "  warning: unused");
    assert_eq!(format_forward(Some("web"), "listening"), "[web] listening");
    assert_eq!(format_forward(Some(""), ""), "[] ");
    assert_eq!(format_forward(None, ""), "");
}

#[test]
fn status_line_has_time_level_label_and_message() {
    let theme = marked();
    assert_eq!(
        format_status(&theme, "T", Level::Error, Some("db"), "gone"),
        "<8>T</> <9>ERROR</> [<13>db</>] gone"
    );
    assert_eq!(format_status(&theme, "T", Level::Warn, None, "slow"), "<8>T</> <11> WARN</> slow");
    assert_eq!(format_status(&theme, "T", Level::Info, None, "up"), "<8>T</> <10> INFO</> up");
    assert_eq!(format_status(&theme, "T", Level::Debug, None, "x"), "<8>T</> <12>DEBUG</> x");
}

#[test]
fn stamp_takes_valid_fields_only() {
    assert!(Stamp::new(2024, 2, 29, 23, 59, 59, 0).is_some());
    assert!(Stamp::new(-9999, 1, 1, 0, 0, 0, 0).is_some());
    assert!(Stamp::new(9999, 12, 31, 23, 59, 59, 0).is_some());
    assert!(Stamp::new(10000, 1, 1, 0, 0, 0, 0).is_none());
    assert!(Stamp::new(-10000, 1, 1, 0, 0, 0, 0).is_none());
    assert!(Stamp::new(2024, 0, 1, 0, 0, 0, 0).is_none());
    assert!(Stamp::new(2024, 13, 1, 0, 0, 0, 0).is_none());
    assert!(Stamp::new(2024, 1, 0, 0, 0, 0, 0).is_none());
    assert!(Stamp::new(2024, 1, 32, 0, 0, 0, 0).is_none());
    assert!(Stamp::new(2024, 1, 1, 24, 0, 0, 0).is_none());
    assert!(Stamp::new(2024, 1, 1, 0, 60, 0, 0).is_none());
    assert!(Stamp::new(2024, 1, 1, 0, 0, 60, 0).is_none());
    assert!(Stamp::new(2024, 1, 1, 0, 0, 0, dc::clock::NANOS_LIMIT).is_some());
    assert!(Stamp::new(2024, 1, 1, 0, 0, 0, dc::clock::NANOS_LIMIT + 1).is_none());
    assert!(Stamp::new(2024, 1, 1, 0, 0, 0, -dc::clock::NANOS_LIMIT - 1).is_none());
}

#[test]
fn time_is_shown_as_date_and_clock() {
    assert_eq!(ts(&Stamp::new(2024, 5, 7, 9, 3, 0, 0).unwrap()), "2024-05-07 09:03:00");
    assert_eq!(ts(&Stamp::new(9999, 12, 31, 23, 59, 59, 0).unwrap()), "9999-12-31 23:59:59");
    assert_eq!(ts(&Stamp::new(33, 1, 1, 0, 0, 0, 0).unwrap()), "0033-01-01 00:00:00");
    assert_eq!(ts(&Stamp::new(0, 1, 1, 0, 0, 0, 0).unwrap()), "0000-01-01 00:00:00");
    assert_eq!(ts(&Stamp::new(-44, 3, 15, 12, 0, 0, 0).unwrap()), "-0044-03-15 12:00:00");
}

#[test]
fn time_is_shown_as_jiff_shows_it() {
    for (year, month, day, hour, minute, second) in
        [(2024i16, 5i8, 7i8, 9i8, 3i8, 0i8), (1, 1, 1, 0, 0, 0), (-9999, 12, 31, 23, 59, 59), (987, 10, 9, 8, 7, 6)]
    {
        let civil = jiff::civil::DateTime::new(year, month, day, hour, minute, second, 0).unwrap();
        let stamp = Stamp::new(year, month as u8, day as u8, hour as u8, minute as u8, second as u8, 0)
            .unwrap();
        assert_eq!(ts(&stamp), civil.strftime("%F %T").to_string());
    }
}

#[test]
fn elapsed_time_rounds_to_the_nearest_millisecond() {
    let start = at(0, 1_000_000_000);
    assert_eq!(elapsed_millis(&start, &at(1, 2_500_000_000)), 1500);
    assert_eq!(elapsed_millis(&start, &at(0, 1_000_499_999)), 0);
    assert_eq!(elapsed_millis(&start, &at(0, 1_000_500_000)), 1);
    assert_eq!(elapsed_millis(&start, &at(0, 1_001_499_999)), 1);
    assert_eq!(elapsed_millis(&start, &at(0, 1_001_500_000)), 2);
    assert_eq!(elapsed_millis(&start, &start), 0);
    assert_eq!(elapsed_millis(&start, &at(0, 999_500_000)), -1);
    assert_eq!(elapsed_millis(&start, &at(0, 999_500_001)), 0);
    assert_eq!(elapsed_millis(&start, &at(0, 998_500_000)), -2);
}

#[test]
fn elapsed_time_rounds_as_jiff_rounds() {
    for nanos in [0i128, 1, 499_999, 500_000, 500_001, 1_499_999, 1_500_000, 987_654_321_012, -500_000, -499_999, -1_500_000, -2_499_999] {
        let start = at(0, 0);
        let end = at(0, nanos);
        let rounded = jiff::SignedDuration::from_nanos_i128(nanos)
            .round(jiff::Unit::Millisecond)
            .unwrap();
        assert_eq!(i128::from(elapsed_millis(&start, &end)), rounded.as_millis(), "{nanos}");
    }
}

#[test]
fn duration_is_written_in_words() {
    let start = at(0, 0);
    assert_eq!(took(&start, &at(1, 1_500_000_000)), "1s 500ms");
    assert_eq!(took(&start, &at(0, 0)), "0s");
    assert_eq!(took(&start, &at(0, 42_000_000)), "42ms");
    assert_eq!(took(&start, &at(0, 3_723_004_000_000)), "1h 2m 3s 4ms");
    assert_eq!(took(&start, &at(0, 1_499_600_000)), "1s 500ms");
}

#[test]
fn span_lines_come_at_enter_and_close() {
    let mut layer = DcLayer::new(Collect(Vec::new()), marked());
    let id = layer.on_new_span(None, "run", fields(Some("build"), Some("make all")), at(0, 0));
    assert_eq!(id, 0);
    assert!(layer.is_open(id));
    layer.on_enter(id, &at(1, 1_000_000_000));
    layer.on_close(id, &at(4, 3_250_000_000));
    assert!(!layer.is_open(id));
    assert_eq!(layer.span_count(), 1);
    assert_eq!(
        layer.into_writer().0,
        vec![
            "<8>2024-05-17 09:30:01</> [<13>build</>] make all",
            "<8>2024-05-17 09:30:04</> [<13>build</>] Took <10>3s 250ms</>",
        ]
    );
}

#[test]
fn a_span_is_closed_once() {
    let mut layer = DcLayer::new(Collect(Vec::new()), Theme::plain());
    let id = layer.on_new_span(None, "run", fields(Some("a"), None), at(0, 0));
    layer.on_close(id, &at(1, 1_000_000_000));
    layer.on_close(id, &at(2, 2_000_000_000));
    layer.on_enter(id, &at(3, 3_000_000_000));
    layer.on_enter(7, &at(3, 3_000_000_000));
    layer.on_close(7, &at(3, 3_000_000_000));
    assert_eq!(layer.into_writer().0, vec!["2024-05-17 09:30:01 [a] Took 1s"]);
}

#[test]
fn elapsed_time_counts_from_the_start_of_the_span() {
    let mut layer = DcLayer::new(Collect(Vec::new()), Theme::plain());
    let id = layer.on_new_span(None, "run", fields(None, None), at(0, 0));
    layer.on_enter(id, &at(5, 5_000_000_000));
    layer.on_close(id, &at(9, 9_000_000_000));
    assert_eq!(
        layer.into_writer().0,
        vec!["2024-05-17 09:30:05", "2024-05-17 09:30:09 Took 9s"]
    );
}

#[test]
fn a_span_starts_its_line_the_first_time_only() {
    let mut layer = DcLayer::new(Collect(Vec::new()), Theme::plain());
    let first = layer.on_new_span(None, "run", fields(Some("a"), Some("make")), at(0, 0));
    let second = layer.on_new_span(None, "run", fields(Some("b"), None), at(0, 0));
    layer.on_enter(first, &at(1, 1_000_000_000));
    layer.on_enter(first, &at(2, 2_000_000_000));
    layer.on_enter(second, &at(3, 3_000_000_000));
    layer.on_enter(first, &at(4, 4_000_000_000));
    layer.on_enter(second, &at(5, 5_000_000_000));
    layer.on_close(first, &at(6, 6_000_000_000));
    layer.on_enter(first, &at(7, 7_000_000_000));
    assert_eq!(
        layer.into_writer().0,
        vec![
            "2024-05-17 09:30:01 [a] make",
            "2024-05-17 09:30:03 [b]",
            "2024-05-17 09:30:06 [a] Took 6s",
        ]
    );
}

#[test]
fn a_span_that_never_became_active_still_closes() {
    let mut layer = DcLayer::new(Collect(Vec::new()), Theme::plain());
    let id = layer.on_new_span(None, "run", fields(Some("a"), None), at(0, 0));
    layer.on_close(id, &at(2, 2_000_000_000));
    layer.on_enter(id, &at(3, 3_000_000_000));
    assert_eq!(layer.into_writer().0, vec!["2024-05-17 09:30:02 [a] Took 2s"]);
}

#[test]
fn forwarded_output_outside_any_task_is_bare() {
    let mut layer = DcLayer::new(Collect(Vec::new()), marked());
    let id = layer.on_new_span(None, "run", fields(Some("solo"), Some("ls")), at(0, 0));
    layer.on_event(Some(id), Level::Trace, fields(None, Some("file.txt")), &at(1, 0));
    layer.on_event(None, Level::Trace, fields(None, Some("stray")), &at(1, 0));
    layer.on_event(Some(99), Level::Trace, fields(None, None), &at(1, 0));
    assert_eq!(layer.into_writer().0, vec!["file.txt", "stray", ""]);
}

#[test]
fn two_parallel_tasks_keep_their_own_labels() {
    let mut layer = DcLayer::new(Collect(Vec::new()), Theme::plain());
    let group = layer.on_new_span(None, "group", fields(Some("ci"), None), at(0, 0));
    let a = layer.on_new_span(Some(group), "parallel", fields(Some("a"), Some("x")), at(0, 0));
    let b = layer.on_new_span(Some(group), "parallel", fields(Some("b"), Some("y")), at(0, 0));
    let order = [a, b, b, a, b, a, a, b];
    for (i, scope) in order.iter().enumerate() {
        let line = if *scope == a { format!("from a {i}") } else { format!("from b {i}") };
        layer.on_event(Some(*scope), Level::Trace, fields(None, Some(&line)), &at(1, 0));
    }
    assert_eq!(layer.parallel_label(a), Some("a"));
    assert_eq!(layer.parallel_label(b), Some("b"));
    assert_eq!(layer.parallel_label(group), None);
    let written = layer.into_writer().0;
    assert_eq!(written.len(), order.len());
    for (i, scope) in order.iter().enumerate() {
        let expected =
            if *scope == a { format!("[a] from a {i}") } else { format!("[b] from b {i}") };
        assert_eq!(written[i], expected);
    }
}

#[test]
fn a_label_reaches_the_spans_below_its_task() {
    let mut layer = DcLayer::new(Collect(Vec::new()), Theme::plain());
    let group = layer.on_new_span(None, "group", fields(Some("ci"), None), at(0, 0));
    let task = layer.on_new_span(Some(group), "parallel", fields(Some("web"), None), at(0, 0));
    let inner = layer.on_new_span(Some(task), "run", fields(Some("step"), None), at(0, 0));
    let deeper = layer.on_new_span(Some(inner), "run", fields(None, None), at(0, 0));
    let other = layer.on_new_span(Some(group), "parallel", fields(Some("db"), None), at(0, 0));
    let nested = layer.on_new_span(Some(task), "parallel", fields(Some("sub"), None), at(0, 0));
    assert_eq!(layer.parallel_label(deeper), Some("web"));
    assert_eq!(layer.parallel_label(inner), Some("web"));
    assert_eq!(layer.parallel_label(nested), Some("sub"));
    assert_eq!(layer.parallel_label(other), Some("db"));
    layer.on_close(other, &at(1, 0));
    assert_eq!(layer.parallel_label(deeper), Some("web"));
    assert_eq!(layer.parallel_label(other), None);
    layer.on_event(Some(deeper), Level::Trace, fields(None, Some("ready")), &at(1, 0));
    layer.on_close(inner, &at(1, 0));
    assert_eq!(layer.parallel_label(deeper), None);
    let written = layer.into_writer().0;
    assert_eq!(written[1], "[web] ready");
}

#[test]
fn a_span_knows_the_span_it_is_nested_in() {
    let mut layer = DcLayer::new(Collect(Vec::new()), Theme::plain());
    let group = layer.on_new_span(None, "group", fields(Some("ci"), None), at(0, 0));
    let child = layer.on_new_span(Some(group), "parallel", fields(Some("a"), None), at(0, 0));
    let stray = layer.on_new_span(Some(9), "parallel", fields(Some("b"), None), at(0, 0));
    assert_eq!(layer.parent_of(group), None);
    assert_eq!(layer.parent_of(child), Some(group));
    assert_eq!(layer.parent_of(stray), None);
    assert_eq!(layer.parent_of(17), None);
    layer.on_enter(child, &at(1, 0));
    assert_eq!(layer.parent_of(child), Some(group));
    layer.on_close(child, &at(1, 0));
    assert_eq!(layer.parent_of(child), None);
}

#[test]
fn only_a_span_named_parallel_hands_its_label_down() {
    let mut layer = DcLayer::new(Collect(Vec::new()), Theme::plain());
    let run = layer.on_new_span(None, "run", fields(Some("solo"), None), at(0, 0));
    let unlabelled = layer.on_new_span(None, "parallel", fields(None, Some("m")), at(0, 0));
    let bad_parent = layer.on_new_span(Some(17), "parallel", fields(Some("p"), None), at(0, 0));
    assert_eq!(layer.parallel_label(run), None);
    assert_eq!(layer.parallel_label(unlabelled), None);
    assert_eq!(layer.parallel_label(bad_parent), Some("p"));
}

#[test]
fn status_messages_carry_time_level_and_label() {
    let mut layer = DcLayer::new(Collect(Vec::new()), marked());
    let group = layer.on_new_span(None, "group", fields(Some("ci"), None), at(0, 0));
    let task = layer.on_new_span(Some(group), "parallel", fields(Some("web"), None), at(0, 0));
    layer.on_event(Some(task), Level::Warn, fields(None, Some("slow")), &at(2, 0));
    layer.on_event(None, Level::Error, fields(None, Some("down")), &at(3, 0));
    layer.on_event(Some(group), Level::Info, fields(Some("ignored"), None), &at(4, 0));
    assert_eq!(
        layer.into_writer().0,
        vec![
            "<8>2024-05-17 09:30:02</> <11> WARN</> [<13>web</>] slow",
            "<8>2024-05-17 09:30:03</> <9>ERROR</> down",
            "<8>2024-05-17 09:30:04</> <10> INFO</> ",
        ]
    );
}

#[test]
fn visitor_keeps_label_and_message_only() {
    let mut visitor = Visitor::new();
    assert_eq!(visitor.label, None);
    assert_eq!(visitor.message, None);
    visitor.record_str("command", "ls");
    assert_eq!(visitor.label, None);
    visitor.record_str("label", "one");
    visitor.record_debug("message", "Running ls...");
    visitor.record_str("indicatif.pb_show", "true");
    assert_eq!(visitor.label.as_deref(), Some("one"));
    assert_eq!(visitor.message.as_deref(), Some("Running ls..."));
    visitor.record_debug("label", "\"two\"");
    assert_eq!(visitor.label.as_deref(), Some("\"two\""));
    assert_eq!(visitor.message.as_deref(), Some("Running ls..."));
}

#[test]
fn status_messages_pass_and_forwarded_output_of_this_crate() {
    assert!(enabled(Level::Error, "hyper::client"));
    assert!(enabled(Level::Debug, "anything"));
    assert!(enabled(Level::Trace, "dc::runner::cmd"));
    assert!(enabled(Level::Trace, "dc"));
    assert!(!enabled(Level::Trace, "d"));
    assert!(!enabled(Level::Trace, "hyper::dc"));
    assert!(!enabled(Level::Trace, ""));
}

#[test]
fn an_output_forwards_behind_its_label() {
    let mut out = Output::new(Collect(Vec::new()), Some("api".to_string()));
    out.forward("GET /");
    out.forward("");
    assert_eq!(out.writer().0, vec!["[api] GET /", "[api] "]);
    let mut bare = Output::new(Collect(Vec::new()), None);
    bare.forward("GET /");
    assert_eq!(bare.into_writer().0, vec!["GET /"]);
}

#[test]
fn terminal_theme_holds_sequences_a_terminal_takes() {
    let theme = Theme::terminal();
    let colors = [
        Color::Black, Color::DarkRed, Color::DarkGreen, Color::DarkYellow, Color::DarkBlue,
        Color::DarkMagenta, Color::DarkCyan, Color::LightGray, Color::Gray, Color::Red,
        Color::Green, Color::Yellow, Color::Blue, Color::Magenta, Color::Cyan, Color::White,
    ];
    for (n, color) in colors.iter().enumerate() {
        assert_eq!(usize::from(color.number()), n);
        let code = theme.code_of(*color);
        let full = format!("\u{1b}[38;5;{n}m");
        assert!(code == full || code == "\u{1b}[m" || code.is_empty(), "{code:?}");
    }
    let reset = theme.reset_of();
    assert!(reset == "\u{1b}[0m" || reset.is_empty(), "{reset:?}");
}

#[test]
fn terminal_theme_is_what_crossterm_prints() {
    let theme = Theme::terminal();
    assert_eq!(theme.code_of(Color::Blue), SetForegroundColor(Named::Blue).to_string());
    assert_eq!(theme.code_of(Color::Gray), SetForegroundColor(Named::DarkGrey).to_string());
    assert_eq!(theme.code_of(Color::LightGray), SetForegroundColor(Named::Grey).to_string());
    assert_eq!(theme.code_of(Color::DarkCyan), SetForegroundColor(Named::DarkCyan).to_string());
    assert_eq!(theme.code_of(Color::White), SetForegroundColor(Named::White).to_string());
    assert_eq!(theme.reset_of(), SetAttribute(Attribute::Reset).to_string());
}

#[test]
fn a_theme_needs_sixteen_sequences() {
    assert!(Theme::custom(Vec::new(), String::new()).is_none());
    assert!(Theme::custom(vec![String::new(); 15], String::new()).is_none());
    assert!(Theme::custom(vec![String::new(); 17], String::new()).is_none());
    let theme = marked();
    assert_eq!(theme.code_of(Color::Black), "<0>");
    assert_eq!(theme.code_of(Color::White), "<15>");
    assert_eq!(theme.reset_of(), "</>");
    let mut line = String::from("=");
    theme.push_painted(&mut line, Color::Cyan, "sea");
    assert_eq!(line, "=<14>sea</>");
    let plain = Theme::plain();
    assert_eq!(plain.code_of(Color::Red), "");
    assert_eq!(plain.reset_of(), "");
}
