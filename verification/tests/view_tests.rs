use colored_logcat::app::{App, InputMode};
use colored_logcat::filter::CrashClassifier;
use colored_logcat::json::SpanKind;
use colored_logcat::parser::{LogEntry, LogLevel};
use colored_logcat::view::{
    blank_text, crash_title, crash_window, device_lines, device_title, filter_bar_segments,
    frame_number, help_beside, help_line_segments, level_color, level_of_rank, level_style,
    log_title, overlay_size, padded_left, padded_right, render_entry, span_style,
    status_padding, status_segments, Color, Segment, Style, STATUS_HINTS,
};

fn viewer() -> App {
    App::new(10_000, CrashClassifier::new().expect("the crash signature compiles"))
}

fn entry(level: char, tag: &str, message: &str) -> LogEntry {
    LogEntry::parse(&format!("01-01 00:00:01.000 123 45678 {level} {tag}: {message}"))
        .expect("the line follows the grammar")
}

fn texts(segments: &[Segment]) -> Vec<&str> {
    segments.iter().map(|segment| segment.text.as_str()).collect()
}

fn styles(segments: &[Segment]) -> Vec<Style> {
    segments.iter().map(|segment| segment.style).collect()
}

fn fg(color: Color) -> Style {
    Style { fg: Some(color), bg: None, bold: false }
}

fn bold(color: Color) -> Style {
    Style { fg: Some(color), bg: None, bold: true }
}

#[test]
fn each_level_has_its_colour() {
    assert_eq!(level_color(LogLevel::Verbose), Color::DarkGray);
    assert_eq!(level_color(LogLevel::Debug), Color::Cyan);
    assert_eq!(level_color(LogLevel::Info), Color::Gray);
    assert_eq!(level_color(LogLevel::Warn), Color::Yellow);
    assert_eq!(level_color(LogLevel::Error), Color::Red);
    assert_eq!(level_color(LogLevel::Fatal), Color::Magenta);
    assert_eq!(level_style(LogLevel::Warn), fg(Color::Yellow));
    assert_eq!(level_style(LogLevel::Error), bold(Color::Red));
    assert_eq!(level_style(LogLevel::Fatal), bold(Color::Magenta));
    for rank in 0..6 {
        assert_eq!(level_of_rank(rank).index(), rank);
    }
}

#[test]
fn each_kind_of_span_has_its_style() {
    assert_eq!(span_style(SpanKind::Bracket), fg(Color::White));
    assert_eq!(span_style(SpanKind::Separator), fg(Color::DarkGray));
    assert_eq!(span_style(SpanKind::Key), fg(Color::Cyan));
    assert_eq!(span_style(SpanKind::Text), fg(Color::Green));
    assert_eq!(span_style(SpanKind::Number), fg(Color::Yellow));
    assert_eq!(span_style(SpanKind::Keyword), fg(Color::Magenta));
    assert_eq!(span_style(SpanKind::Space), Style { fg: None, bg: None, bold: false });
    assert_eq!(span_style(SpanKind::Other), fg(Color::Gray));
    assert_eq!(Style::plain(), Style { fg: None, bg: None, bold: false });
    assert_eq!(
        Style::fg_on(Color::Black, Color::Red),
        Style { fg: Some(Color::Black), bg: Some(Color::Red), bold: false }
    );
}

#[test]
fn pads_with_spaces() {
    assert_eq!(blank_text(0), "");
    assert_eq!(blank_text(3), "   ");
    assert_eq!(padded_left("42", 5), "   42");
    assert_eq!(padded_left("12345", 5), "12345");
    assert_eq!(padded_left("1234567", 5), "1234567");
    assert_eq!(padded_left("é", 3), "  é");
    assert_eq!(padded_right("q", 4), "q   ");
    assert_eq!(padded_right("long key", 4), "long key");
    assert_eq!(frame_number("[", 17, "]"), "[17]");
}

#[test]
fn shows_a_plain_entry() {
    let line = render_entry(&entry('W', "Net", "read timeout"));
    assert_eq!(
        texts(&line),
        vec!["01-01 00:00:01.000 ", "  123 45678 ", "W ", "Net: ", "read timeout"]
    );
    assert_eq!(
        styles(&line),
        vec![
            fg(Color::DarkGray),
            fg(Color::DarkGray),
            fg(Color::Yellow),
            fg(Color::DarkGray),
            fg(Color::Yellow),
        ]
    );
    let severe = render_entry(&entry('E', "Net", "down"));
    assert_eq!(severe[2].style, bold(Color::Red));
    assert_eq!(severe[4].style, fg(Color::Red));
}

#[test]
fn shows_a_json_message_highlighted() {
    let line = render_entry(&entry('I', "Api", "{\"a\":1,\"b\":true}"));
    assert_eq!(
        texts(&line),
        vec![
            "01-01 00:00:01.000 ",
            "  123 45678 ",
            "I ",
            "Api: ",
            "{",
            " ",
            "\"a\"",
            ":",
            " ",
            "1",
            ",",
            " ",
            "\"b\"",
            ":",
            " ",
            "true",
            " ",
            "}",
        ]
    );
    assert_eq!(line[6].style, fg(Color::Cyan));
    assert_eq!(line[9].style, fg(Color::Yellow));
    assert_eq!(line[12].style, fg(Color::Cyan));
    assert_eq!(line[15].style, fg(Color::Magenta));
    assert_eq!(line[4].style, fg(Color::White));
    assert_eq!(line[5].style, Style::plain());
    assert_eq!(line[7].style, fg(Color::DarkGray));
}

#[test]
fn shows_broken_json_and_bare_values_plain() {
    let broken = render_entry(&entry('I', "Api", "{\"a\":"));
    assert_eq!(texts(&broken)[4..], ["{\"a\":"]);
    assert_eq!(broken[4].style, fg(Color::Gray));
    let bare = render_entry(&entry('D', "Api", "12345"));
    assert_eq!(texts(&bare)[4..], ["12345"]);
    assert_eq!(bare[4].style, fg(Color::Cyan));
}

#[test]
fn titles_count_what_they_show() {
    let mut app = viewer();
    assert_eq!(log_title(&app, 10), " Logs [0 | TAILING] ");
    assert_eq!(crash_title(&app), " Crashes/ANRs [0] ");
    assert_eq!(device_title(&app), " Devices [0] ");
    for n in 0..30 {
        app.add_entry(entry(if n % 10 == 0 { 'E' } else { 'I' }, "T", "m"));
    }
    app.refresh_devices(vec!["a".to_string(), "b".to_string()]);
    assert_eq!(log_title(&app, 10), " Logs [30 | TAILING] ");
    assert_eq!(crash_title(&app), " Crashes/ANRs [3] ");
    assert_eq!(device_title(&app), " Devices [2] ");
    app.scroll_up(7);
    assert_eq!(log_title(&app, 10), " Logs [23/30 | PAUSED] ");
    assert_eq!(crash_window(&app, 2), (1, 3));
    assert_eq!(crash_window(&app, 10), (0, 3));
}

#[test]
fn the_device_panel_lists_devices_or_says_there_are_none() {
    let mut app = viewer();
    let none = device_lines(&app);
    assert_eq!(texts(&none), vec!["No devices found"]);
    assert_eq!(none[0].style, fg(Color::Yellow));
    app.refresh_devices(vec!["emulator-5554 device".to_string(), "abc offline".to_string()]);
    let some = device_lines(&app);
    assert_eq!(texts(&some), vec!["emulator-5554 device", "abc offline"]);
    assert_eq!(styles(&some), vec![fg(Color::White), fg(Color::White)]);
}

#[test]
fn the_status_bar_of_an_empty_viewer() {
    let app = viewer();
    let bar = status_segments(&app);
    assert_eq!(texts(&bar), vec![" 0 logs", " \u{2502} TAILING"]);
    assert_eq!(styles(&bar), vec![fg(Color::White), fg(Color::Green)]);
}

#[test]
fn the_status_bar_counts_and_reports() {
    let mut app = viewer();
    for n in 0..12 {
        app.add_entry(entry(['I', 'D', 'E'][n % 3], "T", "m"));
    }
    app.toggle_level(LogLevel::Debug);
    app.scroll_up(2);
    app.set_status("ADB process ended".to_string());
    let bar = status_segments(&app);
    assert_eq!(
        texts(&bar),
        vec![
            " 12 logs",
            " (8 shown)",
            " \u{2502} 4 errors",
            " \u{2502} 4 crashes",
            " \u{2502} PAUSED",
            " \u{2502} ADB process ended",
        ]
    );
    assert_eq!(
        styles(&bar),
        vec![
            fg(Color::White),
            fg(Color::Yellow),
            fg(Color::Red),
            bold(Color::Red),
            bold(Color::Yellow),
            fg(Color::Yellow),
        ]
    );
}

#[test]
fn the_status_padding_is_what_is_left_of_the_width() {
    assert_eq!(STATUS_HINTS, " ?:help /:filter t:tag p:pkg Space:pause ");
    assert_eq!(status_padding(100, 30, 41), 29);
    assert_eq!(status_padding(71, 30, 41), 0);
    assert_eq!(status_padding(70, 30, 41), 0);
    assert_eq!(status_padding(0, 0, 0), 0);
    assert_eq!(status_padding(10, usize::MAX, 5), 0);
    assert_eq!(status_padding(10, 5, usize::MAX), 0);
}

#[test]
fn the_filter_bar_without_filters() {
    let app = viewer();
    let bar = filter_bar_segments(&app);
    assert_eq!(
        texts(&bar),
        vec![
            " No active filters",
            "  \u{2502} ",
            " 1V ",
            " 2D ",
            " 3I ",
            " 4W ",
            " 5E ",
            " 6F ",
        ]
    );
    assert_eq!(bar[0].style, fg(Color::DarkGray));
    assert_eq!(bar[1].style, fg(Color::DarkGray));
    assert_eq!(bar[2].style, Style::fg_on(Color::Black, Color::DarkGray));
    assert_eq!(bar[6].style, Style::fg_on(Color::Black, Color::Red));
    assert_eq!(bar[7].style, Style::fg_on(Color::Black, Color::Magenta));
}

#[test]
fn the_filter_bar_names_the_active_filters() {
    let mut app = viewer();
    app.toggle_level(LogLevel::Verbose);
    app.begin_input(InputMode::Filter);
    for c in "time.ut".chars() {
        app.type_char(c);
    }
    app.submit_filter_input(None);
    app.begin_input(InputMode::Tag);
    for c in "Net".chars() {
        app.type_char(c);
    }
    app.submit_filter_input(None);
    app.begin_input(InputMode::Package);
    for c in "com.example".chars() {
        app.type_char(c);
    }
    app.submit_filter_input(None);
    let waiting = filter_bar_segments(&app);
    assert_eq!(
        texts(&waiting)[..4],
        [" /time.ut/", " tag:Net", " pkg:com.example (resolving...)", "  \u{2502} "]
    );
    assert_eq!(
        styles(&waiting)[..3],
        [fg(Color::Yellow), fg(Color::Cyan), fg(Color::Green)]
    );
    assert_eq!(waiting[4].text, " 1V ");
    assert_eq!(waiting[4].style, fg(Color::DarkGray));
    assert_eq!(waiting[5].style, Style::fg_on(Color::Black, Color::Cyan));
    app.poll_package_pid(Some(4321));
    let found = filter_bar_segments(&app);
    assert_eq!(found[2].text, " pkg:com.example (pid:4321)");
}

#[test]
fn the_filter_bar_shows_what_is_typed() {
    let mut app = viewer();
    for (mode, label, color) in [
        (InputMode::Filter, " /", Color::Yellow),
        (InputMode::Tag, " tag:", Color::Cyan),
        (InputMode::Package, " pkg:", Color::Green),
    ] {
        app.begin_input(mode);
        app.type_char('a');
        app.type_char('b');
        let bar = filter_bar_segments(&app);
        assert_eq!(texts(&bar)[..4], [label, "ab", "\u{2588}", "  \u{2502} "]);
        assert_eq!(styles(&bar)[..3], [fg(color), bold(Color::White), fg(color)]);
        assert_eq!(bar.len(), 10);
        app.cancel_input();
    }
}

#[test]
fn help_lines_by_kind() {
    let heading = help_line_segments("--- Core ---", "");
    assert_eq!(texts(&heading), vec!["--- Core ---"]);
    assert_eq!(heading[0].style, bold(Color::Yellow));
    let blank = help_line_segments("", "");
    assert_eq!(texts(&blank), vec![""]);
    assert_eq!(blank[0].style, Style::plain());
    let note = help_line_segments("", "Press h (or ?) to toggle this panel.");
    assert_eq!(texts(&note), vec!["Press h (or ?) to toggle this panel."]);
    assert_eq!(note[0].style, fg(Color::Gray));
    let binding = help_line_segments("q / Ctrl+C", "Quit");
    assert_eq!(texts(&binding), vec!["q / Ctrl+C      ", "Quit"]);
    assert_eq!(styles(&binding), vec![bold(Color::Cyan), fg(Color::White)]);
    let dashes = help_line_segments("--", "two dashes are a key");
    assert_eq!(texts(&dashes), vec!["--              ", "two dashes are a key"]);
    let wide = help_line_segments("a key that is rather long", "x");
    assert_eq!(texts(&wide), vec!["a key that is rather long", "x"]);
}

#[test]
fn the_help_goes_beside_or_over_the_log() {
    assert!(help_beside(90));
    assert!(help_beside(200));
    assert!(!help_beside(89));
    assert_eq!(overlay_size(120, 50, 28), (56, 32));
    assert_eq!(overlay_size(40, 20, 28), (36, 16));
    assert_eq!(overlay_size(3, 2, 28), (0, 0));
    assert_eq!(overlay_size(60, 36, 28), (56, 32));
    assert_eq!(overlay_size(u16::MAX, u16::MAX, u16::MAX), (56, u16::MAX - 4));
}
