//! What the screen shows for the viewer's state: texts with their styles.
//! Drawing them is left to whoever owns the terminal.

use crate::app::{App, AppView, InputMode};
use crate::json::{
    detect_json, json_pretty, json_spans, opens_json, spans_of, SpanKind, SpanView, StyledSpan,
};
use crate::parser::{EntryView, LogEntry, LogLevel};
use crate::text::{chars_of, decimal_digits, decimal_text, join_text, trim_start};
use crate::viewport::visible_range;
use vstd::prelude::*;
use vstd::string::{StrSliceExecFns, StringExecFns};

verus! {

/// The colours the viewer uses.
#[derive(Debug, Clone, Copy, PartialEq, Eq, Structural)]
pub enum Color {
    Black,
    White,
    Gray,
    DarkGray,
    Red,
    Green,
    Yellow,
    Blue,
    Magenta,
    Cyan,
}

/// How a text is drawn: its colour, its background and its weight. `None`
/// leaves a colour to the surroundings.
#[derive(Debug, Clone, Copy, PartialEq, Eq)]
pub struct Style {
    pub fg: Option<Color>,
    pub bg: Option<Color>,
    pub bold: bool,
}

/// A text with its style.
#[derive(Debug)]
pub struct Segment {
    pub text: String,
    pub style: Style,
}

/// What a segment holds, as mathematical values.
pub struct SegmentView {
    pub text: Seq<char>,
    pub style: Style,
}

impl View for Segment {
    type V = SegmentView;

    open spec fn view(&self) -> SegmentView {
        SegmentView { text: self.text@, style: self.style }
    }
}

impl DeepView for Segment {
    type V = SegmentView;

    open spec fn deep_view(&self) -> SegmentView {
        self@
    }
}

impl Style {
    /// No colour of its own, regular weight.
    pub open spec fn plain_spec() -> Style {
        Style { fg: None, bg: None, bold: false }
    }

    /// The given colour, regular weight.
    pub open spec fn colored(color: Color) -> Style {
        Style { fg: Some(color), bg: None, bold: false }
    }

    /// The given colour, bold.
    pub open spec fn strong(color: Color) -> Style {
        Style { fg: Some(color), bg: None, bold: true }
    }

    /// The given colour on the given background.
    pub open spec fn on(color: Color, background: Color) -> Style {
        Style { fg: Some(color), bg: Some(background), bold: false }
    }

    /// No colour of its own, regular weight.
    pub fn plain() -> (style: Style)
        ensures
            style == Style::plain_spec(),
    {
        Style { fg: None, bg: None, bold: false }
    }

    /// The given colour, regular weight.
    pub fn fg(color: Color) -> (style: Style)
        ensures
            style == Style::colored(color),
    {
        Style { fg: Some(color), bg: None, bold: false }
    }

    /// The given colour, bold.
    pub fn bold_fg(color: Color) -> (style: Style)
        ensures
            style == Style::strong(color),
    {
        Style { fg: Some(color), bg: None, bold: true }
    }

    /// The given colour on the given background.
    pub fn fg_on(color: Color, background: Color) -> (style: Style)
        ensures
            style == Style::on(color, background),
    {
        Style { fg: Some(color), bg: Some(background), bold: false }
    }
}

/// The colour that stands for a level.
pub open spec fn color_of_level(level: LogLevel) -> Color {
    match level {
        LogLevel::Verbose => Color::DarkGray,
        LogLevel::Debug => Color::Cyan,
        LogLevel::Info => Color::Gray,
        LogLevel::Warn => Color::Yellow,
        LogLevel::Error => Color::Red,
        LogLevel::Fatal => Color::Magenta,
    }
}

/// The style of a level's letter: the level's colour, bold for `Error` and
/// `Fatal`.
pub open spec fn style_of_level(level: LogLevel) -> Style {
    Style { fg: Some(color_of_level(level)), bg: None, bold: level.is_severe() }
}

/// The style of a run of a JSON text. A run of whitespace has no style of
/// its own.
pub open spec fn style_of_span(kind: SpanKind) -> Style {
    match kind {
        SpanKind::Bracket => Style::colored(Color::White),
        SpanKind::Separator => Style::colored(Color::DarkGray),
        SpanKind::Key => Style::colored(Color::Cyan),
        SpanKind::Text => Style::colored(Color::Green),
        SpanKind::Number => Style::colored(Color::Yellow),
        SpanKind::Keyword => Style::colored(Color::Magenta),
        SpanKind::Space => Style::plain_spec(),
        SpanKind::Other => Style::colored(Color::Gray),
    }
}

/// The colour that stands for a level.
pub fn level_color(level: LogLevel) -> (color: Color)
    ensures
        color == color_of_level(level),
{
    match level {
        LogLevel::Verbose => Color::DarkGray,
        LogLevel::Debug => Color::Cyan,
        LogLevel::Info => Color::Gray,
        LogLevel::Warn => Color::Yellow,
        LogLevel::Error => Color::Red,
        LogLevel::Fatal => Color::Magenta,
    }
}

/// The style of a level's letter.
pub fn level_style(level: LogLevel) -> (style: Style)
    ensures
        style == style_of_level(level),
{
    Style { fg: Some(level_color(level)), bg: None, bold: level.at_least(LogLevel::Error) }
}

/// The style of a run of a JSON text.
pub fn span_style(kind: SpanKind) -> (style: Style)
    ensures
        style == style_of_span(kind),
{
    match kind {
        SpanKind::Bracket => Style::fg(Color::White),
        SpanKind::Separator => Style::fg(Color::DarkGray),
        SpanKind::Key => Style::fg(Color::Cyan),
        SpanKind::Text => Style::fg(Color::Green),
        SpanKind::Number => Style::fg(Color::Yellow),
        SpanKind::Keyword => Style::fg(Color::Magenta),
        SpanKind::Space => Style::plain(),
        SpanKind::Other => Style::fg(Color::Gray),
    }
}

/// `count` spaces.
pub open spec fn spaces(count: int) -> Seq<char> {
    Seq::new(
        if count > 0 {
            count as nat
        } else {
            0
        },
        |i: int| ' ',
    )
}

/// `text` with spaces in front to make it `width` characters long; a text
/// that is as long or longer stays as it is.
pub open spec fn pad_left(text: Seq<char>, width: int) -> Seq<char> {
    spaces(width - text.len()) + text
}

/// `text` with spaces behind to make it `width` characters long; a text
/// that is as long or longer stays as it is.
pub open spec fn pad_right(text: Seq<char>, width: int) -> Seq<char> {
    text + spaces(width - text.len())
}

/// A text of `count` spaces.
pub fn blank_text(count: usize) -> (r: String)
    ensures
        r@ == spaces(count as int),
{
    proof {
        reveal_strlit(" ");
    }
    let mut r = String::new();
    let mut i: usize = 0;
    while i < count
        invariant
            i <= count,
            r@ == spaces(i as int),
            " "@ == seq![' '],
        decreases count - i,
    {
        r = r.concat(" ");
        i += 1;
    }
    r
}

/// `text`, right-aligned in `width` characters.
pub fn padded_left(text: &str, width: usize) -> (r: String)
    ensures
        r@ == pad_left(text@, width as int),
{
    let len = text.unicode_len();
    let fill: usize = if len < width {
        width - len
    } else {
        0
    };
    let r = blank_text(fill).concat(text);
    r
}

/// `text`, left-aligned in `width` characters.
pub fn padded_right(text: &str, width: usize) -> (r: String)
    ensures
        r@ == pad_right(text@, width as int),
{
    let len = text.unicode_len();
    let fill: usize = if len < width {
        width - len
    } else {
        0
    };
    let r = join_text(text, blank_text(fill).as_str());
    r
}

/// The segment for one run of a JSON text.
pub open spec fn segment_of_span(span: SpanView) -> SegmentView {
    SegmentView { text: span.text, style: style_of_span(span.kind) }
}

/// The segments for the runs of a JSON text.
pub open spec fn segments_of_spans(spans: Seq<SpanView>) -> Seq<SegmentView> {
    Seq::new(spans.len(), |i: int| segment_of_span(spans[i]))
}

/// What stands in front of an entry's message: the timestamp, the process
/// and thread ids right-aligned in five columns each, the level's letter in
/// the level's style, and the tag with a colon.
pub open spec fn entry_head(entry: EntryView) -> Seq<SegmentView> {
    seq![
        SegmentView { text: entry.timestamp + " "@, style: Style::colored(Color::DarkGray) },
        SegmentView {
            text: pad_left(decimal_digits(entry.pid as nat), 5) + " "@ + pad_left(
                decimal_digits(entry.tid as nat),
                5,
            ) + " "@,
            style: Style::colored(Color::DarkGray),
        },
        SegmentView { text: seq![entry.level.letter()] + " "@, style: style_of_level(entry.level) },
        SegmentView { text: entry.tag + ": "@, style: Style::colored(Color::DarkGray) },
    ]
}

/// How an entry's message is shown, given the indented form of its JSON
/// payload if it has one: a message that opens like JSON and is JSON is
/// shown as the highlighted runs of the indented form, any other message
/// plain, in the level's colour.
pub open spec fn entry_body(entry: EntryView, pretty: Option<Seq<char>>) -> Seq<SegmentView> {
    if opens_json(entry.message) && pretty is Some {
        segments_of_spans(spans_of(pretty->0))
    } else {
        seq![
            SegmentView {
                text: entry.message,
                style: Style::colored(color_of_level(entry.level)),
            },
        ]
    }
}

/// The line that shows an entry.
pub open spec fn entry_line(entry: EntryView) -> Seq<SegmentView> {
    entry_head(entry) + entry_body(entry, json_pretty(trim_start(entry.message)))
}

/// The segments for the runs of a JSON text.
pub fn span_segments(spans: Vec<StyledSpan>) -> (segments: Vec<Segment>)
    ensures
        segments.deep_view() == segments_of_spans(spans.deep_view()),
{
    let ghost all = spans.deep_view();
    let mut segments: Vec<Segment> = Vec::new();
    let count = spans.len();
    let mut i: usize = 0;
    while i < count
        invariant
            i <= count == spans.len(),
            all == spans.deep_view(),
            segments@.len() == i,
            forall|j: int| 0 <= j < i ==> (#[trigger] segments@[j])@ == segment_of_span(all[j]),
        decreases count - i,
    {
        let span = &spans[i];
        segments.push(Segment { text: span.text.clone(), style: span_style(span.kind) });
        i += 1;
    }
    segments
}

/// The segments in front of an entry's message.
pub fn head_segments(entry: &LogEntry) -> (segments: Vec<Segment>)
    ensures
        segments.deep_view() == entry_head(entry@),
{
    let dim = Style::fg(Color::DarkGray);
    let pid = padded_left(decimal_text(entry.pid as u64).as_str(), 5);
    let tid = padded_left(decimal_text(entry.tid as u64).as_str(), 5);
    let ids = pid.concat(" ").concat(tid.as_str()).concat(" ");
    let mut segments: Vec<Segment> = Vec::new();
    segments.push(Segment { text: join_text(entry.timestamp.as_str(), " "), style: dim });
    segments.push(Segment { text: ids, style: dim });
    segments.push(
        Segment {
            text: entry.level.to_text().concat(" "),
            style: level_style(entry.level),
        },
    );
    segments.push(Segment { text: join_text(entry.tag.as_str(), ": "), style: dim });
    segments
}

/// The segments that show an entry's message, given the highlighted runs of
/// its JSON payload if it has one.
pub fn body_segments(entry: &LogEntry, highlighted: Option<Vec<StyledSpan>>) -> (segments: Vec<
    Segment,
>)
    ensures
        segments.deep_view() == if opens_json(entry@.message) && highlighted is Some {
            segments_of_spans(highlighted->0.deep_view())
        } else {
            seq![
                SegmentView {
                    text: entry@.message,
                    style: Style::colored(color_of_level(entry@.level)),
                },
            ]
        },
{
    if detect_json(entry.message.as_str()) {
        if let Some(spans) = highlighted {
            return span_segments(spans);
        }
    }
    let mut segments: Vec<Segment> = Vec::new();
    segments.push(
        Segment { text: entry.message.clone(), style: Style::fg(level_color(entry.level)) },
    );
    assert(segments.deep_view() =~= seq![
        SegmentView { text: entry@.message, style: Style::colored(color_of_level(entry@.level)) },
    ]);
    segments
}

/// The line that shows an entry: timestamp, ids, level and tag, then the
/// message, highlighted as JSON if it is JSON.
pub fn render_entry(entry: &LogEntry) -> (segments: Vec<Segment>)
    ensures
        segments.deep_view() == entry_line(entry@),
{
    let mut segments = head_segments(entry);
    let highlighted = if detect_json(entry.message.as_str()) {
        json_spans(entry.message.as_str())
    } else {
        None
    };
    let mut body = body_segments(entry, highlighted);
    segments.append(&mut body);
    segments
}

/// The level with the given position in the severity order; `Fatal` for a
/// position past the last.
pub open spec fn level_at(rank: int) -> LogLevel {
    if rank == 0 {
        LogLevel::Verbose
    } else if rank == 1 {
        LogLevel::Debug
    } else if rank == 2 {
        LogLevel::Info
    } else if rank == 3 {
        LogLevel::Warn
    } else if rank == 4 {
        LogLevel::Error
    } else {
        LogLevel::Fatal
    }
}

/// The level with the given position in the severity order.
pub fn level_of_rank(rank: usize) -> (level: LogLevel)
    ensures
        level == level_at(rank as int),
        rank < 6 ==> level.rank() == rank,
{
    match rank {
        0 => LogLevel::Verbose,
        1 => LogLevel::Debug,
        2 => LogLevel::Info,
        3 => LogLevel::Warn,
        4 => LogLevel::Error,
        _ => LogLevel::Fatal,
    }
}

/// `n` in decimal between `before` and `after`.
pub open spec fn framed_number(before: Seq<char>, n: nat, after: Seq<char>) -> Seq<char> {
    before + decimal_digits(n) + after
}

/// `n` in decimal between `before` and `after`.
pub fn frame_number(before: &str, n: usize, after: &str) -> (r: String)
    ensures
        r@ == framed_number(before@, n as nat, after@),
{
    join_text(before, decimal_text(n as u64).as_str()).concat(after)
}

/// The title of the log view: the number of entries on show and whether
/// the view tails, or, for a paused view of `height` lines, the position
/// it ends at among them.
pub open spec fn log_title_text(state: AppView, height: int) -> Seq<char> {
    let total = state.shown.len();
    if state.offset > 0 {
        framed_number(
            " Logs ["@,
            visible_range(state.offset as int, total as int, height).1 as nat,
            "/"@,
        ) + decimal_digits(total) + " | PAUSED] "@
    } else {
        framed_number(" Logs ["@, total, " | TAILING] "@)
    }
}

/// The title of the log view for a view of `height` lines.
pub fn log_title(app: &App, height: usize) -> (title: String)
    ensures
        title@ == log_title_text(app@, height as int),
{
    broadcast use vstd::std_specs::vecdeque::axiom_spec_len;

    let total = app.filtered_indices().len();
    if app.scroll_offset() > 0 {
        let (_, end) = app.visible_window(height);
        frame_number(" Logs [", end, "/").concat(decimal_text(total as u64).as_str()).concat(
            " | PAUSED] ",
        )
    } else {
        frame_number(" Logs [", total, " | TAILING] ")
    }
}

/// The title of the crash panel, with the number of crash reports.
pub fn crash_title(app: &App) -> (title: String)
    ensures
        title@ == framed_number(" Crashes/ANRs ["@, app@.crashes.len(), "] "@),
{
    broadcast use vstd::std_specs::vecdeque::axiom_spec_len;

    frame_number(" Crashes/ANRs [", app.crash_indices().len(), "] ")
}

/// The title of the device panel, with the number of devices.
pub fn device_title(app: &App) -> (title: String)
    ensures
        title@ == framed_number(" Devices ["@, app@.device_list.len(), "] "@),
{
    frame_number(" Devices [", app.device_list().len(), "] ")
}

/// The part of the crash index that a panel of `height` lines shows: the
/// newest crash reports. The result is the first position and the position
/// after the last.
pub fn crash_window(app: &App, height: usize) -> (range: (usize, usize))
    ensures
        (range.0 as int, range.1 as int) == visible_range(
            0,
            app@.crashes.len() as int,
            height as int,
        ),
        range.0 <= range.1 == app@.crashes.len(),
{
    broadcast use vstd::std_specs::vecdeque::axiom_spec_len;

    let total = app.crash_indices().len();
    (total.saturating_sub(height), total)
}

/// The lines of the device panel: one per device, or a notice that there
/// is none.
pub open spec fn device_panel(devices: Seq<Seq<char>>) -> Seq<SegmentView> {
    if devices.len() == 0 {
        seq![SegmentView { text: "No devices found"@, style: Style::colored(Color::Yellow) }]
    } else {
        Seq::new(
            devices.len(),
            |i: int| SegmentView { text: devices[i], style: Style::colored(Color::White) },
        )
    }
}

/// The lines of the device panel.
pub fn device_lines(app: &App) -> (lines: Vec<Segment>)
    ensures
        lines.deep_view() == device_panel(app@.device_list),
{
    let devices = app.device_list();
    let mut lines: Vec<Segment> = Vec::new();
    if devices.len() == 0 {
        lines.push(Segment { text: "No devices found".to_owned(), style: Style::fg(Color::Yellow) });
        return lines;
    }
    let count = devices.len();
    let mut i: usize = 0;
    while i < count
        invariant
            i <= count == devices.len(),
            devices.deep_view() == app@.device_list,
            lines@.len() == i,
            forall|j: int|
                0 <= j < i ==> (#[trigger] lines@[j])@ == (SegmentView {
                    text: app@.device_list[j],
                    style: Style::colored(Color::White),
                }),
        decreases count - i,
    {
        lines.push(Segment { text: devices[i].clone(), style: Style::fg(Color::White) });
        i += 1;
    }
    lines
}

/// The status bar without its key hints: the number of live entries; the
/// number on show, if it differs; the numbers of errors and of crash
/// reports, if there are any; whether the view tails or is paused; and the
/// status text, if there is one.
pub open spec fn status_bar(state: AppView) -> Seq<SegmentView> {
    let total = state.store.live.len();
    let s0 = seq![
        SegmentView {
            text: framed_number(" "@, total, " logs"@),
            style: Style::colored(Color::White),
        },
    ];
    let s1 = if state.shown.len() != total {
        s0.push(
            SegmentView {
                text: framed_number(" ("@, state.shown.len(), " shown)"@),
                style: Style::colored(Color::Yellow),
            },
        )
    } else {
        s0
    };
    let s2 = if state.errors > 0 {
        s1.push(
            SegmentView {
                text: framed_number(" \u{2502} "@, state.errors as nat, " errors"@),
                style: Style::colored(Color::Red),
            },
        )
    } else {
        s1
    };
    let s3 = if state.crashes.len() > 0 {
        s2.push(
            SegmentView {
                text: framed_number(" \u{2502} "@, state.crashes.len(), " crashes"@),
                style: Style::strong(Color::Red),
            },
        )
    } else {
        s2
    };
    let s4 = s3.push(
        if state.offset > 0 {
            SegmentView { text: " \u{2502} PAUSED"@, style: Style::strong(Color::Yellow) }
        } else {
            SegmentView { text: " \u{2502} TAILING"@, style: Style::colored(Color::Green) }
        },
    );
    match state.status_message {
        Some(message) => s4.push(
            SegmentView { text: " \u{2502} "@ + message, style: Style::colored(Color::Yellow) },
        ),
        None => s4,
    }
}

/// The segments of the status bar, without its key hints.
pub fn status_segments(app: &App) -> (segments: Vec<Segment>)
    ensures
        segments.deep_view() == status_bar(app@),
{
    broadcast use vstd::std_specs::vecdeque::axiom_spec_len;

    let total = app.store().len();
    let shown = app.filtered_indices().len();
    let errors = app.stats().errors;
    let crashes = app.crash_indices().len();
    let mut segments: Vec<Segment> = Vec::new();
    segments.push(
        Segment { text: frame_number(" ", total, " logs"), style: Style::fg(Color::White) },
    );
    if shown != total {
        segments.push(
            Segment { text: frame_number(" (", shown, " shown)"), style: Style::fg(Color::Yellow) },
        );
    }
    if errors > 0 {
        segments.push(
            Segment {
                text: frame_number(" \u{2502} ", errors, " errors"),
                style: Style::fg(Color::Red),
            },
        );
    }
    if crashes > 0 {
        segments.push(
            Segment {
                text: frame_number(" \u{2502} ", crashes, " crashes"),
                style: Style::bold_fg(Color::Red),
            },
        );
    }
    if app.scroll_offset() > 0 {
        segments.push(
            Segment { text: " \u{2502} PAUSED".to_owned(), style: Style::bold_fg(Color::Yellow) },
        );
    } else {
        segments.push(
            Segment { text: " \u{2502} TAILING".to_owned(), style: Style::fg(Color::Green) },
        );
    }
    if let Some(message) = app.status_message() {
        segments.push(
            Segment {
                text: join_text(" \u{2502} ", message.as_str()),
                style: Style::fg(Color::Yellow),
            },
        );
    }
    segments
}

/// The key hints at the right end of the status bar.
pub const STATUS_HINTS: &'static str = " ?:help /:filter t:tag p:pkg Space:pause ";

/// The number of blank columns between the status segments and the key
/// hints in a bar of `width` columns, given the room that the segments and
/// the hints take: what is left of the width, or 0.
pub fn status_padding(width: u16, used: usize, hints: usize) -> (padding: usize)
    ensures
        padding == if used + hints <= width {
            width - used - hints
        } else {
            0
        },
{
    let width: usize = width as usize;
    if used <= width && hints <= width - used {
        width - used - hints
    } else {
        0
    }
}

/// What the filter bar shows in front of the typed text in an input mode.
pub open spec fn prompt_text(mode: InputMode) -> Seq<char> {
    match mode {
        InputMode::Filter => " /"@,
        InputMode::Tag => " tag:"@,
        InputMode::Package => " pkg:"@,
        InputMode::Normal => Seq::empty(),
    }
}

/// The colour of an input mode in the filter bar.
pub open spec fn prompt_color(mode: InputMode) -> Color {
    match mode {
        InputMode::Filter => Color::Yellow,
        InputMode::Tag => Color::Cyan,
        InputMode::Package => Color::Green,
        InputMode::Normal => Color::DarkGray,
    }
}

/// The filter bar while a filter is typed: the prompt of the input mode,
/// the text typed so far, and a cursor block.
pub open spec fn input_prompt(state: AppView) -> Seq<SegmentView> {
    seq![
        SegmentView {
            text: prompt_text(state.input_mode),
            style: Style::colored(prompt_color(state.input_mode)),
        },
        SegmentView { text: state.filter_input, style: Style::strong(Color::White) },
        SegmentView {
            text: "\u{2588}"@,
            style: Style::colored(prompt_color(state.input_mode)),
        },
    ]
}

/// What the filter bar says of the process of the filtered package: its
/// id, or that it is being looked up.
pub open spec fn pid_note(pid: Option<u32>) -> Seq<char> {
    match pid {
        Some(pid) => framed_number(" (pid:"@, pid as nat, ")"@),
        None => " (resolving...)"@,
    }
}

/// The filter bar while keys are commands: the active pattern, tag and
/// package filters, or a notice that none is active.
pub open spec fn filter_summary(state: AppView) -> Seq<SegmentView> {
    let s0 = Seq::<SegmentView>::empty();
    let s1 = match state.filters.pattern {
        Some(source) => s0.push(
            SegmentView { text: " /"@ + source + "/"@, style: Style::colored(Color::Yellow) },
        ),
        None => s0,
    };
    let s2 = match state.filters.tag {
        Some(tag) => s1.push(
            SegmentView { text: " tag:"@ + tag, style: Style::colored(Color::Cyan) },
        ),
        None => s1,
    };
    let s3 = match state.package_filter {
        Some(package) => s2.push(
            SegmentView {
                text: " pkg:"@ + package + pid_note(state.filters.pid),
                style: Style::colored(Color::Green),
            },
        ),
        None => s2,
    };
    if s3.len() == 0 {
        seq![SegmentView { text: " No active filters"@, style: Style::colored(Color::DarkGray) }]
    } else {
        s3
    }
}

/// The switch of the level at `rank` in the filter bar: the key that flips
/// it and the level's letter, on the level's colour if the level is on
/// show and dimmed if not.
pub open spec fn level_switch(rank: int, on: bool) -> SegmentView {
    SegmentView {
        text: " "@ + decimal_digits((rank + 1) as nat) + seq![level_at(rank).letter()] + " "@,
        style: if on {
            Style::on(Color::Black, color_of_level(level_at(rank)))
        } else {
            Style::colored(Color::DarkGray)
        },
    }
}

/// The six level switches, in severity order.
pub open spec fn level_switches(levels: Seq<bool>) -> Seq<SegmentView> {
    Seq::new(6, |rank: int| level_switch(rank, levels[rank]))
}

/// The filter bar: the prompt while a filter is typed or else the active
/// filters, a separator, and the level switches.
pub open spec fn filter_bar(state: AppView) -> Seq<SegmentView> {
    (if state.input_mode == InputMode::Normal {
        filter_summary(state)
    } else {
        input_prompt(state)
    }) + seq![SegmentView { text: "  \u{2502} "@, style: Style::colored(Color::DarkGray) }]
        + level_switches(state.filters.levels)
}

fn prompt_segments(app: &App) -> (segments: Vec<Segment>)
    requires
        app@.input_mode != InputMode::Normal,
    ensures
        segments.deep_view() == input_prompt(app@),
{
    let (label, color) = match app.input_mode() {
        InputMode::Filter => (" /", Color::Yellow),
        InputMode::Tag => (" tag:", Color::Cyan),
        _ => (" pkg:", Color::Green),
    };
    let mut segments: Vec<Segment> = Vec::new();
    segments.push(Segment { text: label.to_owned(), style: Style::fg(color) });
    segments.push(
        Segment { text: app.filter_input().to_owned(), style: Style::bold_fg(Color::White) },
    );
    segments.push(Segment { text: "\u{2588}".to_owned(), style: Style::fg(color) });
    segments
}

fn summary_segments(app: &App) -> (segments: Vec<Segment>)
    ensures
        segments.deep_view() == filter_summary(app@),
{
    let filters = app.filters();
    let mut segments: Vec<Segment> = Vec::new();
    if let Some(pattern) = &filters.regex_filter {
        segments.push(
            Segment {
                text: join_text(" /", pattern.as_str()).concat("/"),
                style: Style::fg(Color::Yellow),
            },
        );
    }
    if let Some(tag) = &filters.tag_filter {
        segments.push(
            Segment { text: join_text(" tag:", tag.as_str()), style: Style::fg(Color::Cyan) },
        );
    }
    if let Some(package) = app.package_filter() {
        let note = match filters.pid_filter {
            Some(pid) => join_text(" (pid:", decimal_text(pid as u64).as_str()).concat(")"),
            None => " (resolving...)".to_owned(),
        };
        segments.push(
            Segment {
                text: join_text(" pkg:", package.as_str()).concat(note.as_str()),
                style: Style::fg(Color::Green),
            },
        );
    }
    if segments.len() == 0 {
        segments.push(
            Segment { text: " No active filters".to_owned(), style: Style::fg(Color::DarkGray) },
        );
    }
    segments
}

fn switch_segment(rank: usize, on: bool) -> (segment: Segment)
    requires
        rank < 6,
    ensures
        segment@ == level_switch(rank as int, on),
{
    let level = level_of_rank(rank);
    let text = frame_number(" ", rank + 1, "").concat(level.to_text().as_str()).concat(" ");
    assert(text@ =~= " "@ + decimal_digits((rank + 1) as nat) + seq![level.letter()] + " "@) by {
        reveal_strlit("");
    }
    let style = if on {
        Style::fg_on(Color::Black, level_color(level))
    } else {
        Style::fg(Color::DarkGray)
    };
    Segment { text, style }
}

/// The segments of the filter bar.
pub fn filter_bar_segments(app: &App) -> (segments: Vec<Segment>)
    ensures
        segments.deep_view() == filter_bar(app@),
{
    let mut segments = match app.input_mode() {
        InputMode::Normal => summary_segments(app),
        _ => prompt_segments(app),
    };
    let ghost front = segments.deep_view();
    let ghost bar = SegmentView { text: "  \u{2502} "@, style: Style::colored(Color::DarkGray) };
    segments.push(Segment { text: "  \u{2502} ".to_owned(), style: Style::fg(Color::DarkGray) });
    let levels = &app.filters().level_toggles;
    let ghost switches = level_switches(app@.filters.levels);
    let mut rank: usize = 0;
    while rank < 6
        invariant
            rank <= 6,
            levels@ == app@.filters.levels,
            levels@.len() == 6,
            switches == level_switches(app@.filters.levels),
            segments.deep_view() == front + seq![bar] + switches.take(rank as int),
        decreases 6 - rank,
    {
        let ghost before = segments.deep_view();
        let segment = switch_segment(rank, levels[rank]);
        segments.push(segment);
        assert(segments.deep_view() =~= before.push(switches[rank as int]));
        rank += 1;
    }
    segments
}

/// How a line of the help is drawn, given its key and what the key does.
pub enum HelpLine {
    /// A heading: the key text opens with three dashes.
    Heading,
    /// An empty line: no key and no description.
    Blank,
    /// A remark: a description without a key.
    Note,
    /// A key with its description.
    Binding,
}

/// Whether `text` opens with three dashes.
pub open spec fn is_heading(text: Seq<char>) -> bool {
    text.len() >= 3 && text[0] == '-' && text[1] == '-' && text[2] == '-'
}

/// The kind of the help line with the given key and description.
pub open spec fn help_kind(key: Seq<char>, description: Seq<char>) -> HelpLine {
    if is_heading(key) {
        HelpLine::Heading
    } else if key.len() == 0 && description.len() == 0 {
        HelpLine::Blank
    } else if key.len() == 0 {
        HelpLine::Note
    } else {
        HelpLine::Binding
    }
}

/// The columns that a key takes in a line of the help.
pub const HELP_KEY_WIDTH: usize = 16;

/// A line of the help: a heading in bold, an empty line, a remark, or a
/// key, left-aligned in its columns, with its description.
pub open spec fn help_line(key: Seq<char>, description: Seq<char>) -> Seq<SegmentView> {
    match help_kind(key, description) {
        HelpLine::Heading => seq![SegmentView { text: key, style: Style::strong(Color::Yellow) }],
        HelpLine::Blank => seq![SegmentView { text: Seq::empty(), style: Style::plain_spec() }],
        HelpLine::Note => seq![
            SegmentView { text: description, style: Style::colored(Color::Gray) },
        ],
        HelpLine::Binding => seq![
            SegmentView {
                text: pad_right(key, HELP_KEY_WIDTH as int),
                style: Style::strong(Color::Cyan),
            },
            SegmentView { text: description, style: Style::colored(Color::White) },
        ],
    }
}

/// The segments of the help line with the given key and description.
pub fn help_line_segments(key: &str, description: &str) -> (segments: Vec<Segment>)
    ensures
        segments.deep_view() == help_line(key@, description@),
{
    let k = chars_of(key);
    let mut segments: Vec<Segment> = Vec::new();
    if k.len() >= 3 && k[0] == '-' && k[1] == '-' && k[2] == '-' {
        segments.push(Segment { text: key.to_owned(), style: Style::bold_fg(Color::Yellow) });
    } else if k.len() == 0 && description.is_empty() {
        segments.push(Segment { text: String::new(), style: Style::plain() });
    } else if k.len() == 0 {
        segments.push(Segment { text: description.to_owned(), style: Style::fg(Color::Gray) });
    } else {
        segments.push(
            Segment { text: padded_right(key, HELP_KEY_WIDTH), style: Style::bold_fg(Color::Cyan) },
        );
        segments.push(Segment { text: description.to_owned(), style: Style::fg(Color::White) });
    }
    segments
}

/// The least width of the content area at which the help stands beside the
/// log view; in a narrower area it lies over it.
pub const HELP_SIDEBAR_MIN_WIDTH: u16 = 90;

/// The width of the help when it lies over the log view, if the area
/// allows it.
pub const HELP_OVERLAY_WIDTH: u16 = 56;

/// Whether the help stands beside the log view in a content area of
/// `width` columns.
pub fn help_beside(width: u16) -> (r: bool)
    ensures
        r == (width >= HELP_SIDEBAR_MIN_WIDTH),
{
    width >= HELP_SIDEBAR_MIN_WIDTH
}

/// The size of the help when it lies over an area of the given size and
/// has `lines` lines: the overlay width and the lines with a margin of
/// four, each cut down to the area less four.
pub fn overlay_size(area_width: u16, area_height: u16, lines: u16) -> (size: (u16, u16))
    ensures
        size.0 as int == vstd::math::min(
            HELP_OVERLAY_WIDTH as int,
            vstd::math::max(area_width - 4, 0),
        ),
        size.1 as int == vstd::math::min(
            vstd::math::min(lines + 4, u16::MAX as int),
            vstd::math::max(area_height - 4, 0),
        ),
{
    let room_wide = area_width.saturating_sub(4);
    let room_high = area_height.saturating_sub(4);
    let wanted = lines.saturating_add(4);
    (
        if HELP_OVERLAY_WIDTH < room_wide {
            HELP_OVERLAY_WIDTH
        } else {
            room_wide
        },
        if wanted < room_high {
            wanted
        } else {
            room_high
        },
    )
}

} // verus!
