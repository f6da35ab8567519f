//! Log levels, log entries and the line grammar.

use crate::text::{
    chars_of, decimal_digits, decimal_value, find_char, find_char_from, is_digit, is_digit_char,
    is_space, is_space_char, lemma_decimal_round_trip, lemma_decimal_value_moved,
    lemma_find_char_bounds, lemma_find_char_first, lemma_skip_digits_bounds,
    lemma_skip_digits_run, lemma_skip_spaces_bounds, lemma_skip_spaces_run,
    lemma_skip_spaces_slice, lemma_trim_end_bounds, lemma_trim_end_slice, read_decimal,
    skip_digits, skip_digits_from, skip_spaces, skip_spaces_from, slice_text, trim, trim_end_from,
    trim_end_index,
};
use vstd::prelude::*;

verus! {

/// Severity of a log entry. The six levels are totally ordered:
/// `Verbose < Debug < Info < Warn < Error < Fatal`.
#[derive(Debug, Clone, Copy, PartialEq, Eq, PartialOrd, Ord, Structural)]
pub enum LogLevel {
    Verbose,
    Debug,
    Info,
    Warn,
    Error,
    Fatal,
}

impl LogLevel {
    /// Position of the level in the severity order, `0` for `Verbose` up to
    /// `5` for `Fatal`.
    pub open spec fn rank(self) -> nat {
        match self {
            LogLevel::Verbose => 0,
            LogLevel::Debug => 1,
            LogLevel::Info => 2,
            LogLevel::Warn => 3,
            LogLevel::Error => 4,
            LogLevel::Fatal => 5,
        }
    }

    /// The level a level character stands for, if any.
    pub open spec fn of_char(c: char) -> Option<LogLevel> {
        if c == 'V' {
            Some(LogLevel::Verbose)
        } else if c == 'D' {
            Some(LogLevel::Debug)
        } else if c == 'I' {
            Some(LogLevel::Info)
        } else if c == 'W' {
            Some(LogLevel::Warn)
        } else if c == 'E' {
            Some(LogLevel::Error)
        } else if c == 'F' {
            Some(LogLevel::Fatal)
        } else {
            None
        }
    }

    /// The character that stands for a level in a log line.
    pub open spec fn letter(self) -> char {
        match self {
            LogLevel::Verbose => 'V',
            LogLevel::Debug => 'D',
            LogLevel::Info => 'I',
            LogLevel::Warn => 'W',
            LogLevel::Error => 'E',
            LogLevel::Fatal => 'F',
        }
    }

    /// Whether the level is `Error` or `Fatal`.
    pub open spec fn is_severe(self) -> bool {
        self.rank() >= LogLevel::Error.rank()
    }

    /// The level that the level character `c` stands for, if any.
    pub fn from_char(c: char) -> (level: Option<LogLevel>)
        ensures
            level == LogLevel::of_char(c),
    {
        match c {
            'V' => Some(LogLevel::Verbose),
            'D' => Some(LogLevel::Debug),
            'I' => Some(LogLevel::Info),
            'W' => Some(LogLevel::Warn),
            'E' => Some(LogLevel::Error),
            'F' => Some(LogLevel::Fatal),
            _ => None,
        }
    }

    /// The character that stands for the level in a log line.
    pub fn as_char(self) -> (c: char)
        ensures
            c == self.letter(),
    {
        match self {
            LogLevel::Verbose => 'V',
            LogLevel::Debug => 'D',
            LogLevel::Info => 'I',
            LogLevel::Warn => 'W',
            LogLevel::Error => 'E',
            LogLevel::Fatal => 'F',
        }
    }

    /// The position of the level in the severity order, from 0 for
    /// `Verbose` to 5 for `Fatal`.
    pub fn index(self) -> (i: usize)
        ensures
            i == self.rank(),
            i < 6,
    {
        match self {
            LogLevel::Verbose => 0,
            LogLevel::Debug => 1,
            LogLevel::Info => 2,
            LogLevel::Warn => 3,
            LogLevel::Error => 4,
            LogLevel::Fatal => 5,
        }
    }

    /// Whether `self` is at least as severe as `other`.
    pub fn at_least(self, other: LogLevel) -> (r: bool)
        ensures
            r == (self.rank() >= other.rank()),
    {
        self.index() >= other.index()
    }

    /// The level's letter as a text of one character.
    pub fn to_text(self) -> (text: String)
        ensures
            text@ == seq![self.letter()],
    {
        proof {
            reveal_strlit("V");
            reveal_strlit("D");
            reveal_strlit("I");
            reveal_strlit("W");
            reveal_strlit("E");
            reveal_strlit("F");
        }
        let letter = match self {
            LogLevel::Verbose => "V",
            LogLevel::Debug => "D",
            LogLevel::Info => "I",
            LogLevel::Warn => "W",
            LogLevel::Error => "E",
            LogLevel::Fatal => "F",
        };
        letter.to_owned()
    }

    /// A level's letter stands for that level and no other.
    pub proof fn lemma_letter_round_trip(level: LogLevel)
        ensures
            LogLevel::of_char(level.letter()) == Some(level),
    {
    }

    /// A character that stands for a level is that level's letter.
    pub proof fn lemma_of_char_letter(c: char)
        requires
            LogLevel::of_char(c) is Some,
        ensures
            LogLevel::of_char(c)->0.letter() == c,
    {
    }

    /// The rank is one-to-one: two levels of equal rank are the same level.
    pub proof fn lemma_rank_injective(a: LogLevel, b: LogLevel)
        requires
            a.rank() == b.rank(),
        ensures
            a == b,
    {
    }
}

/// One parsed log line. The raw line is kept verbatim beside the fields read
/// from it.
#[derive(Debug, Clone)]
pub struct LogEntry {
    pub raw: String,
    pub timestamp: String,
    pub pid: u32,
    pub tid: u32,
    pub level: LogLevel,
    pub tag: String,
    pub message: String,
}

/// What a log entry holds, as mathematical values.
pub struct EntryView {
    pub raw: Seq<char>,
    pub timestamp: Seq<char>,
    pub pid: u32,
    pub tid: u32,
    pub level: LogLevel,
    pub tag: Seq<char>,
    pub message: Seq<char>,
}

impl View for LogEntry {
    type V = EntryView;

    open spec fn view(&self) -> EntryView {
        EntryView {
            raw: self.raw@,
            timestamp: self.timestamp@,
            pid: self.pid,
            tid: self.tid,
            level: self.level,
            tag: self.tag@,
            message: self.message@,
        }
    }
}

/// Whether the `n` characters of `s` from index `i` on are all digits.
pub open spec fn digits_at(s: Seq<char>, i: int, n: int) -> bool {
    &&& 0 <= i
    &&& i + n <= s.len()
    &&& forall|j: int| i <= j < i + n ==> is_digit(#[trigger] s[j])
}

/// Whether `s` holds the character `c` at index `i`.
pub open spec fn char_at(s: Seq<char>, i: int, c: char) -> bool {
    0 <= i < s.len() && s[i] == c
}

/// Where the optional year prefix ends: 5 if `s` opens with four digits and
/// a dash, 0 otherwise.
pub open spec fn year_end(s: Seq<char>) -> int {
    if digits_at(s, 0, 4) && char_at(s, 4, '-') {
        5
    } else {
        0
    }
}

/// Whether a date `MM-DD` stands at index `i`.
pub open spec fn date_at(s: Seq<char>, i: int) -> bool {
    digits_at(s, i, 2) && char_at(s, i + 2, '-') && digits_at(s, i + 3, 2)
}

/// Whether a time of day `HH:MM:SS.mmm` stands at index `i`.
pub open spec fn clock_at(s: Seq<char>, i: int) -> bool {
    &&& digits_at(s, i, 2)
    &&& char_at(s, i + 2, ':')
    &&& digits_at(s, i + 3, 2)
    &&& char_at(s, i + 5, ':')
    &&& digits_at(s, i + 6, 2)
    &&& char_at(s, i + 8, '.')
    &&& digits_at(s, i + 9, 3)
}

/// The positions at which the parts of a log line begin and end.
pub struct LineShape {
    /// Start of the timestamp, after the optional year.
    pub stamp_start: int,
    /// Start of the time of day inside the timestamp.
    pub clock_start: int,
    /// End of the timestamp.
    pub stamp_end: int,
    pub pid_start: int,
    pub pid_end: int,
    pub tid_start: int,
    pub tid_end: int,
    /// Index of the level character.
    pub level_at: int,
    /// Index of the first colon after the level.
    pub colon_at: int,
    /// Start of the message, after the colon and one optional space.
    pub message_start: int,
}

/// The positions that the line grammar assigns in `s`, whether or not `s`
/// follows the grammar: each part is looked for where the part before it
/// ended.
pub open spec fn line_layout(s: Seq<char>) -> LineShape {
    let stamp_start = year_end(s);
    let clock_start = skip_spaces(s, stamp_start + 5);
    let stamp_end = clock_start + 12;
    let pid_start = skip_spaces(s, stamp_end);
    let pid_end = skip_digits(s, pid_start);
    let tid_start = skip_spaces(s, pid_end);
    let tid_end = skip_digits(s, tid_start);
    let level_at = skip_spaces(s, tid_end);
    let colon_at = find_char(s, ':', level_at + 1);
    let message_start = if char_at(s, colon_at + 1, ' ') {
        colon_at + 2
    } else {
        colon_at + 1
    };
    LineShape {
        stamp_start,
        clock_start,
        stamp_end,
        pid_start,
        pid_end,
        tid_start,
        tid_end,
        level_at,
        colon_at,
        message_start,
    }
}

/// Whether `s` follows the line grammar: an optional four-digit year and
/// dash, a timestamp `MM-DD HH:MM:SS.mmm`, whitespace, a decimal process id,
/// whitespace, a decimal thread id, whitespace, one level character,
/// whitespace, the tag up to the first colon, the colon, and the message.
/// Both ids must fit in 32 bits.
pub open spec fn line_matches(s: Seq<char>) -> bool {
    let p = line_layout(s);
    &&& date_at(s, p.stamp_start)
    &&& p.clock_start > p.stamp_start + 5
    &&& clock_at(s, p.clock_start)
    &&& p.pid_start > p.stamp_end
    &&& p.pid_end > p.pid_start
    &&& p.tid_start > p.pid_end
    &&& p.tid_end > p.tid_start
    &&& p.level_at > p.tid_end
    &&& p.level_at < s.len()
    &&& LogLevel::of_char(s[p.level_at]) is Some
    &&& p.level_at + 1 < s.len()
    &&& is_space(s[p.level_at + 1])
    &&& p.colon_at < s.len()
    &&& decimal_value(s, p.pid_start, p.pid_end) <= u32::MAX
    &&& decimal_value(s, p.tid_start, p.tid_end) <= u32::MAX
}

/// Where the tag begins: the first character after the level that is not
/// whitespace.
pub open spec fn tag_start(s: Seq<char>) -> int {
    skip_spaces(s, line_layout(s).level_at + 1)
}

/// Where the tag ends: before the whitespace, if any, that precedes the colon.
pub open spec fn tag_end(s: Seq<char>) -> int {
    trim_end_index(s, tag_start(s), line_layout(s).colon_at)
}

/// The fields that the line grammar reads from a line that follows it.
pub open spec fn line_fields(s: Seq<char>) -> EntryView
    recommends
        line_matches(s),
{
    let p = line_layout(s);
    EntryView {
        raw: s,
        timestamp: s.subrange(p.stamp_start, p.stamp_end),
        pid: decimal_value(s, p.pid_start, p.pid_end) as u32,
        tid: decimal_value(s, p.tid_start, p.tid_end) as u32,
        level: LogLevel::of_char(s[p.level_at])->0,
        tag: s.subrange(tag_start(s), tag_end(s)),
        message: s.subrange(p.message_start, s.len() as int),
    }
}

/// The entry that a line stands for, or `None` if the line does not follow
/// the grammar.
pub open spec fn parse_line(s: Seq<char>) -> Option<EntryView> {
    if line_matches(s) {
        Some(line_fields(s))
    } else {
        None
    }
}

/// Whether `s[lo..hi]` is a run of whitespace, at least one character long.
pub open spec fn is_gap(s: Seq<char>, lo: int, hi: int) -> bool {
    lo < hi && forall|j: int| lo <= j < hi ==> is_space(#[trigger] s[j])
}

/// Whether `s[lo..hi]` is a run of digits, at least one character long.
pub open spec fn is_number(s: Seq<char>, lo: int, hi: int) -> bool {
    lo < hi && forall|j: int| lo <= j < hi ==> is_digit(#[trigger] s[j])
}

/// In a line that follows the grammar the parts stand in order, none of
/// them empty but, perhaps, the year, the tag and the message; the gaps
/// are whitespace and the ids are digits.
pub proof fn lemma_layout_in_order(s: Seq<char>)
    requires
        line_matches(s),
    ensures
        ({
            let p = line_layout(s);
            &&& p.stamp_start == 0 || (p.stamp_start == 5 && digits_at(s, 0, 4) && s[4] == '-')
            &&& p.stamp_start + 5 < p.clock_start
            &&& p.stamp_end == p.clock_start + 12
            &&& p.stamp_end < p.pid_start < p.pid_end < p.tid_start < p.tid_end < p.level_at
            &&& p.level_at + 1 < p.colon_at < s.len()
            &&& p.colon_at + 1 <= p.message_start <= p.colon_at + 2
            &&& p.message_start <= s.len()
            &&& p.message_start == p.colon_at + 2 ==> s[p.colon_at + 1] == ' '
            &&& is_gap(s, p.stamp_start + 5, p.clock_start)
            &&& is_gap(s, p.stamp_end, p.pid_start)
            &&& is_number(s, p.pid_start, p.pid_end)
            &&& is_gap(s, p.pid_end, p.tid_start)
            &&& is_number(s, p.tid_start, p.tid_end)
            &&& is_gap(s, p.tid_end, p.level_at)
            &&& is_space(s[p.level_at + 1])
            &&& s[p.colon_at] == ':'
            &&& forall|j: int| p.level_at + 1 <= j < p.colon_at ==> #[trigger] s[j] != ':'
            &&& s[p.level_at] == line_fields(s).level.letter()
        }),
{
    let p = line_layout(s);
    lemma_skip_spaces_bounds(s, p.stamp_start + 5);
    lemma_skip_spaces_bounds(s, p.stamp_end);
    lemma_skip_digits_bounds(s, p.pid_start);
    lemma_skip_spaces_bounds(s, p.pid_end);
    lemma_skip_digits_bounds(s, p.tid_start);
    lemma_skip_spaces_bounds(s, p.tid_end);
    lemma_find_char_bounds(s, ':', p.level_at + 1);
    LogLevel::lemma_of_char_letter(s[p.level_at]);
}

/// The tag read from a line that follows the grammar is the text between
/// the level and the first colon, trimmed.
pub proof fn lemma_tag_is_trimmed(s: Seq<char>)
    requires
        line_matches(s),
    ensures
        line_fields(s).tag == trim(
            s.subrange(line_layout(s).level_at + 1, line_layout(s).colon_at),
        ),
{
    let p = line_layout(s);
    let lo = p.level_at + 1;
    let hi = p.colon_at;
    lemma_layout_in_order(s);
    lemma_skip_spaces_bounds(s, lo);
    lemma_skip_spaces_slice(s, lo, hi, lo);
    let start = tag_start(s);
    lemma_trim_end_slice(s, lo, hi, start, hi);
    lemma_trim_end_bounds(s, start, hi);
}

/// The timestamp read from a line that follows the grammar is a date,
/// whitespace and a time of day.
pub proof fn lemma_timestamp_shape(s: Seq<char>)
    requires
        line_matches(s),
    ensures
        ({
            let clock = line_layout(s).clock_start - line_layout(s).stamp_start;
            let stamp = line_fields(s).timestamp;
            &&& stamp.len() == clock + 12
            &&& date_at(stamp, 0)
            &&& is_gap(stamp, 5, clock)
            &&& clock_at(stamp, clock)
        }),
{
    let p = line_layout(s);
    let stamp = line_fields(s).timestamp;
    let shift = p.stamp_start;
    lemma_layout_in_order(s);
    assert forall|j: int| 0 <= j < stamp.len() implies stamp[j] == s[j + shift] by {}
}

/// A line that follows the grammar is made up, in this order, of: the
/// optional year; the timestamp; whitespace; the digits of the process id;
/// whitespace; the digits of the thread id; whitespace; the level's letter;
/// the text up to the first colon; the colon; one space or nothing; and the
/// message.
pub proof fn lemma_line_is_its_parts(s: Seq<char>)
    requires
        line_matches(s),
    ensures
        ({
            let p = line_layout(s);
            let f = line_fields(s);
            let after_colon = s.subrange(p.colon_at + 1, p.message_start);
            &&& s == s.subrange(0, p.stamp_start) + f.timestamp + s.subrange(
                p.stamp_end,
                p.pid_start,
            ) + s.subrange(p.pid_start, p.pid_end) + s.subrange(p.pid_end, p.tid_start)
                + s.subrange(p.tid_start, p.tid_end) + s.subrange(p.tid_end, p.level_at)
                + seq![f.level.letter()] + s.subrange(p.level_at + 1, p.colon_at) + seq![':']
                + after_colon + f.message
            &&& after_colon == Seq::<char>::empty() || after_colon == seq![' ']
        }),
{
    let p = line_layout(s);
    let f = line_fields(s);
    lemma_layout_in_order(s);
    let after_colon = s.subrange(p.colon_at + 1, p.message_start);
    let a = s.subrange(0, p.stamp_end);
    assert(a =~= s.subrange(0, p.stamp_start) + f.timestamp);
    let b = s.subrange(0, p.pid_end);
    assert(b =~= a + s.subrange(p.stamp_end, p.pid_start) + s.subrange(p.pid_start, p.pid_end));
    let c = s.subrange(0, p.tid_end);
    assert(c =~= b + s.subrange(p.pid_end, p.tid_start) + s.subrange(p.tid_start, p.tid_end));
    let d = s.subrange(0, p.level_at + 1);
    assert(d =~= c + s.subrange(p.tid_end, p.level_at) + seq![f.level.letter()]);
    let e = s.subrange(0, p.colon_at + 1);
    assert(e =~= d + s.subrange(p.level_at + 1, p.colon_at) + seq![':']);
}

/// The fields read from a line that follows the grammar are consistent with
/// the raw text: the raw text is kept as it is, the process and thread ids
/// are the numbers that their digits write, the level is the one that the
/// level character stands for, the tag is the trimmed text between the level
/// and the first colon, and the message is all that follows the colon and
/// one optional space.
pub proof fn lemma_fields_match_raw_text(s: Seq<char>)
    requires
        line_matches(s),
    ensures
        ({
            let p = line_layout(s);
            let f = line_fields(s);
            &&& parse_line(s) == Some(f)
            &&& f.raw == s
            &&& f.timestamp == s.subrange(p.stamp_start, p.stamp_end)
            &&& is_number(s, p.pid_start, p.pid_end)
            &&& f.pid == decimal_value(s, p.pid_start, p.pid_end)
            &&& is_number(s, p.tid_start, p.tid_end)
            &&& f.tid == decimal_value(s, p.tid_start, p.tid_end)
            &&& LogLevel::of_char(s[p.level_at]) == Some(f.level)
            &&& f.tag == trim(s.subrange(p.level_at + 1, p.colon_at))
            &&& f.message == s.subrange(p.message_start, s.len() as int)
        }),
{
    lemma_layout_in_order(s);
    lemma_tag_is_trimmed(s);
}

/// Whether `stamp` is a timestamp in its usual form: a date, one space and
/// a time of day.
pub open spec fn is_plain_stamp(stamp: Seq<char>) -> bool {
    stamp.len() == 18 && date_at(stamp, 0) && stamp[5] == ' ' && clock_at(stamp, 6)
}

/// Whether `tag` can stand in a line as it is: it holds no colon and
/// neither starts nor ends with whitespace.
pub open spec fn is_plain_tag(tag: Seq<char>) -> bool {
    &&& forall|j: int| 0 <= j < tag.len() ==> #[trigger] tag[j] != ':'
    &&& tag.len() > 0 ==> !is_space(tag[0]) && !is_space(tag[tag.len() - 1])
}

/// The line that writes the given fields in the usual form: the parts set
/// apart by one space each, the tag followed by a colon and a space.
pub open spec fn written_line(
    stamp: Seq<char>,
    pid: u32,
    tid: u32,
    level: LogLevel,
    tag: Seq<char>,
    message: Seq<char>,
) -> Seq<char> {
    stamp + seq![' '] + decimal_digits(pid as nat) + seq![' '] + decimal_digits(tid as nat)
        + seq![' ', level.letter(), ' '] + tag + seq![':', ' '] + message
}

/// A line written from fields in the usual form follows the grammar and is
/// read back as those fields: whatever the ids, the level and the message
/// are, for a timestamp in its usual form and a tag that can stand in a
/// line as it is.
pub proof fn lemma_written_line_parses(
    stamp: Seq<char>,
    pid: u32,
    tid: u32,
    level: LogLevel,
    tag: Seq<char>,
    message: Seq<char>,
)
    requires
        is_plain_stamp(stamp),
        is_plain_tag(tag),
    ensures
        parse_line(written_line(stamp, pid, tid, level, tag, message)) == Some(
            EntryView {
                raw: written_line(stamp, pid, tid, level, tag, message),
                timestamp: stamp,
                pid,
                tid,
                level,
                tag,
                message,
            },
        ),
{
    let s = written_line(stamp, pid, tid, level, tag, message);
    let pid_text = decimal_digits(pid as nat);
    let tid_text = decimal_digits(tid as nat);
    lemma_decimal_round_trip(pid as nat);
    lemma_decimal_round_trip(tid as nat);
    let pid_start = 19int;
    let pid_end = pid_start + pid_text.len();
    let tid_start = pid_end + 1;
    let tid_end = tid_start + tid_text.len();
    let level_at = tid_end + 1;
    let tag_from = level_at + 2;
    let colon_at = tag_from + tag.len();
    let message_start = colon_at + 2;
    assert forall|j: int| 0 <= j < 18 implies s[j] == stamp[j] by {}
    assert forall|j: int| pid_start <= j < pid_end implies s[j] == pid_text[j - pid_start] by {}
    assert forall|j: int| tid_start <= j < tid_end implies s[j] == tid_text[j - tid_start] by {}
    assert forall|j: int| tag_from <= j < colon_at implies s[j] == tag[j - tag_from] by {}
    assert forall|j: int| message_start <= j < s.len() implies s[j] == message[j
        - message_start] by {}
    lemma_skip_spaces_run(s, 5, 6);
    lemma_skip_spaces_run(s, 18, pid_start);
    lemma_skip_digits_run(s, pid_start, pid_end);
    lemma_skip_spaces_run(s, pid_end, tid_start);
    lemma_skip_digits_run(s, tid_start, tid_end);
    lemma_skip_spaces_run(s, tid_end, level_at);
    LogLevel::lemma_letter_round_trip(level);
    lemma_find_char_first(s, ':', level_at + 1, colon_at);
    lemma_decimal_value_moved(pid_text, s, 0, pid_text.len() as int, pid_start);
    lemma_decimal_value_moved(tid_text, s, 0, tid_text.len() as int, tid_start);
    lemma_skip_spaces_run(s, level_at + 1, tag_from);
    let f = line_fields(s);
    assert(f.timestamp =~= stamp);
    assert(f.tag =~= tag);
    assert(f.message =~= message);
}

/// Whether `n` digits stand at `s[i..]`.
fn has_digits(s: &Vec<char>, i: usize, n: usize) -> (r: bool)
    requires
        n <= 4,
    ensures
        r == digits_at(s@, i as int, n as int),
{
    if i > s.len() || n > s.len() - i {
        return false;
    }
    let mut j: usize = 0;
    while j < n
        invariant
            j <= n,
            i + n <= s.len(),
            forall|k: int| i <= k < i + j ==> is_digit(#[trigger] s@[k]),
        decreases n - j,
    {
        if !is_digit_char(s[i + j]) {
            return false;
        }
        j += 1;
    }
    true
}

/// Whether `s` holds `c` at index `i`.
fn has_char(s: &Vec<char>, i: usize, c: char) -> (r: bool)
    ensures
        r == char_at(s@, i as int, c),
{
    i < s.len() && s[i] == c
}

impl LogEntry {
    /// Reads one log line. Returns the entry that the line stands for, or
    /// `None` if the line does not follow the grammar; the raw line is kept
    /// verbatim in the entry.
    pub fn parse(line: &str) -> (r: Option<LogEntry>)
        ensures
            match r {
                Some(entry) => parse_line(line@) == Some(entry@),
                None => parse_line(line@) is None,
            },
    {
        let s = chars_of(line);
        let len = s.len();
        let year: usize = if has_digits(&s, 0, 4) && has_char(&s, 4, '-') {
            5
        } else {
            0
        };
        if !(has_digits(&s, year, 2) && has_char(&s, year + 2, '-') && has_digits(
            &s,
            year + 3,
            2,
        )) {
            return None;
        }
        let clock = skip_spaces_from(&s, year + 5);
        if clock == year + 5 || len - clock < 12 {
            return None;
        }
        if !(has_digits(&s, clock, 2) && has_char(&s, clock + 2, ':') && has_digits(
            &s,
            clock + 3,
            2,
        ) && has_char(&s, clock + 5, ':') && has_digits(&s, clock + 6, 2) && has_char(
            &s,
            clock + 8,
            '.',
        ) && has_digits(&s, clock + 9, 3)) {
            return None;
        }
        let stamp_end = clock + 12;
        let pid_start = skip_spaces_from(&s, stamp_end);
        let pid_end = skip_digits_from(&s, pid_start);
        let tid_start = skip_spaces_from(&s, pid_end);
        let tid_end = skip_digits_from(&s, tid_start);
        let level_at = skip_spaces_from(&s, tid_end);
        if pid_start == stamp_end || pid_end == pid_start || tid_start == pid_end || tid_end
            == tid_start || level_at == tid_end {
            return None;
        }
        if level_at >= len || len - level_at < 2 {
            return None;
        }
        let level = match LogLevel::from_char(s[level_at]) {
            Some(level) => level,
            None => {
                return None;
            },
        };
        if !is_space_char(s[level_at + 1]) {
            return None;
        }
        let colon_at = find_char_from(&s, ':', level_at + 1);
        if colon_at >= len {
            return None;
        }
        proof {
            lemma_skip_digits_bounds(s@, pid_start as int);
            lemma_skip_digits_bounds(s@, tid_start as int);
        }
        let pid = match read_decimal(&s, pid_start, pid_end) {
            Some(pid) => pid,
            None => {
                return None;
            },
        };
        let tid = match read_decimal(&s, tid_start, tid_end) {
            Some(tid) => tid,
            None => {
                return None;
            },
        };
        let tag_lo = skip_spaces_from(&s, level_at + 1);
        proof {
            lemma_skip_spaces_bounds(s@, level_at + 1);
            lemma_find_char_bounds(s@, ':', level_at + 1);
        }
        let tag_hi = trim_end_from(&s, tag_lo, colon_at);
        let message_start: usize = if has_char(&s, colon_at + 1, ' ') {
            colon_at + 2
        } else {
            colon_at + 1
        };
        Some(
            LogEntry {
                raw: line.to_owned(),
                timestamp: slice_text(line, year, stamp_end),
                pid,
                tid,
                level,
                tag: slice_text(line, tag_lo, tag_hi),
                message: slice_text(line, message_start, len),
            },
        )
    }
}

} // verus!
