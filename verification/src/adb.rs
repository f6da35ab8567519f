//! What the log source delivers, and how the texts that the device tools
//! print are read.

use crate::parser::{parse_line, LogEntry};
use crate::text::{
    chars_of, decimal_value, find_char, find_char_from, is_digit, is_digit_char, is_space,
    is_space_char, lemma_find_char_bounds, lemma_skip_spaces_slice, read_decimal, skip_spaces, skip_spaces_from, slice_text,
};
use vstd::prelude::*;

verus! {

/// One delivery from the reader of the log stream.
pub enum AdbMessage {
    /// A line that follows the grammar, parsed.
    Entry(LogEntry),
    /// A line that does not follow the grammar.
    UnparsedLine,
    /// The stream ended, with the reason.
    Disconnected(String),
}

/// The most messages taken in per tick; what is left waits for the next
/// tick.
pub const BATCH_LIMIT: usize = 1000;

/// The least time, in milliseconds, between two lookups of a package's
/// process id.
pub const PID_POLL_INTERVAL_MS: u64 = 2000;

/// Where `s[..hi]` ends once its trailing carriage returns are dropped.
pub open spec fn cr_end(s: Seq<char>, hi: int) -> int
    decreases hi,
{
    if 0 < hi <= s.len() && s[hi - 1] == '\r' {
        cr_end(s, hi - 1)
    } else {
        hi
    }
}

/// `s` without its trailing carriage returns.
pub open spec fn without_trailing_cr(s: Seq<char>) -> Seq<char> {
    s.subrange(0, cr_end(s, s.len() as int))
}

/// What the reader delivers for a line of the stream: the entry that the
/// line, without its trailing carriage returns, stands for, or the notice
/// that it stands for none.
pub fn read_line(line: &str) -> (message: AdbMessage)
    ensures
        match message {
            AdbMessage::Entry(entry) => parse_line(without_trailing_cr(line@)) == Some(entry@),
            AdbMessage::UnparsedLine => parse_line(without_trailing_cr(line@)) is None,
            AdbMessage::Disconnected(_) => false,
        },
{
    let s = chars_of(line);
    let mut end: usize = s.len();
    while end > 0 && s[end - 1] == '\r'
        invariant
            end <= s.len(),
            cr_end(s@, s.len() as int) == cr_end(s@, end as int),
        decreases end,
    {
        end -= 1;
    }
    let parsed = if end == s.len() {
        assert(line@.subrange(0, end as int) =~= line@);
        LogEntry::parse(line)
    } else {
        LogEntry::parse(slice_text(line, 0, end).as_str())
    };
    match parsed {
        Some(entry) => AdbMessage::Entry(entry),
        None => AdbMessage::UnparsedLine,
    }
}

/// Whether a tick that has taken in `taken` entries has to stop and leave
/// the rest for the next tick.
pub fn batch_is_full(taken: usize) -> (r: bool)
    ensures
        r == (taken >= BATCH_LIMIT),
{
    taken >= BATCH_LIMIT
}

/// Where the content of the line that starts at `i` ends: before the line
/// feed that ends the line and before a carriage return in front of that
/// line feed. A last line that no line feed ends runs to the end of `s`.
pub open spec fn line_content_end(s: Seq<char>, i: int) -> int {
    let stop = find_char(s, '\n', i);
    if i < stop < s.len() && s[stop - 1] == '\r' {
        stop - 1
    } else {
        stop
    }
}

/// The lines of `s` from index `i` on, without their line endings.
pub open spec fn lines_from(s: Seq<char>, i: int) -> Seq<Seq<char>>
    decreases s.len() - i,
{
    if 0 <= i < s.len() {
        let stop = find_char(s, '\n', i);
        let line = s.subrange(i, line_content_end(s, i));
        if stop < s.len() {
            proof {
                lemma_find_char_bounds(s, '\n', i);
            }
            seq![line] + lines_from(s, stop + 1)
        } else {
            seq![line]
        }
    } else {
        Seq::empty()
    }
}

/// Whether `line` holds nothing but whitespace.
pub open spec fn is_blank(line: Seq<char>) -> bool {
    skip_spaces(line, 0) == line.len()
}

/// `lines` without the blank ones.
pub open spec fn nonblank(lines: Seq<Seq<char>>) -> Seq<Seq<char>>
    decreases lines.len(),
{
    if lines.len() == 0 {
        Seq::empty()
    } else if is_blank(lines[0]) {
        nonblank(lines.drop_first())
    } else {
        seq![lines[0]] + nonblank(lines.drop_first())
    }
}

/// The device descriptors in the text that the device listing prints: its
/// lines after the heading line, without the blank ones.
pub open spec fn device_lines(output: Seq<char>) -> Seq<Seq<char>> {
    let lines = lines_from(output, 0);
    if lines.len() == 0 {
        lines
    } else {
        nonblank(lines.drop_first())
    }
}

/// Reads the text that the device listing prints: one descriptor per line
/// after the heading line, blank lines left out.
pub fn parse_device_list(output: &str) -> (devices: Vec<String>)
    ensures
        devices.deep_view() == device_lines(output@),
{
    let s = chars_of(output);
    let len = s.len();
    let mut devices: Vec<String> = Vec::new();
    if len == 0 {
        return devices;
    }
    let first_stop = find_char_from(&s, '\n', 0);
    let ghost rest = lines_from(s@, first_stop + 1);
    proof {
        assert(lines_from(s@, 0).drop_first() =~= rest);
    }
    if first_stop >= len {
        return devices;
    }
    let mut i: usize = first_stop + 1;
    while i < len
        invariant
            i <= len == s.len(),
            s@ == output@,
            nonblank(rest) == devices.deep_view() + nonblank(lines_from(s@, i as int)),
        decreases len - i,
    {
        let stop = find_char_from(&s, '\n', i);
        let end: usize = if i < stop && stop < len && s[stop - 1] == '\r' {
            stop - 1
        } else {
            stop
        };
        proof {
            assert(lines_from(s@, i as int).drop_first() =~= lines_from(s@, stop + 1));
            lemma_skip_spaces_slice(s@, i as int, end as int, i as int);
        }
        let text_start = skip_spaces_from(&s, i);
        if text_start < end {
            devices.push(slice_text(output, i, end));
        }
        if stop >= len {
            i = len;
        } else {
            i = stop + 1;
        }
    }
    devices
}

/// The first index at or after `i` that holds whitespace, or the length of
/// `s`.
pub open spec fn word_end(s: Seq<char>, i: int) -> int
    decreases s.len() - i,
{
    if 0 <= i < s.len() && !is_space(s[i]) {
        word_end(s, i + 1)
    } else {
        i
    }
}

/// Whether `s[lo..hi]` holds digits only.
pub open spec fn all_digits(s: Seq<char>, lo: int, hi: int) -> bool {
    forall|j: int| lo <= j < hi ==> is_digit(#[trigger] s[j])
}

/// The process id in the text that the process lookup prints: the number
/// that the first word of the text writes in decimal, with or without a
/// plus sign in front. `None` if there is no word, if the word is no such
/// number, or if the number does not fit in 32 bits.
pub open spec fn pid_in(output: Seq<char>) -> Option<u32> {
    let start = skip_spaces(output, 0);
    let end = word_end(output, start);
    let digits = if start < end && output[start] == '+' {
        start + 1
    } else {
        start
    };
    if digits < end && all_digits(output, digits, end) && decimal_value(output, digits, end)
        <= u32::MAX {
        Some(decimal_value(output, digits, end) as u32)
    } else {
        None
    }
}

/// Reads the text that the process lookup prints.
pub fn parse_pid_output(output: &str) -> (pid: Option<u32>)
    ensures
        pid == pid_in(output@),
{
    let s = chars_of(output);
    let start = skip_spaces_from(&s, 0);
    let mut end: usize = start;
    while end < s.len() && !is_space_char(s[end])
        invariant
            start <= end <= s.len(),
            word_end(s@, start as int) == word_end(s@, end as int),
        decreases s.len() - end,
    {
        end += 1;
    }
    let digits: usize = if start < end && s[start] == '+' {
        start + 1
    } else {
        start
    };
    if digits >= end || !holds_digits(&s, digits, end) {
        return None;
    }
    read_decimal(&s, digits, end)
}

/// Whether `s[lo..hi]` holds digits only.
fn holds_digits(s: &Vec<char>, lo: usize, hi: usize) -> (r: bool)
    requires
        lo <= hi <= s.len(),
    ensures
        r == all_digits(s@, lo as int, hi as int),
{
    let mut j: usize = lo;
    while j < hi
        invariant
            lo <= j <= hi <= s.len(),
            all_digits(s@, lo as int, j as int),
        decreases hi - j,
    {
        if !is_digit_char(s[j]) {
            return false;
        }
        j += 1;
    }
    true
}

} // verus!
