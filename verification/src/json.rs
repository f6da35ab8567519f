//! Detection and highlighting of a JSON payload inside a message.

use crate::text::{
    chars_of, is_digit, is_digit_char, is_space, is_space_char, lemma_skip_spaces_bounds,
    skip_spaces, skip_spaces_from, slice_text, trim_start,
};
use serde_json::Value;
use vstd::prelude::*;

verus! {

/// The `serde_json` crate's JSON document, carried as an opaque value.
#[verifier::external_type_specification]
#[verifier::external_body]
pub struct ExValue(serde_json::Value);

/// The document that a text is read as by `serde_json::from_str`, or `None`
/// if the text is not strictly one JSON value.
pub uninterp spec fn json_document(text: Seq<char>) -> Option<Value>;

/// The indented text that `serde_json::to_string_pretty` writes for a
/// document, or `None` if it fails to write one.
pub uninterp spec fn json_layout(document: Value) -> Option<Seq<char>>;

/// The indented form of the JSON document that `text` holds, or `None` if
/// `text` is not strictly one JSON value.
pub open spec fn json_pretty(text: Seq<char>) -> Option<Seq<char>> {
    match json_document(text) {
        Some(document) => json_layout(document),
        None => None,
    }
}

/// Calls `serde_json::from_str` for a `Value`. The document read depends on
/// the text alone.
#[verifier::external_body]
fn read_json(text: &str) -> (r: Option<Value>)
    ensures
        r == json_document(text@),
{
    serde_json::from_str(text).ok()
}

/// Calls `serde_json::to_string_pretty`. The text written depends on the
/// document alone.
#[verifier::external_body]
fn lay_out_json(document: &Value) -> (r: Option<String>)
    ensures
        match r {
            Some(text) => json_layout(*document) == Some(text@),
            None => json_layout(*document) is None,
        },
{
    serde_json::to_string_pretty(document).ok()
}

/// What a run of characters of a JSON text is.
#[derive(Debug, Clone, Copy, PartialEq, Eq, Structural)]
pub enum SpanKind {
    /// One of `{`, `}`, `[`, `]`.
    Bracket,
    /// A colon or a comma.
    Separator,
    /// A string literal that a colon follows.
    Key,
    /// A string literal that no colon follows.
    Text,
    /// A run of digits, signs, decimal points and exponent markers.
    Number,
    /// One of `true`, `false`, `null`.
    Keyword,
    /// A run of whitespace, shown as one space.
    Space,
    /// Any other character.
    Other,
}

/// A run of characters with what it is.
#[derive(Debug)]
pub struct StyledSpan {
    pub text: String,
    pub kind: SpanKind,
}

/// What a styled span holds, as mathematical values.
pub struct SpanView {
    pub text: Seq<char>,
    pub kind: SpanKind,
}

impl View for StyledSpan {
    type V = SpanView;

    open spec fn view(&self) -> SpanView {
        SpanView { text: self.text@, kind: self.kind }
    }
}

impl DeepView for StyledSpan {
    type V = SpanView;

    open spec fn deep_view(&self) -> SpanView {
        self@
    }
}

/// Whether a message looks like it holds a JSON payload: after leading
/// whitespace it opens with `{` or `[`.
pub open spec fn opens_json(message: Seq<char>) -> bool {
    let rest = trim_start(message);
    rest.len() > 0 && (rest[0] == '{' || rest[0] == '[')
}

/// Whether `c` opens or closes an object or an array.
pub open spec fn is_bracket(c: char) -> bool {
    c == '{' || c == '}' || c == '[' || c == ']'
}

/// Whether `c` is a colon or a comma.
pub open spec fn is_separator(c: char) -> bool {
    c == ':' || c == ','
}

/// Whether `c` may stand in a number: a digit, a sign, a decimal point or
/// an exponent marker.
pub open spec fn is_number_char(c: char) -> bool {
    is_digit(c) || c == '.' || c == '-' || c == 'e' || c == 'E' || c == '+'
}

/// Where the string literal ends whose inside starts at `i`: after the
/// first quote that no backslash escapes, or at the end of `s` if there is
/// none.
pub open spec fn string_end(s: Seq<char>, i: int) -> int
    decreases s.len() - i,
{
    if i < 0 || i >= s.len() {
        i
    } else if s[i] == '\\' && i + 1 < s.len() {
        string_end(s, i + 2)
    } else if s[i] == '"' {
        i + 1
    } else {
        string_end(s, i + 1)
    }
}

/// The first index at or after `i` that holds no number character, or the
/// length of `s`.
pub open spec fn number_end(s: Seq<char>, i: int) -> int
    decreases s.len() - i,
{
    if 0 <= i < s.len() && is_number_char(s[i]) {
        number_end(s, i + 1)
    } else {
        i
    }
}

/// Whether `word` stands in `s` at index `i`.
pub open spec fn word_at(s: Seq<char>, i: int, word: Seq<char>) -> bool {
    &&& 0 <= i
    &&& i + word.len() <= s.len()
    &&& forall|k: int| 0 <= k < word.len() ==> s[i + k] == #[trigger] word[k]
}

/// The length of the keyword `true`, `false` or `null` that stands at
/// index `i`, or 0 if none does.
pub open spec fn keyword_len(s: Seq<char>, i: int) -> int {
    if word_at(s, i, seq!['t', 'r', 'u', 'e']) {
        4
    } else if word_at(s, i, seq!['f', 'a', 'l', 's', 'e']) {
        5
    } else if word_at(s, i, seq!['n', 'u', 'l', 'l']) {
        4
    } else {
        0
    }
}

/// Whether the next character at or after `i` that is not whitespace is a
/// colon.
pub open spec fn colon_follows(s: Seq<char>, i: int) -> bool {
    let k = skip_spaces(s, i);
    0 <= k < s.len() && s[k] == ':'
}

/// What the run that starts at index `i` is.
pub open spec fn span_kind_at(s: Seq<char>, i: int) -> SpanKind
    recommends
        0 <= i < s.len(),
{
    let c = s[i];
    if is_bracket(c) {
        SpanKind::Bracket
    } else if is_separator(c) {
        SpanKind::Separator
    } else if c == '"' {
        if colon_follows(s, string_end(s, i + 1)) {
            SpanKind::Key
        } else {
            SpanKind::Text
        }
    } else if is_digit(c) || c == '-' {
        SpanKind::Number
    } else if keyword_len(s, i) > 0 {
        SpanKind::Keyword
    } else if is_space(c) {
        SpanKind::Space
    } else {
        SpanKind::Other
    }
}

/// Where the run that starts at index `i` ends.
pub open spec fn span_end_at(s: Seq<char>, i: int) -> int
    recommends
        0 <= i < s.len(),
{
    match span_kind_at(s, i) {
        SpanKind::Key | SpanKind::Text => string_end(s, i + 1),
        SpanKind::Number => number_end(s, i),
        SpanKind::Keyword => i + keyword_len(s, i),
        SpanKind::Space => skip_spaces(s, i),
        _ => i + 1,
    }
}

/// The span for the run that starts at index `i`: the run's own text, but
/// for a run of whitespace, which is shown as one space.
pub open spec fn span_at(s: Seq<char>, i: int) -> SpanView
    recommends
        0 <= i < s.len(),
{
    let kind = span_kind_at(s, i);
    SpanView {
        text: if kind == SpanKind::Space {
            seq![' ']
        } else {
            s.subrange(i, span_end_at(s, i))
        },
        kind,
    }
}

/// A run is never empty and never runs past the end of the text.
pub proof fn lemma_span_advances(s: Seq<char>, i: int)
    requires
        0 <= i < s.len(),
    ensures
        i < span_end_at(s, i) <= s.len(),
{
    lemma_string_end_bounds(s, i + 1);
    lemma_number_end_bounds(s, i);
    lemma_skip_spaces_bounds(s, i);
    if span_kind_at(s, i) == SpanKind::Number {
        lemma_number_end_bounds(s, i + 1);
    }
    if span_kind_at(s, i) == SpanKind::Space {
        lemma_skip_spaces_bounds(s, i + 1);
    }
}

/// A string literal ends at or after the start of its inside and inside
/// the text.
pub proof fn lemma_string_end_bounds(s: Seq<char>, i: int)
    requires
        0 <= i <= s.len(),
    ensures
        i <= string_end(s, i) <= s.len(),
    decreases s.len() - i,
{
    if i < s.len() {
        if s[i] == '\\' && i + 1 < s.len() {
            lemma_string_end_bounds(s, i + 2);
        } else if s[i] != '"' {
            lemma_string_end_bounds(s, i + 1);
        }
    }
}

/// A run of number characters ends at or after its start and inside the
/// text.
pub proof fn lemma_number_end_bounds(s: Seq<char>, i: int)
    requires
        0 <= i <= s.len(),
    ensures
        i <= number_end(s, i) <= s.len(),
    decreases s.len() - i,
{
    if i < s.len() && is_number_char(s[i]) {
        lemma_number_end_bounds(s, i + 1);
    }
}

/// The spans of `s` from index `i` on: one left-to-right pass, each run
/// starting where the one before it ended.
pub open spec fn spans_from(s: Seq<char>, i: int) -> Seq<SpanView>
    decreases s.len() - i,
{
    if 0 <= i < s.len() {
        proof {
            lemma_span_advances(s, i);
        }
        seq![span_at(s, i)] + spans_from(s, span_end_at(s, i))
    } else {
        Seq::empty()
    }
}

/// The spans of a JSON text.
pub open spec fn spans_of(s: Seq<char>) -> Seq<SpanView> {
    spans_from(s, 0)
}

/// Whether `message` looks like it holds a JSON payload.
pub fn detect_json(message: &str) -> (r: bool)
    ensures
        r == opens_json(message@),
{
    let s = chars_of(message);
    let start = skip_spaces_from(&s, 0);
    start < s.len() && (s[start] == '{' || s[start] == '[')
}

fn is_number_char_exec(c: char) -> (r: bool)
    ensures
        r == is_number_char(c),
{
    is_digit_char(c) || c == '.' || c == '-' || c == 'e' || c == 'E' || c == '+'
}

fn string_end_from(s: &Vec<char>, start: usize) -> (end: usize)
    requires
        start <= s.len(),
    ensures
        end == string_end(s@, start as int),
        start <= end <= s.len(),
{
    let mut i: usize = start;
    loop
        invariant_except_break
            start <= i <= s.len(),
            string_end(s@, start as int) == string_end(s@, i as int),
        ensures
            start <= i <= s.len(),
            i == string_end(s@, start as int),
        decreases s.len() - i,
    {
        if i >= s.len() {
            break ;
        }
        if s[i] == '\\' && i + 1 < s.len() {
            i += 2;
        } else if s[i] == '"' {
            i += 1;
            break ;
        } else {
            i += 1;
        }
    }
    i
}

fn number_end_from(s: &Vec<char>, start: usize) -> (end: usize)
    requires
        start <= s.len(),
    ensures
        end == number_end(s@, start as int),
        start <= end <= s.len(),
{
    let mut i: usize = start;
    while i < s.len() && is_number_char_exec(s[i])
        invariant
            start <= i <= s.len(),
            number_end(s@, start as int) == number_end(s@, i as int),
        decreases s.len() - i,
    {
        i += 1;
    }
    i
}

fn keyword_len_at(s: &Vec<char>, i: usize) -> (n: usize)
    requires
        i < s.len(),
    ensures
        n == keyword_len(s@, i as int),
        i + n <= s.len(),
{
    let left = s.len() - i;
    if left >= 4 && s[i] == 't' && s[i + 1] == 'r' && s[i + 2] == 'u' && s[i + 3] == 'e' {
        4
    } else if left >= 5 && s[i] == 'f' && s[i + 1] == 'a' && s[i + 2] == 'l' && s[i + 3] == 's'
        && s[i + 4] == 'e' {
        5
    } else if left >= 4 && s[i] == 'n' && s[i + 1] == 'u' && s[i + 2] == 'l' && s[i + 3] == 'l' {
        4
    } else {
        proof {
            let t = seq!['t', 'r', 'u', 'e'];
            let f = seq!['f', 'a', 'l', 's', 'e'];
            let n = seq!['n', 'u', 'l', 'l'];
            if word_at(s@, i as int, t) {
                assert(s@[i + 0] == t[0] && s@[i + 1] == t[1] && s@[i + 2] == t[2] && s@[i + 3]
                    == t[3]);
            }
            if word_at(s@, i as int, f) {
                assert(s@[i + 0] == f[0] && s@[i + 1] == f[1] && s@[i + 2] == f[2] && s@[i + 3]
                    == f[3] && s@[i + 4] == f[4]);
            }
            if word_at(s@, i as int, n) {
                assert(s@[i + 0] == n[0] && s@[i + 1] == n[1] && s@[i + 2] == n[2] && s@[i + 3]
                    == n[3]);
            }
        }
        0
    }
}

/// Splits a JSON text into styled spans in one left-to-right pass:
/// brackets, separators, string literals (keys told from values by the
/// colon that follows a key), numbers, the keywords `true`, `false` and
/// `null`, runs of whitespace (each shown as one space), and other
/// characters one by one.
pub fn colorize_json(text: &str) -> (spans: Vec<StyledSpan>)
    ensures
        spans.deep_view() == spans_of(text@),
{
    let s = chars_of(text);
    let len = s.len();
    let mut spans: Vec<StyledSpan> = Vec::new();
    let mut i: usize = 0;
    while i < len
        invariant
            i <= len == s.len(),
            s@ == text@,
            spans_of(s@) == spans.deep_view() + spans_from(s@, i as int),
        decreases len - i,
    {
        let ghost before = spans.deep_view();
        proof {
            lemma_span_advances(s@, i as int);
        }
        let c = s[i];
        let kind: SpanKind;
        let end: usize;
        if c == '{' || c == '}' || c == '[' || c == ']' {
            kind = SpanKind::Bracket;
            end = i + 1;
        } else if c == ':' || c == ',' {
            kind = SpanKind::Separator;
            end = i + 1;
        } else if c == '"' {
            end = string_end_from(&s, i + 1);
            let next = skip_spaces_from(&s, end);
            kind = if next < len && s[next] == ':' {
                SpanKind::Key
            } else {
                SpanKind::Text
            };
        } else if is_digit_char(c) || c == '-' {
            kind = SpanKind::Number;
            end = number_end_from(&s, i);
        } else {
            let word = keyword_len_at(&s, i);
            if word > 0 {
                kind = SpanKind::Keyword;
                end = i + word;
            } else if is_space_char(c) {
                kind = SpanKind::Space;
                end = skip_spaces_from(&s, i);
            } else {
                kind = SpanKind::Other;
                end = i + 1;
            }
        }
        let shown = match kind {
            SpanKind::Space => {
                proof {
                    reveal_strlit(" ");
                }
                let one = " ".to_owned();
                assert(one@ =~= seq![' ']);
                one
            },
            _ => slice_text(text, i, end),
        };
        let span = StyledSpan { text: shown, kind };
        spans.push(span);
        assert(before.push(span@) + spans_from(s@, end as int) =~= before + (seq![span@]
            + spans_from(s@, end as int)));
        i = end;
    }
    spans
}

/// The indented form of the JSON document that `text` holds.
pub fn pretty_json(text: &str) -> (r: Option<String>)
    ensures
        match r {
            Some(pretty) => json_pretty(text@) == Some(pretty@),
            None => json_pretty(text@) is None,
        },
{
    match read_json(text) {
        Some(document) => lay_out_json(&document),
        None => None,
    }
}

/// The spans to show for an indented JSON text, if the payload was one.
pub fn spans_for(pretty: Option<String>) -> (r: Option<Vec<StyledSpan>>)
    ensures
        match pretty {
            Some(text) => r matches Some(spans) && spans.deep_view() == spans_of(text@),
            None => r is None,
        },
{
    match pretty {
        Some(text) => Some(colorize_json(text.as_str())),
        None => None,
    }
}

/// The styled spans of the JSON payload of `message`: the message without
/// its leading whitespace is read strictly as JSON, laid out with
/// indentation and split into spans. `None` if it is not JSON; the message
/// is then to be shown plain.
pub fn json_spans(message: &str) -> (r: Option<Vec<StyledSpan>>)
    ensures
        match json_pretty(trim_start(message@)) {
            Some(pretty) => r matches Some(spans) && spans.deep_view() == spans_of(pretty),
            None => r is None,
        },
{
    let s = chars_of(message);
    let start = skip_spaces_from(&s, 0);
    let payload = slice_text(message, start, s.len());
    spans_for(pretty_json(payload.as_str()))
}

} // verus!
