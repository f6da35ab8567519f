//! Character classes and scanning over character sequences.

use vstd::prelude::*;
use vstd::string::{StrSliceExecFns, StringExecFns};

verus! {

/// Whether `c` is Unicode whitespace (the `White_Space` property).
pub open spec fn is_space(c: char) -> bool {
    let n = c as u32;
    ||| 0x09 <= n <= 0x0D
    ||| n == 0x20
    ||| n == 0x85
    ||| n == 0xA0
    ||| n == 0x1680
    ||| 0x2000 <= n <= 0x200A
    ||| n == 0x2028
    ||| n == 0x2029
    ||| n == 0x202F
    ||| n == 0x205F
    ||| n == 0x3000
}

/// Whether `c` is one of the ASCII digits `0` to `9`.
pub open spec fn is_digit(c: char) -> bool {
    '0' <= c <= '9'
}

/// The value of the ASCII digit `c`.
pub open spec fn digit_value(c: char) -> nat
    recommends
        is_digit(c),
{
    (c as u32 - '0' as u32) as nat
}

/// The first index at or after `i` that holds no whitespace, or the length
/// of `s` if only whitespace follows.
pub open spec fn skip_spaces(s: Seq<char>, i: int) -> int
    decreases s.len() - i,
{
    if 0 <= i < s.len() && is_space(s[i]) {
        skip_spaces(s, i + 1)
    } else {
        i
    }
}

/// The first index at or after `i` that holds no digit, or the length of
/// `s` if only digits follow.
pub open spec fn skip_digits(s: Seq<char>, i: int) -> int
    decreases s.len() - i,
{
    if 0 <= i < s.len() && is_digit(s[i]) {
        skip_digits(s, i + 1)
    } else {
        i
    }
}

/// The first index at or after `i` that holds `c`, or the length of `s` if
/// `c` does not occur there.
pub open spec fn find_char(s: Seq<char>, c: char, i: int) -> int
    decreases s.len() - i,
{
    if 0 <= i < s.len() && s[i] != c {
        find_char(s, c, i + 1)
    } else {
        i
    }
}

/// The end of `s[lo..hi]` once its trailing whitespace is dropped.
pub open spec fn trim_end_index(s: Seq<char>, lo: int, hi: int) -> int
    decreases hi - lo,
{
    if lo < hi <= s.len() && is_space(s[hi - 1]) {
        trim_end_index(s, lo, hi - 1)
    } else {
        hi
    }
}

/// `s` without its leading whitespace.
pub open spec fn trim_start(s: Seq<char>) -> Seq<char> {
    s.subrange(skip_spaces(s, 0), s.len() as int)
}

/// `s` without its leading and trailing whitespace.
pub open spec fn trim(s: Seq<char>) -> Seq<char> {
    let lo = skip_spaces(s, 0);
    s.subrange(lo, trim_end_index(s, lo, s.len() as int))
}

/// The number written by the decimal digits `s[lo..hi]`.
pub open spec fn decimal_value(s: Seq<char>, lo: int, hi: int) -> nat
    decreases hi - lo,
{
    if lo < hi {
        decimal_value(s, lo, hi - 1) * 10 + digit_value(s[hi - 1])
    } else {
        0
    }
}

/// Whether `needle` occurs in `s` starting at index `i`.
pub open spec fn occurs_at(s: Seq<char>, needle: Seq<char>, i: int) -> bool {
    &&& 0 <= i
    &&& i + needle.len() <= s.len()
    &&& s.subrange(i, i + needle.len()) == needle
}

/// Whether `needle` occurs somewhere in `s` as a contiguous run.
pub open spec fn contains_seq(s: Seq<char>, needle: Seq<char>) -> bool {
    exists|i: int| occurs_at(s, needle, i)
}

/// Skipping whitespace stops inside the text, passes over whitespace only
/// and stops at the first character that is none.
pub proof fn lemma_skip_spaces_bounds(s: Seq<char>, i: int)
    requires
        0 <= i <= s.len(),
    ensures
        i <= skip_spaces(s, i) <= s.len(),
        forall|j: int| i <= j < skip_spaces(s, i) ==> is_space(#[trigger] s[j]),
        skip_spaces(s, i) < s.len() ==> !is_space(s[skip_spaces(s, i)]),
    decreases s.len() - i,
{
    if i < s.len() && is_space(s[i]) {
        lemma_skip_spaces_bounds(s, i + 1);
    }
}

/// Skipping digits stops inside the text, passes over digits only and
/// stops at the first character that is none.
pub proof fn lemma_skip_digits_bounds(s: Seq<char>, i: int)
    requires
        0 <= i <= s.len(),
    ensures
        i <= skip_digits(s, i) <= s.len(),
        forall|j: int| i <= j < skip_digits(s, i) ==> is_digit(#[trigger] s[j]),
        skip_digits(s, i) < s.len() ==> !is_digit(s[skip_digits(s, i)]),
    decreases s.len() - i,
{
    if i < s.len() && is_digit(s[i]) {
        lemma_skip_digits_bounds(s, i + 1);
    }
}

/// Looking for a character stops inside the text, passes over other
/// characters only and stops at the first occurrence.
pub proof fn lemma_find_char_bounds(s: Seq<char>, c: char, i: int)
    requires
        0 <= i <= s.len(),
    ensures
        i <= find_char(s, c, i) <= s.len(),
        forall|j: int| i <= j < find_char(s, c, i) ==> #[trigger] s[j] != c,
        find_char(s, c, i) < s.len() ==> s[find_char(s, c, i)] == c,
    decreases s.len() - i,
{
    if i < s.len() && s[i] != c {
        lemma_find_char_bounds(s, c, i + 1);
    }
}

/// Dropping trailing whitespace stops inside the range, drops whitespace
/// only and stops behind the last character that is none.
pub proof fn lemma_trim_end_bounds(s: Seq<char>, lo: int, hi: int)
    requires
        0 <= lo <= hi <= s.len(),
    ensures
        lo <= trim_end_index(s, lo, hi) <= hi,
        forall|j: int| trim_end_index(s, lo, hi) <= j < hi ==> is_space(#[trigger] s[j]),
        lo < trim_end_index(s, lo, hi) ==> !is_space(s[trim_end_index(s, lo, hi) - 1]),
    decreases hi - lo,
{
    if lo < hi && is_space(s[hi - 1]) {
        lemma_trim_end_bounds(s, lo, hi - 1);
    }
}

/// Skipping whitespace inside the slice `s[lo..hi]` goes as far as skipping
/// it in `s` does, but not past the end of the slice.
pub proof fn lemma_skip_spaces_slice(s: Seq<char>, lo: int, hi: int, i: int)
    requires
        0 <= lo <= i <= hi <= s.len(),
    ensures
        skip_spaces(s.subrange(lo, hi), i - lo) == if skip_spaces(s, i) < hi {
            skip_spaces(s, i) - lo
        } else {
            hi - lo
        },
    decreases hi - i,
{
    lemma_skip_spaces_bounds(s, i);
    if i < hi && is_space(s[i]) {
        lemma_skip_spaces_slice(s, lo, hi, i + 1);
    }
}

/// Dropping trailing whitespace inside the slice `s[lo..hi]` stops where
/// dropping it in `s` does.
pub proof fn lemma_trim_end_slice(s: Seq<char>, lo: int, hi: int, from: int, to: int)
    requires
        0 <= lo <= from <= to <= hi <= s.len(),
    ensures
        trim_end_index(s.subrange(lo, hi), from - lo, to - lo) == trim_end_index(s, from, to) - lo,
    decreases to - from,
{
    if from < to && is_space(s[to - 1]) {
        lemma_trim_end_slice(s, lo, hi, from, to - 1);
    }
}

/// Skipping whitespace from the start of a run of whitespace stops at the
/// first character after the run.
pub proof fn lemma_skip_spaces_run(s: Seq<char>, lo: int, hi: int)
    requires
        0 <= lo <= hi <= s.len(),
        forall|j: int| lo <= j < hi ==> is_space(#[trigger] s[j]),
        hi < s.len() ==> !is_space(s[hi]),
    ensures
        skip_spaces(s, lo) == hi,
    decreases hi - lo,
{
    if lo < hi {
        lemma_skip_spaces_run(s, lo + 1, hi);
    }
}

/// Skipping digits from the start of a run of digits stops at the first
/// character after the run.
pub proof fn lemma_skip_digits_run(s: Seq<char>, lo: int, hi: int)
    requires
        0 <= lo <= hi <= s.len(),
        forall|j: int| lo <= j < hi ==> is_digit(#[trigger] s[j]),
        hi < s.len() ==> !is_digit(s[hi]),
    ensures
        skip_digits(s, lo) == hi,
    decreases hi - lo,
{
    if lo < hi {
        lemma_skip_digits_run(s, lo + 1, hi);
    }
}

/// Looking for a character finds its first occurrence.
pub proof fn lemma_find_char_first(s: Seq<char>, c: char, lo: int, at: int)
    requires
        0 <= lo <= at <= s.len(),
        forall|j: int| lo <= j < at ==> #[trigger] s[j] != c,
        at < s.len() ==> s[at] == c,
    ensures
        find_char(s, c, lo) == at,
    decreases at - lo,
{
    if lo < at {
        lemma_find_char_first(s, c, lo + 1, at);
    }
}

/// The number written by digits does not depend on where they stand.
pub proof fn lemma_decimal_value_moved(a: Seq<char>, b: Seq<char>, lo: int, hi: int, by: int)
    requires
        0 <= lo <= hi <= a.len(),
        0 <= lo + by,
        hi + by <= b.len(),
        forall|j: int| lo <= j < hi ==> a[j] == b[j + by],
    ensures
        decimal_value(a, lo, hi) == decimal_value(b, lo + by, hi + by),
    decreases hi - lo,
{
    if lo < hi {
        lemma_decimal_value_moved(a, b, lo, hi - 1, by);
    }
}

/// Adding digits never makes the number written smaller.
pub proof fn lemma_decimal_value_grows(s: Seq<char>, lo: int, mid: int, hi: int)
    requires
        lo <= mid <= hi,
    ensures
        decimal_value(s, lo, mid) <= decimal_value(s, lo, hi),
    decreases hi - mid,
{
    if mid < hi {
        lemma_decimal_value_grows(s, lo, mid, hi - 1);
    }
}

/// Whether `c` is Unicode whitespace.
pub fn is_space_char(c: char) -> (r: bool)
    ensures
        r == is_space(c),
{
    let n: u32 = c as u32;
    (0x09 <= n && n <= 0x0D) || n == 0x20 || n == 0x85 || n == 0xA0 || n == 0x1680 || (0x2000 <= n
        && n <= 0x200A) || n == 0x2028 || n == 0x2029 || n == 0x202F || n == 0x205F || n == 0x3000
}

/// Whether `c` is one of the ASCII digits `0` to `9`.
pub fn is_digit_char(c: char) -> (r: bool)
    ensures
        r == is_digit(c),
{
    '0' <= c && c <= '9'
}

/// The characters of `s`, in order.
pub fn chars_of(s: &str) -> (v: Vec<char>)
    ensures
        v@ == s@,
{
    broadcast use vstd::string::axiom_spec_iter;

    let mut v: Vec<char> = Vec::new();
    let chars = s.chars();
    for c in it: chars
        invariant
            it.seq() == s@,
            v@ == s@.take(it.index()),
    {
        v.push(c);
    }
    v
}

/// The first index at or after `start` that holds no whitespace, or the
/// length of `s`.
pub fn skip_spaces_from(s: &Vec<char>, start: usize) -> (end: usize)
    requires
        start <= s.len(),
    ensures
        end == skip_spaces(s@, start as int),
        start <= end <= s.len(),
{
    let mut i: usize = start;
    while i < s.len() && is_space_char(s[i])
        invariant
            start <= i <= s.len(),
            skip_spaces(s@, start as int) == skip_spaces(s@, i as int),
        decreases s.len() - i,
    {
        i += 1;
    }
    i
}

/// The first index at or after `start` that holds no digit, or the length
/// of `s`.
pub fn skip_digits_from(s: &Vec<char>, start: usize) -> (end: usize)
    requires
        start <= s.len(),
    ensures
        end == skip_digits(s@, start as int),
        start <= end <= s.len(),
{
    let mut i: usize = start;
    while i < s.len() && is_digit_char(s[i])
        invariant
            start <= i <= s.len(),
            skip_digits(s@, start as int) == skip_digits(s@, i as int),
        decreases s.len() - i,
    {
        i += 1;
    }
    i
}

/// The first index at or after `start` that holds `c`, or the length of
/// `s`.
pub fn find_char_from(s: &Vec<char>, c: char, start: usize) -> (end: usize)
    requires
        start <= s.len(),
    ensures
        end == find_char(s@, c, start as int),
        start <= end <= s.len(),
{
    let mut i: usize = start;
    while i < s.len() && s[i] != c
        invariant
            start <= i <= s.len(),
            find_char(s@, c, start as int) == find_char(s@, c, i as int),
        decreases s.len() - i,
    {
        i += 1;
    }
    i
}

/// The end of `s[lo..hi]` once its trailing whitespace is dropped.
pub fn trim_end_from(s: &Vec<char>, lo: usize, hi: usize) -> (end: usize)
    requires
        lo <= hi <= s.len(),
    ensures
        end == trim_end_index(s@, lo as int, hi as int),
        lo <= end <= hi,
{
    let mut j: usize = hi;
    while lo < j && is_space_char(s[j - 1])
        invariant
            lo <= j <= hi,
            hi <= s.len(),
            trim_end_index(s@, lo as int, hi as int) == trim_end_index(s@, lo as int, j as int),
        decreases j - lo,
    {
        j -= 1;
    }
    j
}

/// Reads the decimal number written by the digits `s[lo..hi]`, or `None` if
/// it does not fit in 32 bits.
pub fn read_decimal(s: &Vec<char>, lo: usize, hi: usize) -> (r: Option<u32>)
    requires
        lo <= hi <= s.len(),
        forall|j: int| lo <= j < hi ==> is_digit(#[trigger] s@[j]),
    ensures
        match r {
            Some(n) => n == decimal_value(s@, lo as int, hi as int),
            None => decimal_value(s@, lo as int, hi as int) > u32::MAX,
        },
{
    let mut acc: u64 = 0;
    let mut i: usize = lo;
    while i < hi
        invariant
            lo <= i <= hi <= s.len(),
            forall|j: int| lo <= j < hi ==> is_digit(#[trigger] s@[j]),
            acc == decimal_value(s@, lo as int, i as int),
            acc <= u32::MAX,
        decreases hi - i,
    {
        let c = s[i];
        let d: u64 = (c as u32 - '0' as u32) as u64;
        let next: u64 = acc * 10 + d;
        if next > u32::MAX as u64 {
            proof {
                lemma_decimal_value_grows(s@, lo as int, i + 1, hi as int);
            }
            return None;
        }
        acc = next;
        i += 1;
    }
    Some(acc as u32)
}

/// Calls `str::contains` with a string pattern, which reports whether the
/// pattern occurs in the string as a contiguous run.
#[verifier::external_body]
pub(crate) fn contains_text(haystack: &str, needle: &str) -> (r: bool)
    ensures
        r == contains_seq(haystack@, needle@),
{
    haystack.contains(needle)
}

/// The ASCII digit that stands for `d`, for `d` below 10.
pub open spec fn digit_char(d: nat) -> char
    recommends
        d < 10,
{
    (d + 48) as char
}

/// The decimal digits of `n`, most significant first, without leading
/// zeros.
pub open spec fn decimal_digits(n: nat) -> Seq<char>
    decreases n,
{
    if n < 10 {
        seq![digit_char(n)]
    } else {
        decimal_digits(n / 10).push(digit_char(n % 10))
    }
}

/// The decimal digits of a number are digits, and they write that number.
pub proof fn lemma_decimal_round_trip(n: nat)
    ensures
        decimal_digits(n).len() > 0,
        forall|j: int| 0 <= j < decimal_digits(n).len() ==> is_digit(#[trigger] decimal_digits(n)[j]),
        decimal_value(decimal_digits(n), 0, decimal_digits(n).len() as int) == n,
    decreases n,
{
    let text = decimal_digits(n);
    if n < 10 {
        reveal_with_fuel(decimal_value, 2);
    } else {
        lemma_decimal_round_trip(n / 10);
        let head = decimal_digits(n / 10);
        lemma_decimal_value_same(head, text, 0, head.len() as int);
    }
}

/// The number written by `s[lo..hi]` depends on those characters alone.
pub proof fn lemma_decimal_value_same(a: Seq<char>, b: Seq<char>, lo: int, hi: int)
    requires
        0 <= lo <= hi <= a.len(),
        hi <= b.len(),
        forall|j: int| lo <= j < hi ==> a[j] == b[j],
    ensures
        decimal_value(a, lo, hi) == decimal_value(b, lo, hi),
    decreases hi - lo,
{
    if lo < hi {
        lemma_decimal_value_same(a, b, lo, hi - 1);
    }
}

/// The one-character text of the digit `d`.
fn digit_text(d: u64) -> (r: &'static str)
    requires
        d < 10,
    ensures
        r@ == seq![digit_char(d as nat)],
{
    proof {
        reveal_strlit("0");
        reveal_strlit("1");
        reveal_strlit("2");
        reveal_strlit("3");
        reveal_strlit("4");
        reveal_strlit("5");
        reveal_strlit("6");
        reveal_strlit("7");
        reveal_strlit("8");
        reveal_strlit("9");
    }
    let r = match d {
        0 => "0",
        1 => "1",
        2 => "2",
        3 => "3",
        4 => "4",
        5 => "5",
        6 => "6",
        7 => "7",
        8 => "8",
        _ => "9",
    };
    r
}

/// Writes `n` in decimal.
pub fn decimal_text(n: u64) -> (r: String)
    ensures
        r@ == decimal_digits(n as nat),
    decreases n,
{
    if n < 10 {
        digit_text(n).to_owned()
    } else {
        let head = decimal_text(n / 10);
        let r = head.concat(digit_text(n % 10));
        r
    }
}

/// Whether two texts hold the same characters.
pub fn same_text(a: &str, b: &str) -> (r: bool)
    ensures
        r == (a@ == b@),
{
    let x = chars_of(a);
    let y = chars_of(b);
    if x.len() != y.len() {
        return false;
    }
    let mut i: usize = 0;
    while i < x.len()
        invariant
            i <= x.len() == y.len(),
            x@ == a@,
            y@ == b@,
            forall|j: int| 0 <= j < i ==> x@[j] == y@[j],
        decreases x.len() - i,
    {
        if x[i] != y[i] {
            return false;
        }
        i += 1;
    }
    assert(x@ =~= y@);
    true
}

/// The text `text[from..to]`, counted in characters.
pub fn slice_text(text: &str, from: usize, to: usize) -> (r: String)
    requires
        from <= to <= text@.len(),
    ensures
        r@ == text@.subrange(from as int, to as int),
{
    text.substring_char(from, to).to_owned()
}

/// `prefix` followed by `rest`.
pub fn join_text(prefix: &str, rest: &str) -> (r: String)
    ensures
        r@ == prefix@ + rest@,
{
    prefix.to_owned().concat(rest)
}

/// `String::push` appends one character to the end of the string.
pub assume_specification[ String::push ](s: &mut String, ch: char)
    ensures
        final(s)@ == old(s)@.push(ch),
;

/// `String::pop` removes the last character and returns it, or returns
/// `None` and leaves the string alone if it is empty.
pub assume_specification[ String::pop ](s: &mut String) -> (r: Option<char>)
    ensures
        match r {
            Some(ch) => old(s)@.len() > 0 && ch == old(s)@.last() && final(s)@ == old(s)@.drop_last(),
            None => old(s)@.len() == 0 && final(s)@ == old(s)@,
        },
;

} // verus!
