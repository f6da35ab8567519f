//! Compiled search patterns, backed by the `regex` crate.

use regex::Regex;
use vstd::prelude::*;

verus! {

/// The `regex` crate's compiled regular expression, carried as an opaque value.
#[verifier::external_type_specification]
#[verifier::external_body]
pub struct ExRegex(regex::Regex);

/// The pattern text a compiled regular expression was built from: what
/// `Regex::as_str` returns for it.
pub uninterp spec fn regex_source(re: Regex) -> Seq<char>;

/// Whether the regular expression written as `pattern` has a match anywhere
/// in `text`: what `Regex::is_match` returns for a regex compiled from
/// `pattern` by `Regex::new`.
pub uninterp spec fn pattern_matches(pattern: Seq<char>, text: Seq<char>) -> bool;

/// A search pattern compiled once and matched many times.
pub struct Pattern {
    re: Regex,
}

impl Pattern {
    /// The pattern text this pattern was compiled from.
    pub closed spec fn source(&self) -> Seq<char> {
        regex_source(self.re)
    }

    /// Whether the pattern has a match anywhere in `text`.
    pub open spec fn accepts(&self, text: Seq<char>) -> bool {
        pattern_matches(self.source(), text)
    }

    /// Calls `Regex::new`. A compiled regex remembers the pattern text it was
    /// given. Nothing is claimed about which patterns compile: that depends on
    /// the regex syntax and on the engine's size limits.
    #[verifier::external_body]
    fn compile_regex(pattern: &str) -> (r: Option<Regex>)
        ensures
            r matches Some(re) ==> regex_source(re) == pattern@,
    {
        Regex::new(pattern).ok()
    }

    /// Calls `Regex::is_match`, which reports whether the regex matches
    /// anywhere in the haystack. For a regex built by `Regex::new` the answer
    /// is determined by the pattern text and the haystack.
    #[verifier::external_body]
    fn regex_is_match(re: &Regex, text: &str) -> (r: bool)
        ensures
            r == pattern_matches(regex_source(*re), text@),
    {
        re.is_match(text)
    }

    /// Calls `Regex::as_str`, which returns the pattern text that the regex
    /// was compiled from.
    #[verifier::external_body]
    fn regex_as_str(re: &Regex) -> (r: &str)
        ensures
            r@ == regex_source(*re),
    {
        re.as_str()
    }

    /// Compiles `pattern`. `None` means the regex engine rejected it.
    pub fn compile(pattern: &str) -> (r: Option<Pattern>)
        ensures
            r matches Some(p) ==> p.source() == pattern@,
    {
        match Pattern::compile_regex(pattern) {
            Some(re) => Some(Pattern { re }),
            None => None,
        }
    }

    /// Whether the pattern has a match anywhere in `text`.
    pub fn is_match(&self, text: &str) -> (r: bool)
        ensures
            r == self.accepts(text@),
    {
        Pattern::regex_is_match(&self.re, text)
    }

    /// The pattern text this pattern was compiled from.
    pub fn as_str(&self) -> (r: &str)
        ensures
            r@ == self.source(),
    {
        Pattern::regex_as_str(&self.re)
    }
}

} // verus!
