//! The filter predicate set and the crash classifier.

use crate::parser::{EntryView, LogEntry, LogLevel};
use crate::pattern::{pattern_matches, Pattern};
use crate::text::{contains_seq, contains_text, same_text};
use vstd::prelude::*;

verus! {

/// The signature that marks a raw line as a crash or ANR report: any of the
/// listed tokens, in any letter case.
pub const CRASH_SIGNATURE: &'static str =
    r"(?i)(AndroidRuntime|FATAL EXCEPTION|FATAL|ANR|crash|System\.err)";

/// The predicates an entry has to meet to be shown. A predicate that is not
/// set lets every entry through.
pub struct FilterSet {
    /// One switch per level, in severity order.
    pub level_toggles: [bool; 6],
    /// Text that the tag has to contain.
    pub tag_filter: Option<String>,
    /// Pattern that the message or the tag has to match.
    pub regex_filter: Option<Pattern>,
    /// Process id that the entry has to come from.
    pub pid_filter: Option<u32>,
}

/// What a filter set holds, as mathematical values.
pub struct FilterView {
    pub levels: Seq<bool>,
    pub tag: Option<Seq<char>>,
    /// The text of the pattern, if one is set.
    pub pattern: Option<Seq<char>>,
    pub pid: Option<u32>,
}

impl FilterView {
    /// The filter set that lets every entry through.
    pub open spec fn open_all() -> FilterView {
        FilterView { levels: Seq::new(6, |i: int| true), tag: None, pattern: None, pid: None }
    }

    /// Whether an entry passes: its level is switched on, its tag contains the
    /// tag text, its message or its tag matches the pattern, and it comes from
    /// the process asked for.
    pub open spec fn admits(self, entry: EntryView) -> bool {
        &&& self.levels[entry.level.rank() as int]
        &&& self.tag matches Some(text) ==> contains_seq(entry.tag, text)
        &&& self.pattern matches Some(source) ==> pattern_matches(source, entry.message)
            || pattern_matches(source, entry.tag)
        &&& self.pid matches Some(pid) ==> entry.pid == pid
    }

    /// The filter set with the switch of `level` flipped.
    pub open spec fn toggle(self, level: LogLevel) -> FilterView {
        FilterView {
            levels: self.levels.update(level.rank() as int, !self.levels[level.rank() as int]),
            ..self
        }
    }
}

impl View for FilterSet {
    type V = FilterView;

    open spec fn view(&self) -> FilterView {
        FilterView {
            levels: self.level_toggles@,
            tag: match self.tag_filter {
                Some(text) => Some(text@),
                None => None,
            },
            pattern: match self.regex_filter {
                Some(pattern) => Some(pattern.source()),
                None => None,
            },
            pid: self.pid_filter,
        }
    }
}

impl Default for FilterSet {
    /// The filter set that lets every entry through.
    fn default() -> (filters: FilterSet)
        ensures
            filters@ == FilterView::open_all(),
    {
        let filters = FilterSet {
            level_toggles: [true, true, true, true, true, true],
            tag_filter: None,
            regex_filter: None,
            pid_filter: None,
        };
        assert(filters@.levels =~= FilterView::open_all().levels);
        filters
    }
}

impl FilterSet {
    /// Whether `entry` passes every predicate that is set.
    pub fn matches(&self, entry: &LogEntry) -> (r: bool)
        ensures
            r == self@.admits(entry@),
    {
        if !self.level_toggles[entry.level.index()] {
            return false;
        }
        if let Some(text) = &self.tag_filter {
            if !contains_text(entry.tag.as_str(), text.as_str()) {
                return false;
            }
        }
        if let Some(pattern) = &self.regex_filter {
            if !pattern.is_match(entry.message.as_str()) && !pattern.is_match(entry.tag.as_str()) {
                return false;
            }
        }
        if let Some(pid) = self.pid_filter {
            if entry.pid != pid {
                return false;
            }
        }
        true
    }

    /// Takes what compiling a new pattern gave: a compiled pattern replaces
    /// the pattern filter, a rejected one leaves the filter set as it was.
    /// Returns whether the pattern was taken.
    pub fn install_regex(&mut self, compiled: Option<Pattern>) -> (taken: bool)
        ensures
            taken == compiled is Some,
            match compiled {
                Some(pattern) => final(self)@ == (FilterView {
                    pattern: Some(pattern.source()),
                    ..old(self)@
                }),
                None => *final(self) == *old(self),
            },
    {
        match compiled {
            Some(pattern) => {
                self.regex_filter = Some(pattern);
                true
            },
            None => false,
        }
    }

    /// Sets the pattern filter from its text. An empty text clears the
    /// filter. A text that the regex engine rejects leaves the filter set as
    /// it was. Returns whether the filter now reflects `pattern`.
    pub fn set_regex(&mut self, pattern: &str) -> (taken: bool)
        ensures
            pattern@.len() == 0 ==> taken && final(self)@ == (FilterView {
                pattern: None,
                ..old(self)@
            }),
            pattern@.len() > 0 && taken ==> final(self)@ == (FilterView {
                pattern: Some(pattern@),
                ..old(self)@
            }),
            !taken ==> *final(self) == *old(self),
    {
        if pattern.is_empty() {
            self.regex_filter = None;
            true
        } else {
            self.install_regex(Pattern::compile(pattern))
        }
    }

    /// Flips the switch of `level`.
    pub fn toggle_level(&mut self, level: LogLevel)
        ensures
            final(self)@ == old(self)@.toggle(level),
    {
        let idx = level.index();
        let on = self.level_toggles[idx];
        self.level_toggles[idx] = !on;
    }

    /// Goes back to the filter set that lets every entry through.
    pub fn reset(&mut self)
        ensures
            final(self)@ == FilterView::open_all(),
    {
        *self = FilterSet::default();
    }
}

/// Decides which entries are crash or ANR reports, whatever the filters
/// say. It holds the crash signature, compiled once.
pub struct CrashClassifier {
    signature: Pattern,
}

impl CrashClassifier {
    #[verifier::type_invariant]
    spec fn holds_signature(self) -> bool {
        self.signature.source() == CRASH_SIGNATURE@
    }

    /// The text of the pattern that the classifier matches raw lines
    /// against.
    pub closed spec fn signature_text(&self) -> Seq<char> {
        self.signature.source()
    }

    /// Whether an entry counts as a crash: its level is `Error` or `Fatal`,
    /// or its raw line matches the crash signature.
    pub open spec fn flags(entry: EntryView) -> bool {
        entry.level.is_severe() || pattern_matches(CRASH_SIGNATURE@, entry.raw)
    }

    /// Builds the classifier from what compiling a pattern gave: there is a
    /// classifier if and only if a pattern was compiled and it is the crash
    /// signature.
    pub fn from_compiled(compiled: Option<Pattern>) -> (r: Option<CrashClassifier>)
        ensures
            r is Some <==> (compiled matches Some(pattern) && pattern.source()
                == CRASH_SIGNATURE@),
            r matches Some(classifier) ==> classifier.signature_text() == CRASH_SIGNATURE@,
    {
        match compiled {
            Some(signature) => {
                if same_text(signature.as_str(), CRASH_SIGNATURE) {
                    Some(CrashClassifier { signature })
                } else {
                    None
                }
            },
            None => None,
        }
    }

    /// Compiles the crash signature and builds the classifier from it. A
    /// classifier that is returned matches raw lines against the crash
    /// signature. `None` means the regex engine rejected the signature.
    pub fn new() -> (r: Option<CrashClassifier>)
        ensures
            r matches Some(classifier) ==> classifier.signature_text() == CRASH_SIGNATURE@,
    {
        CrashClassifier::from_compiled(Pattern::compile(CRASH_SIGNATURE))
    }

    /// Whether `entry` is a crash or ANR report.
    pub fn classify(&self, entry: &LogEntry) -> (r: bool)
        ensures
            r == CrashClassifier::flags(entry@),
    {
        proof {
            use_type_invariant(self);
        }
        entry.level.at_least(LogLevel::Error) || self.signature.is_match(entry.raw.as_str())
    }
}

/// Whether `entry` is a crash or ANR report: its level is `Error` or `Fatal`,
/// or its raw line matches the crash signature.
pub fn is_crash_entry(classifier: &CrashClassifier, entry: &LogEntry) -> (r: bool)
    ensures
        r == CrashClassifier::flags(entry@),
{
    classifier.classify(entry)
}

/// Every entry of level `Error` or `Fatal` counts as a crash, and an entry
/// that is neither of such a level nor matched by the crash signature does
/// not.
pub proof fn lemma_crash_bounds(entry: EntryView)
    ensures
        entry.level.rank() >= LogLevel::Error.rank() ==> CrashClassifier::flags(entry),
        entry.level.rank() < LogLevel::Error.rank() && !pattern_matches(CRASH_SIGNATURE@, entry.raw)
            ==> !CrashClassifier::flags(entry),
{
}

} // verus!
