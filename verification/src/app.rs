//! The viewer's state: the store, the filtered and crash indices kept in
//! step with it, the filters, the viewport and what the screen shows.

use crate::adb::{AdbMessage, PID_POLL_INTERVAL_MS};
use crate::filter::{CrashClassifier, FilterSet, FilterView};
use crate::index::{
    lemma_pruned_head, lemma_select_append, lemma_select_exact, lemma_select_push, prune_below,
    pruned, select, select_from, strictly_increasing, Selector,
};
use crate::parser::{LogEntry, LogLevel};
use crate::pattern::Pattern;
use crate::text::{decimal_digits, decimal_text, join_text};
use crate::store::{BoundedLogStore, StoreModel};
use crate::viewport::{
    anchored_offset, clamped_offset, max_offset, visible, visible_range, Viewport, ViewportState,
};
use std::collections::VecDeque;
use vstd::prelude::*;
use vstd::string::StringExecFns;

verus! {

/// What the keyboard is typing into.
#[derive(Debug, Clone, Copy, PartialEq, Eq, Structural)]
pub enum InputMode {
    /// Keys are commands.
    Normal,
    /// Keys edit a pattern filter.
    Filter,
    /// Keys edit a tag filter.
    Tag,
    /// Keys edit a package filter.
    Package,
}

/// How the content area is split.
#[derive(Debug, Clone, Copy, PartialEq, Eq, Structural)]
pub enum PanelLayout {
    /// The log view alone.
    Single,
    /// The log view beside the crash panel.
    SplitCrash,
    /// The log view beside the device panel.
    SplitDevice,
}

/// Counts of the entries taken in since the log was last cleared.
#[derive(Debug)]
pub struct LogStats {
    /// Entries per level, in severity order.
    pub counts: [usize; 6],
    /// Entries of level `Error` or `Fatal`.
    pub errors: usize,
}

/// The sum of the six per-level counts.
pub open spec fn tally(counts: Seq<usize>) -> int {
    counts[0] + counts[1] + counts[2] + counts[3] + counts[4] + counts[5]
}

/// The per-level counts after one more entry of `level` was taken in.
pub open spec fn counted(counts: Seq<usize>, level: LogLevel) -> Seq<usize> {
    counts.update(level.rank() as int, (counts[level.rank() as int] + 1) as usize)
}

impl Default for LogStats {
    /// All counts at 0.
    fn default() -> (stats: LogStats)
        ensures
            stats.counts@ == Seq::new(6, |i: int| 0usize),
            stats.errors == 0,
    {
        let stats = LogStats { counts: [0, 0, 0, 0, 0, 0], errors: 0 };
        stats
    }
}

impl LogStats {
    /// Whether the error count is the sum of the counts of `Error` and
    /// `Fatal`.
    pub open spec fn errors_agree(&self) -> bool {
        self.errors == self.counts@[4] + self.counts@[5]
    }

    /// Counts one more entry of `level`.
    pub fn record(&mut self, level: LogLevel)
        requires
            tally(old(self).counts@) < usize::MAX,
            old(self).errors_agree(),
        ensures
            final(self).counts@ == counted(old(self).counts@, level),
            final(self).errors == old(self).errors + if level.is_severe() {
                1int
            } else {
                0int
            },
            tally(final(self).counts@) == tally(old(self).counts@) + 1,
            final(self).errors_agree(),
    {
        let idx = level.index();
        let count: usize = self.counts[idx];
        self.counts[idx] = count + 1;
        if level.at_least(LogLevel::Error) {
            self.errors = self.errors + 1;
        }
    }
}

/// What the viewer's state holds, as mathematical values.
pub struct AppView {
    /// The store.
    pub store: StoreModel,
    /// The filtered index: absolute indices of the entries on show.
    pub shown: Seq<usize>,
    /// The crash index: absolute indices of the crash and ANR reports.
    pub crashes: Seq<usize>,
    /// The active filter set.
    pub filters: FilterView,
    /// The viewport's distance from the tail of the filtered index.
    pub offset: nat,
    /// Entries taken in per level since the last clear.
    pub counts: Seq<usize>,
    /// Entries of level `Error` or `Fatal` taken in since the last clear.
    pub errors: usize,
    pub input_mode: InputMode,
    /// The text typed so far in an input mode.
    pub filter_input: Seq<char>,
    pub panels: PanelLayout,
    pub show_help: bool,
    pub device_list: Seq<Seq<char>>,
    /// The package whose process the entries are filtered by, if any.
    pub package_filter: Option<Seq<char>>,
    pub status_message: Option<Seq<char>>,
    pub should_quit: bool,
}

impl AppView {
    /// Whether the derived state agrees with the store and the filters: the
    /// filtered index holds exactly the live entries that pass the filters,
    /// the crash index exactly the live crash reports, the offset stays
    /// inside the filtered index, and the counts add up to the number of
    /// entries taken in.
    pub open spec fn consistent(self) -> bool {
        &&& self.store.within_capacity()
        &&& self.store.capacity > 0
        &&& self.store.next_index() <= usize::MAX
        &&& self.shown == select(self.store, Selector::Passing(self.filters))
        &&& self.crashes == select(self.store, Selector::Crashes)
        &&& self.offset <= max_offset(self.shown.len() as int)
        &&& self.counts.len() == 6
        &&& tally(self.counts) == self.store.next_index()
        &&& self.errors == self.counts[4] + self.counts[5]
    }

    /// The state after `entry` arrived: the store takes it in, both indices
    /// follow, a paused viewport moves one further back if the entry is on
    /// show, and the entry is counted.
    pub open spec fn with_entry(self, entry: LogEntry) -> AppView {
        let store = self.store.append(entry);
        let shown = select(store, Selector::Passing(self.filters));
        AppView {
            store,
            shown,
            crashes: select(store, Selector::Crashes),
            offset: if self.filters.admits(entry@) {
                anchored_offset(self.offset as int, shown.len() as int) as nat
            } else {
                clamped_offset(self.offset as int, shown.len() as int) as nat
            },
            counts: counted(self.counts, entry.level),
            errors: if entry.level.is_severe() {
                (self.errors + 1) as usize
            } else {
                self.errors
            },
            ..self
        }
    }

    /// The state after scrolling `amount` entries back from the tail.
    pub open spec fn scrolled_up(self, amount: int) -> AppView {
        AppView {
            offset: clamped_offset(self.offset + amount, self.shown.len() as int) as nat,
            ..self
        }
    }

    /// The state after scrolling `amount` entries towards the tail.
    pub open spec fn scrolled_down(self, amount: int) -> AppView {
        AppView {
            offset: if self.offset >= amount {
                (self.offset - amount) as nat
            } else {
                0
            },
            ..self
        }
    }

    /// The state with the viewport on the oldest entry on show.
    pub open spec fn at_top(self) -> AppView {
        AppView { offset: max_offset(self.shown.len() as int) as nat, ..self }
    }

    /// The state with the viewport tailing.
    pub open spec fn at_bottom(self) -> AppView {
        AppView { offset: 0, ..self }
    }

    /// The state after the pause key: a tailing viewport pauses one entry
    /// back, if there is one to step back to, and a paused one resumes
    /// tailing.
    pub open spec fn pause_toggled(self) -> AppView {
        AppView {
            offset: if self.offset == 0 {
                clamped_offset(1, self.shown.len() as int) as nat
            } else {
                0
            },
            ..self
        }
    }

    /// The state after the log was cleared: the store is empty and numbers
    /// its entries from 0 again, both indices are empty, the counts are 0,
    /// the viewport tails, and the status says so.
    pub open spec fn cleared(self) -> AppView {
        AppView {
            store: StoreModel::empty(self.store.capacity),
            shown: Seq::empty(),
            crashes: Seq::empty(),
            offset: 0,
            counts: Seq::new(6, |i: int| 0usize),
            errors: 0,
            status_message: Some("Buffer cleared"@),
            ..self
        }
    }

    /// Whether a package is being filtered by whose process id is not known
    /// yet.
    pub open spec fn wants_pid(self) -> bool {
        self.package_filter is Some && self.filters.pid is None
    }

    /// The status text that reports the process id found for a package.
    pub open spec fn found_pid_message(pid: u32, package: Seq<char>) -> Seq<char> {
        "Found PID "@ + decimal_digits(pid as nat) + " for "@ + package
    }

    /// The state after a lookup of the filtered package's process id came
    /// back with `resolved`: if an id was wanted and one was found, it
    /// becomes the process filter and the status reports it.
    pub open spec fn with_resolved_pid(self, resolved: Option<u32>) -> AppView {
        if self.wants_pid() && resolved is Some {
            AppView {
                status_message: Some(
                    AppView::found_pid_message(resolved->0, self.package_filter->0),
                ),
                ..self.with_filters(FilterView { pid: resolved, ..self.filters })
            }
        } else {
            self
        }
    }

    /// The filter set after the typed text was submitted in the current
    /// input mode. `compiled` is the text of the pattern that the regex
    /// engine compiled, if it compiled one; `resolved` is the process id
    /// found for the text as a package name.
    pub open spec fn submitted_filters(
        self,
        compiled: Option<Seq<char>>,
        resolved: Option<u32>,
    ) -> FilterView {
        match self.input_mode {
            InputMode::Filter => if self.filter_input.len() == 0 {
                FilterView { pattern: None, ..self.filters }
            } else if compiled is Some {
                FilterView { pattern: compiled, ..self.filters }
            } else {
                self.filters
            },
            InputMode::Tag => if self.filter_input.len() == 0 {
                FilterView { tag: None, ..self.filters }
            } else {
                FilterView { tag: Some(self.filter_input), ..self.filters }
            },
            InputMode::Package => if self.filter_input.len() == 0 {
                FilterView { pid: None, ..self.filters }
            } else if resolved is Some {
                FilterView { pid: resolved, ..self.filters }
            } else {
                self.filters
            },
            InputMode::Normal => self.filters,
        }
    }

    /// The state after the typed text was submitted: the filter of the
    /// current input mode is set from it (an empty text clears that filter,
    /// a pattern that the regex engine rejects leaves the filters as they
    /// were), the filtered index is built anew, and the input ends.
    pub open spec fn submitted(self, compiled: Option<Seq<char>>, resolved: Option<u32>) -> AppView {
        AppView {
            input_mode: InputMode::Normal,
            filter_input: Seq::empty(),
            package_filter: if self.input_mode == InputMode::Package {
                if self.filter_input.len() == 0 {
                    None
                } else {
                    Some(self.filter_input)
                }
            } else {
                self.package_filter
            },
            ..self.with_filters(self.submitted_filters(compiled, resolved))
        }
    }

    /// The state after the input was abandoned.
    pub open spec fn input_cancelled(self) -> AppView {
        AppView { input_mode: InputMode::Normal, filter_input: Seq::empty(), ..self }
    }

    /// The state after all filters were cleared.
    pub open spec fn filters_cleared(self) -> AppView {
        AppView {
            package_filter: None,
            filter_input: Seq::empty(),
            ..self.with_filters(FilterView::open_all())
        }
    }

    /// The lines to export: the raw text of each entry on show, in order.
    pub open spec fn export_text(self) -> Seq<Seq<char>> {
        Seq::new(self.shown.len(), |i: int| self.store.entry(self.shown[i] as nat).raw@)
    }

    /// The state after an export ended with `outcome`: the path of the file
    /// written, or the reason why none was.
    pub open spec fn export_reported(self, outcome: Result<Seq<char>, Seq<char>>) -> AppView {
        AppView {
            status_message: Some(
                match outcome {
                    Ok(path) => "Saved to "@ + path,
                    Err(reason) => "Export failed: "@ + reason,
                },
            ),
            ..self
        }
    }

    /// The state after the crash panel key.
    pub open spec fn crash_panel_toggled(self) -> AppView {
        AppView {
            panels: if self.panels == PanelLayout::SplitCrash {
                PanelLayout::Single
            } else {
                PanelLayout::SplitCrash
            },
            ..self
        }
    }

    /// The state after the device panel key.
    pub open spec fn device_panel_toggled(self) -> AppView {
        AppView {
            panels: if self.panels == PanelLayout::SplitDevice {
                PanelLayout::Single
            } else {
                PanelLayout::SplitDevice
            },
            ..self
        }
    }

    /// The state after a delivery from the reader of the log stream: an
    /// entry is taken in, a line that stands for none is passed over, and
    /// the end of the stream puts its reason in the status.
    pub open spec fn after_message(self, message: AdbMessage) -> AppView {
        match message {
            AdbMessage::Entry(entry) => self.with_entry(entry),
            AdbMessage::UnparsedLine => self,
            AdbMessage::Disconnected(reason) => AppView {
                status_message: Some(reason@),
                ..self
            },
        }
    }

    /// The state after the filter set became `filters`: the filtered index
    /// is built anew and the offset is brought back inside it.
    pub open spec fn with_filters(self, filters: FilterView) -> AppView {
        let shown = select(self.store, Selector::Passing(filters));
        AppView {
            filters,
            shown,
            offset: clamped_offset(self.offset as int, shown.len() as int) as nat,
            ..self
        }
    }
}

/// The viewer's state.
pub struct App {
    store: BoundedLogStore,
    filtered: VecDeque<usize>,
    crashes: VecDeque<usize>,
    filters: FilterSet,
    classifier: CrashClassifier,
    viewport: Viewport,
    stats: LogStats,
    input_mode: InputMode,
    filter_input: String,
    panels: PanelLayout,
    show_help: bool,
    device_list: Vec<String>,
    package_filter: Option<String>,
    status_message: Option<String>,
    should_quit: bool,
}

impl View for App {
    type V = AppView;

    closed spec fn view(&self) -> AppView {
        AppView {
            store: self.store@,
            shown: self.filtered@,
            crashes: self.crashes@,
            filters: self.filters@,
            offset: self.viewport@,
            counts: self.stats.counts@,
            errors: self.stats.errors,
            input_mode: self.input_mode,
            filter_input: self.filter_input@,
            panels: self.panels,
            show_help: self.show_help,
            device_list: self.device_list.deep_view(),
            package_filter: match self.package_filter {
                Some(package) => Some(package@),
                None => None,
            },
            status_message: match self.status_message {
                Some(message) => Some(message@),
                None => None,
            },
            should_quit: self.should_quit,
        }
    }
}

impl App {
    /// What holds of the state whether or not the filtered index is up to
    /// date: the store is sound, the crash index holds exactly the live
    /// crash reports, and the counts add up.
    pub closed spec fn store_wf(&self) -> bool {
        &&& self.store.wf()
        &&& self.crashes@ == select(self.store@, Selector::Crashes)
        &&& tally(self.stats.counts@) == self.store@.next_index()
        &&& self.stats.errors_agree()
    }

    /// Whether the filtered index is up to date: it holds exactly the live
    /// entries that pass the filters, and the offset stays inside it.
    pub closed spec fn settled(&self) -> bool {
        &&& self.filtered@ == select(self.store@, Selector::Passing(self.filters@))
        &&& self.viewport.within(self.filtered@.len() as int)
    }

    /// The invariant of the state: `store_wf`, and the filtered index is up
    /// to date.
    pub open spec fn wf(&self) -> bool {
        self.store_wf() && self.settled()
    }

    /// What the invariant says, over the view.
    pub proof fn lemma_wf(&self)
        requires
            self.wf(),
        ensures
            self@.consistent(),
    {
        self.store.lemma_wf();
    }

    /// What being up to date says, over the view.
    pub proof fn lemma_settled(&self)
        ensures
            self.settled() <==> self@.shown == select(
                self@.store,
                Selector::Passing(self@.filters),
            ) && self@.offset <= max_offset(self@.shown.len() as int),
    {
    }

    /// A new viewer with an empty store: tailing, every filter open, no
    /// panel split. A requested capacity outside the accepted range is
    /// clamped into it.
    pub fn new(requested_capacity: usize, classifier: CrashClassifier) -> (app: App)
        ensures
            app.wf(),
            app@ == (AppView {
                store: StoreModel::empty(crate::store::clamped_capacity(requested_capacity as nat)),
                shown: Seq::empty(),
                crashes: Seq::empty(),
                filters: FilterView::open_all(),
                offset: 0,
                counts: Seq::new(6, |i: int| 0usize),
                errors: 0,
                input_mode: InputMode::Normal,
                filter_input: Seq::empty(),
                panels: PanelLayout::Single,
                show_help: false,
                device_list: Seq::empty(),
                package_filter: None,
                status_message: None,
                should_quit: false,
            }),
    {
        let app = App {
            store: BoundedLogStore::new(requested_capacity),
            filtered: VecDeque::new(),
            crashes: VecDeque::new(),
            filters: FilterSet::default(),
            classifier,
            viewport: Viewport::new(),
            stats: LogStats::default(),
            input_mode: InputMode::Normal,
            filter_input: String::new(),
            panels: PanelLayout::Single,
            show_help: false,
            device_list: Vec::new(),
            package_filter: None,
            status_message: None,
            should_quit: false,
        };
        assert(app@.device_list =~= Seq::empty());
        app
    }

    /// Takes in one entry: counts it, stores it, adds its index to the crash
    /// index if it is a crash report and to the filtered index if it passes
    /// the filters, prunes both indices of what the store let go, and keeps
    /// a paused viewport on the entries it showed.
    pub fn add_entry(&mut self, entry: LogEntry)
        requires
            old(self).wf(),
            old(self)@.store.next_index() < usize::MAX,
        ensures
            final(self).wf(),
            final(self)@ == old(self)@.with_entry(entry),
    {
        broadcast use vstd::std_specs::vecdeque::axiom_spec_len;

        proof {
            self.store.lemma_wf();
            lemma_select_append(self.store@, Selector::Passing(self.filters@), entry);
            lemma_select_append(self.store@, Selector::Crashes, entry);
        }
        self.stats.record(entry.level);
        let index = self.store.next_index();
        if self.classifier.classify(&entry) {
            self.crashes.push_back(index);
        }
        let on_show = self.filters.matches(&entry);
        if on_show {
            self.filtered.push_back(index);
        }
        self.store.append(entry);
        prune_below(&mut self.filtered, self.store.base());
        prune_below(&mut self.crashes, self.store.base());
        if on_show {
            self.viewport.anchor(self.filtered.len());
        } else {
            self.viewport.clamp(self.filtered.len());
        }
    }

    /// Builds the filtered index anew, whatever it held: afterwards it
    /// holds the absolute indices of exactly the live entries that pass the
    /// filters, in store order, and the offset is brought back inside it.
    /// The store, the filters and the crash index stay as they are. Where
    /// the filtered index was up to date already, nothing changes.
    pub fn refilter(&mut self)
        requires
            old(self).store_wf(),
        ensures
            final(self).wf(),
            final(self)@ == old(self)@.with_filters(old(self)@.filters),
            old(self).settled() ==> final(self)@ == old(self)@,
    {
        broadcast use vstd::std_specs::vecdeque::axiom_spec_len;

        proof {
            self.store.lemma_wf();
        }
        self.filtered.clear();
        let base = self.store.base();
        let count = self.store.len();
        let ghost live = self.store@.live;
        let ghost by = Selector::Passing(self.filters@);
        let mut i: usize = 0;
        while i < count
            invariant
                i <= count == live.len(),
                base + count <= usize::MAX,
                live == self.store@.live,
                base == self.store@.base,
                by == Selector::Passing(self.filters@),
                self.filtered@ == select_from(live.take(i as int), base as nat, by),
                self.store_wf(),
                self@ == (AppView { shown: self.filtered@, ..old(self)@ }),
            decreases count - i,
        {
            proof {
                lemma_select_push(live.take(i as int), base as nat, by, live[i as int]);
                assert(live.take(i as int).push(live[i as int]) =~= live.take(i + 1));
            }
            let keep = match self.store.get(base + i) {
                Some(entry) => self.filters.matches(entry),
                None => false,
            };
            if keep {
                self.filtered.push_back(base + i);
            }
            i += 1;
        }
        assert(live.take(count as int) =~= live);
        self.viewport.clamp(self.filtered.len());
    }

    /// Takes one delivery from the reader of the log stream. Returns whether
    /// it was an entry.
    pub fn handle_message(&mut self, message: AdbMessage) -> (taken: bool)
        requires
            old(self).wf(),
            message is Entry ==> old(self)@.store.next_index() < usize::MAX,
        ensures
            final(self).wf(),
            final(self)@ == old(self)@.after_message(message),
            taken == message is Entry,
    {
        match message {
            AdbMessage::Entry(entry) => {
                self.add_entry(entry);
                true
            },
            AdbMessage::UnparsedLine => false,
            AdbMessage::Disconnected(reason) => {
                self.status_message = Some(reason);
                false
            },
        }
    }

    /// Whether the store can take in another entry: whether an absolute
    /// index is left to give.
    pub fn has_room(&self) -> (r: bool)
        requires
            self.wf(),
        ensures
            r == (self@.store.next_index() < usize::MAX),
    {
        self.store.next_index() < usize::MAX
    }

    /// Whether a lookup of the filtered package's process id is due: an id
    /// is wanted, and `elapsed_ms` milliseconds since the last lookup are
    /// at least the polling interval.
    pub fn pid_poll_due(&self, elapsed_ms: u64) -> (due: bool)
        ensures
            due == (self@.wants_pid() && elapsed_ms >= PID_POLL_INTERVAL_MS),
    {
        self.wants_pid() && elapsed_ms >= PID_POLL_INTERVAL_MS
    }

    /// The entry with absolute index `index`, or `None` if it is no longer
    /// live.
    pub fn entry_at(&self, index: usize) -> (r: Option<&LogEntry>)
        ensures
            match r {
                Some(entry) => self@.store.holds(index as nat) && *entry == self@.store.entry(
                    index as nat,
                ),
                None => !self@.store.holds(index as nat),
            },
    {
        self.store.get(index)
    }

    /// Moves the viewport `amount` entries back from the tail, as far as the
    /// filtered index allows.
    pub fn scroll_up(&mut self, amount: usize)
        requires
            old(self).wf(),
        ensures
            final(self).wf(),
            final(self)@ == old(self)@.scrolled_up(amount as int),
    {
        broadcast use vstd::std_specs::vecdeque::axiom_spec_len;

        self.viewport.scroll_up(amount, self.filtered.len());
    }

    /// Moves the viewport `amount` entries towards the tail; reaching it
    /// resumes tailing.
    pub fn scroll_down(&mut self, amount: usize)
        requires
            old(self).wf(),
        ensures
            final(self).wf(),
            final(self)@ == old(self)@.scrolled_down(amount as int),
    {
        self.viewport.scroll_down(amount);
    }

    /// Moves the viewport to the oldest entry on show.
    pub fn scroll_to_top(&mut self)
        requires
            old(self).wf(),
        ensures
            final(self).wf(),
            final(self)@ == old(self)@.at_top(),
    {
        broadcast use vstd::std_specs::vecdeque::axiom_spec_len;

        self.viewport.scroll_to_top(self.filtered.len());
    }

    /// Resumes tailing.
    pub fn scroll_to_bottom(&mut self)
        requires
            old(self).wf(),
        ensures
            final(self).wf(),
            final(self)@ == old(self)@.at_bottom(),
    {
        self.viewport.scroll_to_bottom();
    }

    /// Pauses a tailing viewport, or resumes tailing from a paused one.
    pub fn toggle_pause(&mut self)
        requires
            old(self).wf(),
        ensures
            final(self).wf(),
            final(self)@ == old(self)@.pause_toggled(),
    {
        broadcast use vstd::std_specs::vecdeque::axiom_spec_len;

        self.viewport.toggle_pause(self.filtered.len());
    }

    /// Flips the switch of `level` and builds the filtered index anew.
    pub fn toggle_level(&mut self, level: LogLevel)
        requires
            old(self).wf(),
        ensures
            final(self).wf(),
            final(self)@ == old(self)@.with_filters(old(self)@.filters.toggle(level)),
    {
        self.filters.toggle_level(level);
        self.refilter();
    }

    /// Ends the input with what compiling the typed text gave, for the
    /// pattern mode, and with the process id found for it, for the package
    /// mode; see `AppView::submitted`.
    pub fn submit_with(&mut self, compiled: Option<Pattern>, resolved_pid: Option<u32>)
        requires
            old(self).wf(),
        ensures
            final(self).wf(),
            final(self)@ == old(self)@.submitted(
                match compiled {
                    Some(pattern) => Some(pattern.source()),
                    None => None,
                },
                resolved_pid,
            ),
    {
        match self.input_mode {
            InputMode::Filter => {
                if self.filter_input.as_str().is_empty() {
                    self.filters.regex_filter = None;
                } else {
                    self.filters.install_regex(compiled);
                }
            },
            InputMode::Tag => {
                if self.filter_input.as_str().is_empty() {
                    self.filters.tag_filter = None;
                } else {
                    self.filters.tag_filter = Some(self.filter_input.clone());
                }
            },
            InputMode::Package => {
                if self.filter_input.as_str().is_empty() {
                    self.package_filter = None;
                    self.filters.pid_filter = None;
                } else {
                    if let Some(pid) = resolved_pid {
                        self.filters.pid_filter = Some(pid);
                    }
                    self.package_filter = Some(self.filter_input.clone());
                }
            },
            InputMode::Normal => {},
        }
        self.refilter();
        self.filter_input = String::new();
        self.input_mode = InputMode::Normal;
    }

    /// Whether submitting the typed text calls for a lookup of a package's
    /// process id first: the package mode with a text typed.
    pub fn submit_needs_pid(&self) -> (r: bool)
        ensures
            r == (self@.input_mode == InputMode::Package && self@.filter_input.len() > 0),
    {
        match self.input_mode {
            InputMode::Package => !self.filter_input.as_str().is_empty(),
            _ => false,
        }
    }

    /// Submits the typed text in the current input mode. In the pattern
    /// mode the text is compiled first, and a text that the regex engine
    /// rejects leaves the filters as they were. `resolved_pid` is the
    /// process id found for the text as a package name; it is read in the
    /// package mode only.
    pub fn submit_filter_input(&mut self, resolved_pid: Option<u32>)
        requires
            old(self).wf(),
        ensures
            final(self).wf(),
            final(self)@ == old(self)@.submitted(Some(old(self)@.filter_input), resolved_pid)
                || final(self)@ == old(self)@.submitted(None, resolved_pid),
    {
        let compiled = match self.input_mode {
            InputMode::Filter => Pattern::compile(self.filter_input.as_str()),
            _ => None,
        };
        self.submit_with(compiled, resolved_pid);
    }

    /// Abandons the input.
    pub fn cancel_input(&mut self)
        requires
            old(self).wf(),
        ensures
            final(self).wf(),
            final(self)@ == old(self)@.input_cancelled(),
    {
        self.filter_input = String::new();
        self.input_mode = InputMode::Normal;
    }

    /// Opens every filter again and builds the filtered index anew.
    pub fn clear_all_filters(&mut self)
        requires
            old(self).wf(),
        ensures
            final(self).wf(),
            final(self)@ == old(self)@.filters_cleared(),
    {
        self.filters.reset();
        self.package_filter = None;
        self.filter_input = String::new();
        self.refilter();
    }

    /// Drops all entries, both indices and the counts, and resumes tailing.
    /// Absolute indices start again at 0.
    pub fn clear_logs(&mut self)
        requires
            old(self).wf(),
        ensures
            final(self).wf(),
            final(self)@ == old(self)@.cleared(),
    {
        self.store.clear();
        self.filtered.clear();
        self.crashes.clear();
        self.stats = LogStats::default();
        self.viewport.scroll_to_bottom();
        self.status_message = Some("Buffer cleared".to_owned());
    }

    /// The lines to export: the raw text of each entry on show, in order.
    pub fn export_lines(&self) -> (lines: Vec<String>)
        requires
            self.wf(),
        ensures
            lines.deep_view() == self@.export_text(),
    {
        broadcast use vstd::std_specs::vecdeque::axiom_spec_len;

        proof {
            self.store.lemma_wf();
            lemma_select_exact(
                self.store@.live,
                self.store@.base,
                Selector::Passing(self.filters@),
            );
        }
        let mut lines: Vec<String> = Vec::new();
        let count = self.filtered.len();
        let mut i: usize = 0;
        while i < count
            invariant
                i <= count == self.filtered@.len(),
                lines@.len() == i,
                forall|j: int|
                    0 <= j < self.filtered@.len() ==> self.store@.holds(
                        #[trigger] self.filtered@[j] as nat,
                    ),
                forall|j: int|
                    0 <= j < i ==> (#[trigger] lines@[j])@ == self.store@.entry(
                        self.filtered@[j] as nat,
                    ).raw@,
            decreases count - i,
        {
            let index = self.filtered[i];
            if let Some(entry) = self.store.get(index) {
                lines.push(entry.raw.clone());
            }
            i += 1;
        }
        lines
    }

    /// Reports how an export ended: with the path of the file written, or
    /// with the reason why none was.
    pub fn export_finished(&mut self, outcome: Result<String, String>)
        requires
            old(self).wf(),
        ensures
            final(self).wf(),
            final(self)@ == old(self)@.export_reported(
                match outcome {
                    Ok(path) => Ok(path@),
                    Err(reason) => Err(reason@),
                },
            ),
    {
        let message = match outcome {
            Ok(path) => join_text("Saved to ", path.as_str()),
            Err(reason) => join_text("Export failed: ", reason.as_str()),
        };
        self.status_message = Some(message);
    }

    /// Takes the list of connected devices.
    pub fn refresh_devices(&mut self, devices: Vec<String>)
        requires
            old(self).wf(),
        ensures
            final(self).wf(),
            final(self)@ == (AppView { device_list: devices.deep_view(), ..old(self)@ }),
    {
        self.device_list = devices;
    }

    /// Shows the crash panel, or hides it if it is shown.
    pub fn toggle_crash_panel(&mut self)
        requires
            old(self).wf(),
        ensures
            final(self).wf(),
            final(self)@ == old(self)@.crash_panel_toggled(),
    {
        self.panels = match self.panels {
            PanelLayout::SplitCrash => PanelLayout::Single,
            _ => PanelLayout::SplitCrash,
        };
    }

    /// Shows the device panel, or hides it if it is shown. Returns whether
    /// the panel is now shown, which is when the device list is to be read
    /// anew.
    pub fn toggle_device_panel(&mut self) -> (opened: bool)
        requires
            old(self).wf(),
        ensures
            final(self).wf(),
            final(self)@ == old(self)@.device_panel_toggled(),
            opened == (final(self)@.panels == PanelLayout::SplitDevice),
    {
        match self.panels {
            PanelLayout::SplitDevice => {
                self.panels = PanelLayout::Single;
                false
            },
            _ => {
                self.panels = PanelLayout::SplitDevice;
                true
            },
        }
    }

    /// Whether a package is being filtered by whose process id is not known
    /// yet.
    pub fn wants_pid(&self) -> (r: bool)
        ensures
            r == self@.wants_pid(),
    {
        self.package_filter.is_some() && self.filters.pid_filter.is_none()
    }

    /// Takes what a lookup of the filtered package's process id gave: if an
    /// id was wanted and one was found, it becomes the process filter, the
    /// status reports it and the filtered index is built anew.
    pub fn poll_package_pid(&mut self, resolved: Option<u32>)
        requires
            old(self).wf(),
        ensures
            final(self).wf(),
            final(self)@ == old(self)@.with_resolved_pid(resolved),
    {
        if self.filters.pid_filter.is_some() {
            return ;
        }
        let message = match (&self.package_filter, resolved) {
            (Some(package), Some(pid)) => {
                let found = join_text("Found PID ", decimal_text(pid as u64).as_str());
                let found = found.concat(" for ");
                found.concat(package.as_str())
            },
            _ => {
                return ;
            },
        };
        self.filters.pid_filter = resolved;
        self.status_message = Some(message);
        self.refilter();
    }

    /// The store.
    pub fn store(&self) -> (store: &BoundedLogStore)
        ensures
            store@ == self@.store,
            self.wf() ==> store.wf(),
    {
        &self.store
    }

    /// The filtered index: the absolute indices of the entries on show, in
    /// ascending order.
    pub fn filtered_indices(&self) -> (shown: &VecDeque<usize>)
        ensures
            shown@ == self@.shown,
    {
        &self.filtered
    }

    /// The crash index: the absolute indices of the crash and ANR reports,
    /// in ascending order.
    pub fn crash_indices(&self) -> (crashes: &VecDeque<usize>)
        ensures
            crashes@ == self@.crashes,
    {
        &self.crashes
    }

    /// The active filter set.
    pub fn filters(&self) -> (filters: &FilterSet)
        ensures
            filters@ == self@.filters,
    {
        &self.filters
    }

    /// The viewport's distance from the tail of the filtered index.
    pub fn scroll_offset(&self) -> (offset: usize)
        ensures
            offset == self@.offset,
    {
        self.viewport.offset()
    }

    /// Whether the viewport is tailing or paused.
    pub fn viewport_state(&self) -> (state: ViewportState)
        ensures
            state == Viewport::state_of(self@.offset as int),
    {
        self.viewport.state()
    }

    /// The part of the filtered index that a view of `height` lines shows:
    /// its first position and the position after its last.
    pub fn visible_window(&self, height: usize) -> (range: (usize, usize))
        ensures
            (range.0 as int, range.1 as int) == visible_range(
                self@.offset as int,
                self@.shown.len() as int,
                height as int,
            ),
            range.0 <= range.1 <= self@.shown.len(),
    {
        broadcast use vstd::std_specs::vecdeque::axiom_spec_len;

        self.viewport.window(self.filtered.len(), height)
    }

    /// The counts of the entries taken in since the last clear.
    pub fn stats(&self) -> (stats: &LogStats)
        ensures
            stats.counts@ == self@.counts,
            stats.errors == self@.errors,
    {
        &self.stats
    }

    /// What the keyboard is typing into.
    pub fn input_mode(&self) -> (mode: InputMode)
        ensures
            mode == self@.input_mode,
    {
        self.input_mode
    }

    /// The text typed so far in an input mode.
    pub fn filter_input(&self) -> (text: &str)
        ensures
            text@ == self@.filter_input,
    {
        self.filter_input.as_str()
    }

    /// How the content area is split.
    pub fn panels(&self) -> (panels: PanelLayout)
        ensures
            panels == self@.panels,
    {
        self.panels
    }

    /// Whether the help is shown.
    pub fn show_help(&self) -> (shown: bool)
        ensures
            shown == self@.show_help,
    {
        self.show_help
    }

    /// The connected devices, as last read.
    pub fn device_list(&self) -> (devices: &Vec<String>)
        ensures
            devices.deep_view() == self@.device_list,
    {
        &self.device_list
    }

    /// The package whose process the entries are filtered by, if any.
    pub fn package_filter(&self) -> (package: Option<&String>)
        ensures
            match package {
                Some(name) => self@.package_filter == Some(name@),
                None => self@.package_filter is None,
            },
    {
        match &self.package_filter {
            Some(name) => Some(name),
            None => None,
        }
    }

    /// The status text, if there is one.
    pub fn status_message(&self) -> (status: Option<&String>)
        ensures
            match status {
                Some(message) => self@.status_message == Some(message@),
                None => self@.status_message is None,
            },
    {
        match &self.status_message {
            Some(message) => Some(message),
            None => None,
        }
    }

    /// Whether the viewer was asked to end.
    pub fn should_quit(&self) -> (quit: bool)
        ensures
            quit == self@.should_quit,
    {
        self.should_quit
    }

    /// Sets the status text.
    pub fn set_status(&mut self, message: String)
        requires
            old(self).wf(),
        ensures
            final(self).wf(),
            final(self)@ == (AppView { status_message: Some(message@), ..old(self)@ }),
    {
        self.status_message = Some(message);
    }

    /// Asks for the viewer to end.
    pub fn quit(&mut self)
        requires
            old(self).wf(),
        ensures
            final(self).wf(),
            final(self)@ == (AppView { should_quit: true, ..old(self)@ }),
    {
        self.should_quit = true;
    }

    /// Shows the help, or hides it if it is shown.
    pub fn toggle_help(&mut self)
        requires
            old(self).wf(),
        ensures
            final(self).wf(),
            final(self)@ == (AppView { show_help: !old(self)@.show_help, ..old(self)@ }),
    {
        self.show_help = !self.show_help;
    }

    /// Hides the help.
    pub fn close_help(&mut self)
        requires
            old(self).wf(),
        ensures
            final(self).wf(),
            final(self)@ == (AppView { show_help: false, ..old(self)@ }),
    {
        self.show_help = false;
    }

    /// Starts typing in `mode`, with nothing typed yet.
    pub fn begin_input(&mut self, mode: InputMode)
        requires
            old(self).wf(),
        ensures
            final(self).wf(),
            final(self)@ == (AppView {
                input_mode: mode,
                filter_input: Seq::empty(),
                ..old(self)@
            }),
    {
        self.input_mode = mode;
        self.filter_input = String::new();
    }

    /// Adds `c` to the text typed so far.
    pub fn type_char(&mut self, c: char)
        requires
            old(self).wf(),
        ensures
            final(self).wf(),
            final(self)@ == (AppView {
                filter_input: old(self)@.filter_input.push(c),
                ..old(self)@
            }),
    {
        self.filter_input.push(c);
    }

    /// Takes the last character off the text typed so far, if there is one.
    pub fn erase_char(&mut self)
        requires
            old(self).wf(),
        ensures
            final(self).wf(),
            final(self)@ == (AppView {
                filter_input: if old(self)@.filter_input.len() > 0 {
                    old(self)@.filter_input.drop_last()
                } else {
                    old(self)@.filter_input
                },
                ..old(self)@
            }),
    {
        let _ = self.filter_input.pop();
    }
}

/// The filtered index is always a strictly increasing sequence of indices
/// that are live in the store, the entry of each passes the active filter
/// set, and no live entry that passes is missing from it.
pub proof fn lemma_filtered_index_exact(state: AppView)
    requires
        state.consistent(),
    ensures
        strictly_increasing(state.shown),
        forall|j: int|
            0 <= j < state.shown.len() ==> {
                let index = #[trigger] state.shown[j] as nat;
                state.store.holds(index) && state.filters.admits(state.store.entry(index)@)
            },
        forall|index: nat|
            #[trigger] state.store.holds(index) && state.filters.admits(state.store.entry(index)@)
                ==> state.shown.contains(index as usize),
{
    let by = Selector::Passing(state.filters);
    lemma_select_exact(state.store.live, state.store.base, by);
    assert forall|index: nat|
        #[trigger] state.store.holds(index) && state.filters.admits(
            state.store.entry(index)@,
        ) implies state.shown.contains(index as usize) by {}
}

/// The crash index holds every live entry of level `Error` or `Fatal`, and
/// holds no entry that is neither of such a level nor matched by the crash
/// signature; its indices are live and strictly increasing.
pub proof fn lemma_crash_index_exact(state: AppView)
    requires
        state.consistent(),
    ensures
        strictly_increasing(state.crashes),
        forall|index: nat|
            #[trigger] state.store.holds(index) && state.store.entry(index).level.is_severe()
                ==> state.crashes.contains(index as usize),
        forall|j: int|
            0 <= j < state.crashes.len() ==> {
                let index = #[trigger] state.crashes[j] as nat;
                &&& state.store.holds(index)
                &&& CrashClassifier::flags(state.store.entry(index)@)
            },
{
    let by = Selector::Crashes;
    lemma_select_exact(state.store.live, state.store.base, by);
    assert forall|index: nat|
        #[trigger] state.store.holds(index) && state.store.entry(
            index,
        ).level.is_severe() implies state.crashes.contains(index as usize) by {
        let i = index - state.store.base;
        assert(by.keeps(state.store.live[i]@));
    }
}

/// Building the filtered index anew is idempotent: doing it twice for the
/// same filter set over the same store gives what doing it once gives.
pub proof fn lemma_refilter_idempotent(state: AppView, filters: FilterView)
    ensures
        state.with_filters(filters).with_filters(filters) == state.with_filters(filters),
{
}

/// On a state whose filtered index is up to date, building it anew changes
/// nothing.
pub proof fn lemma_refilter_settled(state: AppView)
    requires
        state.consistent(),
    ensures
        state.with_filters(state.filters) == state,
{
}

/// Taking in an entry keeps the state consistent: both indices stay exact
/// and the offset stays inside the filtered index.
pub proof fn lemma_entry_keeps_consistent(state: AppView, entry: LogEntry)
    requires
        state.consistent(),
        state.store.next_index() < usize::MAX,
    ensures
        state.with_entry(entry).consistent(),
{
}

/// Changing the filter set keeps the state consistent.
pub proof fn lemma_filters_keep_consistent(state: AppView, filters: FilterView)
    requires
        state.consistent(),
    ensures
        state.with_filters(filters).consistent(),
{
}

/// The offset stays inside the filtered index: it is at most the number of
/// entries on show less one, and 0 when none is on show.
pub proof fn lemma_offset_in_range(state: AppView)
    requires
        state.consistent(),
    ensures
        0 <= state.offset <= max_offset(state.shown.len() as int),
        state.shown.len() == 0 ==> state.offset == 0,
{
}

/// While the view is paused, the arrival of an entry that is on show leaves
/// the visible entries exactly as they were, unless the entry that the
/// store lets go in exchange is one of them.
pub proof fn lemma_paused_view_keeps_entries(state: AppView, entry: LogEntry, height: int)
    requires
        state.consistent(),
        state.store.next_index() < usize::MAX,
        state.offset > 0,
        state.filters.admits(entry@),
        0 <= height,
        state.store.live.len() < state.store.capacity || !visible(
            state.shown,
            state.offset as int,
            height,
        ).contains(state.store.base as usize),
    ensures
        visible(
            state.with_entry(entry).shown,
            state.with_entry(entry).offset as int,
            height,
        ) == visible(state.shown, state.offset as int, height),
        height > 0 ==> state.with_entry(entry).offset == state.offset + 1,
{
    let by = Selector::Passing(state.filters);
    let after = state.with_entry(entry);
    let grown = state.shown.push(state.store.next_index() as usize);
    lemma_select_append(state.store, by, entry);
    lemma_select_exact(state.store.live, state.store.base, by);
    assert forall|j: int| 1 <= j < grown.len() implies #[trigger] grown[j] >= after.store.base by {}
    lemma_pruned_head(grown, after.store.base);
    if grown[0] < after.store.base && height > 0 {
        let start = visible_range(state.offset as int, state.shown.len() as int, height).0;
        assert(start >= 1) by {
            if start == 0 {
                assert(visible(state.shown, state.offset as int, height)[0] == state.shown[0]);
            }
        }
    }
    assert(visible(after.shown, after.offset as int, height) =~= visible(
        state.shown,
        state.offset as int,
        height,
    ));
}

/// One change to what the viewer shows.
pub enum Change {
    /// An entry arrives.
    Arrival(LogEntry),
    /// The filter set becomes the given one.
    Filters(FilterView),
    /// The view moves back from the tail by the given number of entries.
    ScrollUp(nat),
    /// The view moves towards the tail by the given number of entries.
    ScrollDown(nat),
    /// The view moves to the oldest entry on show.
    Top,
    /// The view resumes tailing.
    Bottom,
    /// The pause key.
    Pause,
    /// The log is cleared.
    Clear,
}

impl AppView {
    /// The state after one change.
    pub open spec fn after(self, change: Change) -> AppView {
        match change {
            Change::Arrival(entry) => self.with_entry(entry),
            Change::Filters(filters) => self.with_filters(filters),
            Change::ScrollUp(amount) => self.scrolled_up(amount as int),
            Change::ScrollDown(amount) => self.scrolled_down(amount as int),
            Change::Top => self.at_top(),
            Change::Bottom => self.at_bottom(),
            Change::Pause => self.pause_toggled(),
            Change::Clear => self.cleared(),
        }
    }

    /// The state after the given changes, in order.
    pub open spec fn after_all(self, changes: Seq<Change>) -> AppView
        decreases changes.len(),
    {
        if changes.len() == 0 {
            self
        } else {
            self.after_all(changes.drop_last()).after(changes.last())
        }
    }
}

/// After any sequence of arrivals, filter changes, scrolling and clearing,
/// in any order, the state is consistent: the filtered index and the crash
/// index are exact and the offset stays inside the filtered index. The
/// sequence has to leave absolute indices to give: it is no longer than
/// the number of indices not yet given.
pub proof fn lemma_changes_keep_consistent(state: AppView, changes: Seq<Change>)
    requires
        state.consistent(),
        state.store.next_index() + changes.len() <= usize::MAX,
    ensures
        state.after_all(changes).consistent(),
        state.after_all(changes).store.next_index() <= state.store.next_index() + changes.len(),
    decreases changes.len(),
{
    if changes.len() > 0 {
        let before = state.after_all(changes.drop_last());
        lemma_changes_keep_consistent(state, changes.drop_last());
        match changes.last() {
            Change::Arrival(entry) => {
                lemma_entry_keeps_consistent(before, entry);
            },
            Change::Filters(filters) => {
                lemma_filters_keep_consistent(before, filters);
            },
            _ => {},
        }
    }
}

} // verus!
