use colored_logcat::adb::AdbMessage;
use colored_logcat::app::{App, InputMode, LogStats, PanelLayout};
use colored_logcat::filter::CrashClassifier;
use colored_logcat::parser::{LogEntry, LogLevel};
use colored_logcat::viewport::ViewportState;

const CAPACITY: usize = 10_000;

fn viewer() -> App {
    App::new(CAPACITY, CrashClassifier::new().expect("the crash signature compiles"))
}

fn entry(pid: u32, level: char, tag: &str, message: &str) -> LogEntry {
    LogEntry::parse(&format!("01-01 00:00:01.000 {pid} {pid} {level} {tag}: {message}"))
        .expect("the line follows the grammar")
}

fn shown(app: &App) -> Vec<usize> {
    app.filtered_indices().iter().copied().collect()
}

fn crashes(app: &App) -> Vec<usize> {
    app.crash_indices().iter().copied().collect()
}

fn visible(app: &App, height: usize) -> Vec<usize> {
    let (start, end) = app.visible_window(height);
    shown(app)[start..end].to_vec()
}

fn type_text(app: &mut App, text: &str) {
    for c in text.chars() {
        app.type_char(c);
    }
}

fn check_invariants(app: &App) {
    let store = app.store();
    let list = shown(app);
    for pair in list.windows(2) {
        assert!(pair[0] < pair[1]);
    }
    for &index in &list {
        let e = store.get(index).expect("an index on show is live");
        assert!(app.filters().matches(e));
    }
    let mut expected = Vec::new();
    for index in store.base()..store.base() + store.len() {
        if app.filters().matches(store.get(index).expect("live")) {
            expected.push(index);
        }
    }
    assert_eq!(list, expected);
    let crash_list = crashes(app);
    for pair in crash_list.windows(2) {
        assert!(pair[0] < pair[1]);
    }
    for index in store.base()..store.base() + store.len() {
        let e = store.get(index).expect("live");
        if e.level >= LogLevel::Error {
            assert!(crash_list.contains(&index));
        }
    }
    for &index in &crash_list {
        assert!(store.get(index).is_some());
    }
    assert!(app.scroll_offset() <= list.len().saturating_sub(1));
}

#[test]
fn a_new_viewer_is_empty_and_tails() {
    let app = viewer();
    assert_eq!(app.store().len(), 0);
    assert_eq!(app.store().capacity(), CAPACITY);
    assert!(shown(&app).is_empty());
    assert!(crashes(&app).is_empty());
    assert_eq!(app.scroll_offset(), 0);
    assert_eq!(app.viewport_state(), ViewportState::Tailing);
    assert_eq!(app.input_mode(), InputMode::Normal);
    assert_eq!(app.filter_input(), "");
    assert_eq!(app.panels(), PanelLayout::Single);
    assert!(!app.show_help());
    assert!(app.device_list().is_empty());
    assert!(app.package_filter().is_none());
    assert!(app.status_message().is_none());
    assert!(!app.should_quit());
    assert_eq!(app.stats().counts, [0; 6]);
    assert_eq!(app.stats().errors, 0);
    assert_eq!(app.filters().level_toggles, [true; 6]);
    check_invariants(&app);
}

#[test]
fn a_requested_capacity_is_clamped() {
    let small = App::new(1, CrashClassifier::new().expect("compiles"));
    assert_eq!(small.store().capacity(), 10_000);
    let large = App::new(usize::MAX, CrashClassifier::new().expect("compiles"));
    assert_eq!(large.store().capacity(), 2_000_000);
}

#[test]
fn entries_are_indexed_counted_and_classified() {
    let mut app = viewer();
    app.add_entry(entry(1, 'I', "A", "one"));
    app.add_entry(entry(1, 'E', "B", "two"));
    app.add_entry(entry(1, 'W', "C", "FATAL EXCEPTION: main"));
    app.add_entry(entry(1, 'F', "D", "four"));
    app.add_entry(entry(1, 'V', "E", "five"));
    assert_eq!(shown(&app), vec![0, 1, 2, 3, 4]);
    assert_eq!(crashes(&app), vec![1, 2, 3]);
    assert_eq!(app.stats().counts, [1, 0, 1, 1, 1, 1]);
    assert_eq!(app.stats().errors, 2);
    assert_eq!(app.entry_at(2).expect("live").tag, "C");
    assert!(app.entry_at(5).is_none());
    check_invariants(&app);
}

#[test]
fn the_error_line_leaves_the_crash_index_when_it_is_evicted() {
    let mut app = viewer();
    app.add_entry(
        LogEntry::parse("01-01 00:00:01.000 100 100 E MyApp: boom").expect("matches"),
    );
    assert_eq!(crashes(&app), vec![0]);
    for n in 0..CAPACITY - 1 {
        app.add_entry(entry(100, 'V', &format!("Tag{n}"), "quiet"));
        assert_eq!(crashes(&app).len(), 1);
    }
    assert_eq!(app.store().len(), CAPACITY);
    assert_eq!(app.store().base(), 0);
    assert_eq!(app.entry_at(0).expect("still live").message, "boom");
    assert_eq!(shown(&app).len(), CAPACITY);

    app.add_entry(entry(100, 'V', "Last", "quiet"));
    assert_eq!(app.store().len(), CAPACITY);
    assert_eq!(app.store().base(), 1);
    assert!(app.entry_at(0).is_none());
    assert_eq!(crashes(&app).len(), 0);
    assert_eq!(shown(&app).len(), CAPACITY);
    assert_eq!(shown(&app)[0], 1);
    assert_eq!(app.stats().errors, 1);
    assert_eq!(app.stats().counts, [CAPACITY, 0, 0, 0, 1, 0]);
    check_invariants(&app);
}

#[test]
fn a_level_switched_off_hides_new_entries_until_it_is_switched_on() {
    let mut app = viewer();
    app.add_entry(entry(1, 'D', "A", "first"));
    app.toggle_level(LogLevel::Info);
    let before = shown(&app).len();
    app.add_entry(entry(1, 'I', "B", "hidden for now"));
    assert_eq!(shown(&app).len(), before);
    assert_eq!(shown(&app), vec![0]);
    check_invariants(&app);

    app.toggle_level(LogLevel::Info);
    app.refilter();
    assert_eq!(shown(&app), vec![0, 1]);
    check_invariants(&app);
}

#[test]
fn building_the_filtered_index_twice_changes_nothing() {
    let mut app = viewer();
    for n in 0..50 {
        let level = ['V', 'D', 'I', 'W', 'E', 'F'][n % 6];
        app.add_entry(entry(n as u32, level, &format!("Tag{n}"), "text"));
    }
    app.toggle_level(LogLevel::Debug);
    app.scroll_up(5);
    app.refilter();
    let once = shown(&app);
    let offset = app.scroll_offset();
    app.refilter();
    assert_eq!(shown(&app), once);
    assert_eq!(app.scroll_offset(), offset);
    assert_eq!(once.len(), 41);
    check_invariants(&app);
}

#[test]
fn the_crash_index_does_not_follow_the_filters() {
    let mut app = viewer();
    app.add_entry(entry(1, 'E', "A", "bad"));
    app.add_entry(entry(1, 'I', "B", "fine"));
    app.add_entry(entry(1, 'I', "C", "ANR in app"));
    app.toggle_level(LogLevel::Error);
    app.toggle_level(LogLevel::Info);
    assert!(shown(&app).is_empty());
    assert_eq!(crashes(&app), vec![0, 2]);
    check_invariants(&app);
}

#[test]
fn a_paused_view_stays_on_its_entries_when_a_matching_entry_arrives() {
    let mut app = viewer();
    for n in 0..20 {
        app.add_entry(entry(1, 'I', "T", &format!("m{n}")));
    }
    app.toggle_pause();
    assert_eq!(app.scroll_offset(), 1);
    assert_eq!(app.viewport_state(), ViewportState::Paused(1));
    let before = visible(&app, 5);
    assert_eq!(before, vec![14, 15, 16, 17, 18]);

    app.add_entry(entry(1, 'I', "T", "new"));
    assert_eq!(app.scroll_offset(), 2);
    assert_eq!(visible(&app, 5), before);
    check_invariants(&app);
}

#[test]
fn a_paused_view_is_not_moved_by_an_entry_that_is_filtered_out() {
    let mut app = viewer();
    for n in 0..20 {
        app.add_entry(entry(1, 'I', "T", &format!("m{n}")));
    }
    app.toggle_level(LogLevel::Debug);
    app.scroll_up(3);
    let before = visible(&app, 5);
    app.add_entry(entry(1, 'D', "T", "hidden"));
    assert_eq!(app.scroll_offset(), 3);
    assert_eq!(visible(&app, 5), before);
}

#[test]
fn a_tailing_view_follows_new_entries() {
    let mut app = viewer();
    for n in 0..20 {
        app.add_entry(entry(1, 'I', "T", &format!("m{n}")));
    }
    assert_eq!(visible(&app, 5), vec![15, 16, 17, 18, 19]);
    app.add_entry(entry(1, 'I', "T", "new"));
    assert_eq!(app.scroll_offset(), 0);
    assert_eq!(visible(&app, 5), vec![16, 17, 18, 19, 20]);
}

#[test]
fn the_offset_stays_inside_the_filtered_index() {
    let mut app = viewer();
    app.toggle_pause();
    assert_eq!(app.scroll_offset(), 0);
    app.scroll_up(10);
    assert_eq!(app.scroll_offset(), 0);
    app.scroll_to_top();
    assert_eq!(app.scroll_offset(), 0);
    app.add_entry(entry(1, 'I', "T", "only"));
    app.toggle_pause();
    assert_eq!(app.scroll_offset(), 0);
    for n in 0..9 {
        app.add_entry(entry(1, if n % 2 == 0 { 'D' } else { 'I' }, "T", "more"));
    }
    app.scroll_to_top();
    assert_eq!(app.scroll_offset(), 9);
    app.toggle_level(LogLevel::Debug);
    assert_eq!(shown(&app).len(), 5);
    assert_eq!(app.scroll_offset(), 4);
    app.scroll_up(usize::MAX);
    assert_eq!(app.scroll_offset(), 4);
    app.scroll_down(1);
    assert_eq!(app.scroll_offset(), 3);
    app.scroll_down(usize::MAX);
    assert_eq!(app.scroll_offset(), 0);
    app.scroll_up(2);
    app.toggle_level(LogLevel::Info);
    assert!(shown(&app).is_empty());
    assert_eq!(app.scroll_offset(), 0);
    check_invariants(&app);
}

#[test]
fn eviction_keeps_the_offset_inside_a_shrinking_index() {
    let mut app = viewer();
    for n in 0..CAPACITY {
        app.add_entry(entry(1, if n < 3 { 'I' } else { 'D' }, "T", "x"));
    }
    app.toggle_level(LogLevel::Debug);
    assert_eq!(shown(&app), vec![0, 1, 2]);
    app.scroll_to_top();
    assert_eq!(app.scroll_offset(), 2);
    app.add_entry(entry(1, 'D', "T", "x"));
    assert_eq!(shown(&app), vec![1, 2]);
    assert_eq!(app.scroll_offset(), 1);
    app.add_entry(entry(1, 'D', "T", "x"));
    app.add_entry(entry(1, 'D', "T", "x"));
    assert!(shown(&app).is_empty());
    assert_eq!(app.scroll_offset(), 0);
    check_invariants(&app);
}

#[test]
fn invariants_hold_through_a_mix_of_operations() {
    let mut app = viewer();
    let levels = ['V', 'D', 'I', 'W', 'E', 'F'];
    for n in 0..CAPACITY + 500 {
        let level = levels[(n * 7 + n / 3) % 6];
        let message = if n % 97 == 0 { "app crash detected" } else { "routine" };
        app.add_entry(entry((n % 5) as u32, level, &format!("Tag{}", n % 11), message));
        if n % 1000 == 0 {
            app.toggle_level(LogLevel::Debug);
        }
        if n % 1500 == 0 {
            app.scroll_up(n % 40);
        }
        if n % 2500 == 0 {
            check_invariants(&app);
        }
    }
    app.begin_input(InputMode::Tag);
    type_text(&mut app, "Tag1");
    app.submit_filter_input(None);
    check_invariants(&app);
    app.begin_input(InputMode::Filter);
    type_text(&mut app, "^rout");
    app.submit_filter_input(None);
    check_invariants(&app);
    app.begin_input(InputMode::Package);
    type_text(&mut app, "com.example");
    app.submit_filter_input(Some(3));
    check_invariants(&app);
    assert!(!shown(&app).is_empty());
    app.clear_all_filters();
    check_invariants(&app);
    assert_eq!(shown(&app).len(), CAPACITY);
}

#[test]
fn submitting_a_tag_sets_or_clears_the_tag_filter() {
    let mut app = viewer();
    app.add_entry(entry(1, 'I', "Alpha", "x"));
    app.add_entry(entry(1, 'I', "Beta", "x"));
    app.begin_input(InputMode::Tag);
    assert_eq!(app.input_mode(), InputMode::Tag);
    type_text(&mut app, "Bet");
    assert_eq!(app.filter_input(), "Bet");
    app.submit_filter_input(None);
    assert_eq!(app.input_mode(), InputMode::Normal);
    assert_eq!(app.filter_input(), "");
    assert_eq!(app.filters().tag_filter.as_deref(), Some("Bet"));
    assert_eq!(shown(&app), vec![1]);

    app.begin_input(InputMode::Tag);
    app.submit_filter_input(None);
    assert!(app.filters().tag_filter.is_none());
    assert_eq!(shown(&app), vec![0, 1]);
}

#[test]
fn submitting_a_pattern_sets_it_and_a_bad_one_is_passed_over() {
    let mut app = viewer();
    app.add_entry(entry(1, 'I', "Alpha", "needle here"));
    app.add_entry(entry(1, 'I', "Beta", "hay"));
    app.begin_input(InputMode::Filter);
    type_text(&mut app, "ne+dle");
    app.submit_filter_input(None);
    assert_eq!(app.filters().regex_filter.as_ref().expect("set").as_str(), "ne+dle");
    assert_eq!(shown(&app), vec![0]);

    app.begin_input(InputMode::Filter);
    type_text(&mut app, "(((");
    app.submit_filter_input(None);
    assert_eq!(app.input_mode(), InputMode::Normal);
    assert_eq!(app.filter_input(), "");
    assert_eq!(app.filters().regex_filter.as_ref().expect("kept").as_str(), "ne+dle");
    assert_eq!(shown(&app), vec![0]);

    app.begin_input(InputMode::Filter);
    app.submit_filter_input(None);
    assert!(app.filters().regex_filter.is_none());
    assert_eq!(shown(&app), vec![0, 1]);
}

#[test]
fn submitting_a_package_filters_by_the_process_found() {
    let mut app = viewer();
    app.add_entry(entry(10, 'I', "A", "x"));
    app.add_entry(entry(20, 'I', "B", "x"));
    app.begin_input(InputMode::Package);
    type_text(&mut app, "com.example");
    assert!(app.submit_needs_pid());
    app.submit_filter_input(Some(20));
    assert_eq!(app.package_filter().map(|s| s.as_str()), Some("com.example"));
    assert_eq!(app.filters().pid_filter, Some(20));
    assert_eq!(shown(&app), vec![1]);
    assert!(!app.wants_pid());

    app.begin_input(InputMode::Package);
    assert!(!app.submit_needs_pid());
    app.submit_filter_input(None);
    assert!(app.package_filter().is_none());
    assert!(app.filters().pid_filter.is_none());
    assert_eq!(shown(&app), vec![0, 1]);
}

#[test]
fn a_package_without_a_process_waits_for_the_poll() {
    let mut app = viewer();
    app.add_entry(entry(10, 'I', "A", "x"));
    app.add_entry(entry(20, 'I', "B", "x"));
    assert!(!app.wants_pid());
    assert!(!app.pid_poll_due(5000));
    app.begin_input(InputMode::Package);
    type_text(&mut app, "com.example");
    app.submit_filter_input(None);
    assert_eq!(app.package_filter().map(|s| s.as_str()), Some("com.example"));
    assert!(app.filters().pid_filter.is_none());
    assert_eq!(shown(&app), vec![0, 1]);
    assert!(app.wants_pid());
    assert!(!app.pid_poll_due(1999));
    assert!(app.pid_poll_due(2000));

    app.poll_package_pid(None);
    assert!(app.filters().pid_filter.is_none());
    assert!(app.status_message().is_none());

    app.poll_package_pid(Some(10));
    assert_eq!(app.filters().pid_filter, Some(10));
    assert_eq!(
        app.status_message().map(|s| s.as_str()),
        Some("Found PID 10 for com.example")
    );
    assert_eq!(shown(&app), vec![0]);
    assert!(!app.pid_poll_due(9999));

    app.poll_package_pid(Some(20));
    assert_eq!(app.filters().pid_filter, Some(10));
}

#[test]
fn a_poll_without_a_package_does_nothing() {
    let mut app = viewer();
    app.add_entry(entry(10, 'I', "A", "x"));
    app.poll_package_pid(Some(10));
    assert!(app.filters().pid_filter.is_none());
    assert!(app.status_message().is_none());
    assert_eq!(shown(&app), vec![0]);
}

#[test]
fn cancelling_drops_the_typed_text() {
    let mut app = viewer();
    app.begin_input(InputMode::Filter);
    type_text(&mut app, "abc");
    app.erase_char();
    assert_eq!(app.filter_input(), "ab");
    app.cancel_input();
    assert_eq!(app.input_mode(), InputMode::Normal);
    assert_eq!(app.filter_input(), "");
    assert!(app.filters().regex_filter.is_none());
    app.erase_char();
    assert_eq!(app.filter_input(), "");
}

#[test]
fn clearing_the_log_restarts_everything_but_the_filters() {
    let mut app = viewer();
    for n in 0..30 {
        app.add_entry(entry(1, 'E', "T", &format!("m{n}")));
    }
    app.toggle_level(LogLevel::Debug);
    app.scroll_up(4);
    app.clear_logs();
    assert_eq!(app.store().len(), 0);
    assert_eq!(app.store().base(), 0);
    assert!(shown(&app).is_empty());
    assert!(crashes(&app).is_empty());
    assert_eq!(app.stats().counts, [0; 6]);
    assert_eq!(app.stats().errors, 0);
    assert_eq!(app.scroll_offset(), 0);
    assert_eq!(app.status_message().map(|s| s.as_str()), Some("Buffer cleared"));
    assert_eq!(app.filters().level_toggles, [true, false, true, true, true, true]);
    app.add_entry(entry(1, 'I', "T", "again"));
    assert_eq!(shown(&app), vec![0]);
    check_invariants(&app);
}

#[test]
fn exports_the_raw_lines_on_show() {
    let mut app = viewer();
    app.add_entry(entry(1, 'I', "A", "one"));
    app.add_entry(entry(2, 'D', "B", "two"));
    app.add_entry(entry(3, 'I', "C", "three"));
    app.toggle_level(LogLevel::Debug);
    assert_eq!(
        app.export_lines(),
        vec![
            "01-01 00:00:01.000 1 1 I A: one".to_string(),
            "01-01 00:00:01.000 3 3 I C: three".to_string(),
        ]
    );
    app.export_finished(Ok("./logcat_2024-01-01_00-00-00.txt".to_string()));
    assert_eq!(
        app.status_message().map(|s| s.as_str()),
        Some("Saved to ./logcat_2024-01-01_00-00-00.txt")
    );
    app.export_finished(Err("Failed to create file: denied".to_string()));
    assert_eq!(
        app.status_message().map(|s| s.as_str()),
        Some("Export failed: Failed to create file: denied")
    );
    assert_eq!(shown(&app), vec![0, 2]);
}

#[test]
fn panels_toggle() {
    let mut app = viewer();
    app.toggle_crash_panel();
    assert_eq!(app.panels(), PanelLayout::SplitCrash);
    app.toggle_crash_panel();
    assert_eq!(app.panels(), PanelLayout::Single);
    assert!(app.toggle_device_panel());
    assert_eq!(app.panels(), PanelLayout::SplitDevice);
    app.toggle_crash_panel();
    assert_eq!(app.panels(), PanelLayout::SplitCrash);
    assert!(app.toggle_device_panel());
    assert!(!app.toggle_device_panel());
    assert_eq!(app.panels(), PanelLayout::Single);
    app.refresh_devices(vec!["emulator-5554 device".to_string()]);
    assert_eq!(app.device_list(), &vec!["emulator-5554 device".to_string()]);
}

#[test]
fn help_status_and_quit() {
    let mut app = viewer();
    app.toggle_help();
    assert!(app.show_help());
    app.toggle_help();
    assert!(!app.show_help());
    app.toggle_help();
    app.close_help();
    assert!(!app.show_help());
    app.set_status("ADB error: not found".to_string());
    assert_eq!(app.status_message().map(|s| s.as_str()), Some("ADB error: not found"));
    app.quit();
    assert!(app.should_quit());
}

#[test]
fn messages_from_the_reader() {
    let mut app = viewer();
    assert!(app.has_room());
    assert!(app.handle_message(AdbMessage::Entry(entry(1, 'I', "A", "x"))));
    assert!(!app.handle_message(AdbMessage::UnparsedLine));
    assert_eq!(app.store().len(), 1);
    assert!(app.status_message().is_none());
    assert!(!app.handle_message(AdbMessage::Disconnected("ADB process ended".to_string())));
    assert_eq!(app.status_message().map(|s| s.as_str()), Some("ADB process ended"));
    assert_eq!(app.store().len(), 1);
}

#[test]
fn stats_record_each_level() {
    let mut stats = LogStats::default();
    stats.record(LogLevel::Verbose);
    stats.record(LogLevel::Error);
    stats.record(LogLevel::Fatal);
    stats.record(LogLevel::Fatal);
    stats.record(LogLevel::Warn);
    assert_eq!(stats.counts, [1, 0, 0, 1, 1, 2]);
    assert_eq!(stats.errors, 3);
}
