use colored_logcat::app::{App, InputMode, PanelLayout};
use colored_logcat::filter::CrashClassifier;
use colored_logcat::input::{
    digit_level, handle_event, handle_input_key, handle_mouse, handle_normal_key,
    handle_offline_event, Key, Pointer, Request, TerminalEvent, PAGE_SCROLL_LINES,
    POINTER_SCROLL_LINES,
};
use colored_logcat::parser::{LogEntry, LogLevel};

fn viewer_with(entries: usize) -> App {
    let mut app = App::new(10_000, CrashClassifier::new().expect("the signature compiles"));
    for n in 0..entries {
        app.add_entry(
            LogEntry::parse(&format!("01-01 00:00:01.000 1 1 I Tag{n}: message {n}"))
                .expect("the line follows the grammar"),
        );
    }
    app
}

fn press(key: Key) -> TerminalEvent {
    TerminalEvent::Key { key, control: false, pressed: true }
}

#[test]
fn digit_keys_stand_for_levels() {
    assert_eq!(digit_level('1'), Some(LogLevel::Verbose));
    assert_eq!(digit_level('2'), Some(LogLevel::Debug));
    assert_eq!(digit_level('3'), Some(LogLevel::Info));
    assert_eq!(digit_level('4'), Some(LogLevel::Warn));
    assert_eq!(digit_level('5'), Some(LogLevel::Error));
    assert_eq!(digit_level('6'), Some(LogLevel::Fatal));
    assert_eq!(digit_level('0'), None);
    assert_eq!(digit_level('7'), None);
    assert_eq!(PAGE_SCROLL_LINES, 20);
    assert_eq!(POINTER_SCROLL_LINES, 1);
}

#[test]
fn command_keys_scroll() {
    let mut app = viewer_with(100);
    assert_eq!(handle_normal_key(&mut app, Key::Up), Request::Nothing);
    assert_eq!(app.scroll_offset(), 1);
    handle_normal_key(&mut app, Key::Char('k'));
    assert_eq!(app.scroll_offset(), 2);
    handle_normal_key(&mut app, Key::PageUp);
    assert_eq!(app.scroll_offset(), 22);
    handle_normal_key(&mut app, Key::Down);
    assert_eq!(app.scroll_offset(), 21);
    handle_normal_key(&mut app, Key::Char('j'));
    assert_eq!(app.scroll_offset(), 20);
    handle_normal_key(&mut app, Key::PageDown);
    assert_eq!(app.scroll_offset(), 0);
    handle_normal_key(&mut app, Key::Home);
    assert_eq!(app.scroll_offset(), 99);
    handle_normal_key(&mut app, Key::End);
    assert_eq!(app.scroll_offset(), 0);
    handle_normal_key(&mut app, Key::Home);
    handle_normal_key(&mut app, Key::Char('G'));
    assert_eq!(app.scroll_offset(), 0);
    handle_normal_key(&mut app, Key::Char(' '));
    assert_eq!(app.scroll_offset(), 1);
    handle_normal_key(&mut app, Key::Char(' '));
    assert_eq!(app.scroll_offset(), 0);
}

#[test]
fn command_keys_toggle_levels_and_panels() {
    let mut app = viewer_with(3);
    assert_eq!(handle_normal_key(&mut app, Key::Char('3')), Request::Nothing);
    assert_eq!(app.filters().level_toggles, [true, true, false, true, true, true]);
    assert!(app.filtered_indices().is_empty());
    handle_normal_key(&mut app, Key::Char('3'));
    assert_eq!(app.filtered_indices().len(), 3);
    assert_eq!(handle_normal_key(&mut app, Key::Char('x')), Request::Nothing);
    assert_eq!(app.panels(), PanelLayout::SplitCrash);
    assert_eq!(handle_normal_key(&mut app, Key::Char('d')), Request::ListDevices);
    assert_eq!(app.panels(), PanelLayout::SplitDevice);
    assert_eq!(handle_normal_key(&mut app, Key::Char('d')), Request::Nothing);
    assert_eq!(app.panels(), PanelLayout::Single);
    handle_normal_key(&mut app, Key::Char('h'));
    assert!(app.show_help());
    handle_normal_key(&mut app, Key::Char('?'));
    assert!(!app.show_help());
}

#[test]
fn command_keys_start_an_input() {
    let mut app = viewer_with(0);
    handle_normal_key(&mut app, Key::Char('/'));
    assert_eq!(app.input_mode(), InputMode::Filter);
    app.cancel_input();
    handle_normal_key(&mut app, Key::Char('t'));
    assert_eq!(app.input_mode(), InputMode::Tag);
    app.cancel_input();
    handle_normal_key(&mut app, Key::Char('p'));
    assert_eq!(app.input_mode(), InputMode::Package);
    assert_eq!(app.filter_input(), "");
}

#[test]
fn command_keys_ask_for_outside_work() {
    let mut app = viewer_with(5);
    assert_eq!(handle_normal_key(&mut app, Key::Char('s')), Request::Export);
    assert_eq!(app.store().len(), 5);
    assert_eq!(handle_normal_key(&mut app, Key::Char('c')), Request::ClearRemoteBuffer);
    assert_eq!(app.store().len(), 0);
    assert_eq!(app.status_message().map(|s| s.as_str()), Some("Buffer cleared"));
    assert_eq!(handle_normal_key(&mut app, Key::Char('q')), Request::Nothing);
    assert!(app.should_quit());
}

#[test]
fn escape_closes_the_help_or_clears_the_filters() {
    let mut app = viewer_with(4);
    handle_normal_key(&mut app, Key::Char('1'));
    handle_normal_key(&mut app, Key::Char('3'));
    assert!(app.filtered_indices().is_empty());
    handle_normal_key(&mut app, Key::Char('h'));
    handle_normal_key(&mut app, Key::Esc);
    assert!(!app.show_help());
    assert!(app.filtered_indices().is_empty());
    assert!(app.status_message().is_none());
    handle_normal_key(&mut app, Key::Esc);
    assert_eq!(app.filters().level_toggles, [true; 6]);
    assert_eq!(app.filtered_indices().len(), 4);
    assert_eq!(app.status_message().map(|s| s.as_str()), Some("Filters cleared"));
}

#[test]
fn other_command_keys_do_nothing() {
    let mut app = viewer_with(4);
    for key in [Key::Char('z'), Key::Char('7'), Key::Enter, Key::Backspace, Key::Other] {
        assert_eq!(handle_normal_key(&mut app, key), Request::Nothing);
    }
    assert_eq!(app.scroll_offset(), 0);
    assert_eq!(app.input_mode(), InputMode::Normal);
    assert_eq!(app.filtered_indices().len(), 4);
    assert!(!app.should_quit());
}

#[test]
fn input_keys_edit_and_submit() {
    let mut app = viewer_with(12);
    app.begin_input(InputMode::Tag);
    for c in "Tag1x".chars() {
        assert_eq!(handle_input_key(&mut app, Key::Char(c)), Request::Nothing);
    }
    assert_eq!(handle_input_key(&mut app, Key::Backspace), Request::Nothing);
    assert_eq!(handle_input_key(&mut app, Key::Up), Request::Nothing);
    assert_eq!(app.filter_input(), "Tag1");
    assert_eq!(handle_input_key(&mut app, Key::Enter), Request::Nothing);
    assert_eq!(app.input_mode(), InputMode::Normal);
    let shown: Vec<usize> = app.filtered_indices().iter().copied().collect();
    assert_eq!(shown, vec![1, 10, 11]);

    app.begin_input(InputMode::Filter);
    handle_input_key(&mut app, Key::Char('q'));
    assert!(!app.should_quit());
    assert_eq!(handle_input_key(&mut app, Key::Esc), Request::Nothing);
    assert_eq!(app.input_mode(), InputMode::Normal);
    assert!(app.filters().regex_filter.is_none());
}

#[test]
fn enter_on_a_package_name_asks_for_the_lookup_first() {
    let mut app = viewer_with(2);
    app.begin_input(InputMode::Package);
    assert_eq!(handle_input_key(&mut app, Key::Enter), Request::Nothing);
    assert_eq!(app.input_mode(), InputMode::Normal);
    app.begin_input(InputMode::Package);
    handle_input_key(&mut app, Key::Char('a'));
    assert_eq!(handle_input_key(&mut app, Key::Enter), Request::ResolvePid);
    assert_eq!(app.input_mode(), InputMode::Package);
    assert_eq!(app.filter_input(), "a");
    app.submit_filter_input(Some(1));
    assert_eq!(app.input_mode(), InputMode::Normal);
    assert_eq!(app.filters().pid_filter, Some(1));
}

#[test]
fn the_pointer_scrolls_and_resumes() {
    let mut app = viewer_with(10);
    handle_mouse(&mut app, Pointer::ScrollUp);
    handle_mouse(&mut app, Pointer::ScrollUp);
    assert_eq!(app.scroll_offset(), 2);
    handle_mouse(&mut app, Pointer::ScrollDown);
    assert_eq!(app.scroll_offset(), 1);
    handle_mouse(&mut app, Pointer::Other);
    assert_eq!(app.scroll_offset(), 1);
    handle_mouse(&mut app, Pointer::RightClick);
    assert_eq!(app.scroll_offset(), 0);
}

#[test]
fn events_go_by_the_input_mode() {
    let mut app = viewer_with(10);
    assert_eq!(handle_event(&mut app, press(Key::Up)), (false, Request::Nothing));
    assert_eq!(app.scroll_offset(), 1);
    assert_eq!(
        handle_event(&mut app, TerminalEvent::Pointer(Pointer::ScrollUp)),
        (false, Request::Nothing)
    );
    assert_eq!(app.scroll_offset(), 2);
    assert_eq!(handle_event(&mut app, press(Key::Char('s'))), (false, Request::Export));
    assert_eq!(handle_event(&mut app, press(Key::Char('/'))), (false, Request::Nothing));
    assert_eq!(app.input_mode(), InputMode::Filter);
    assert_eq!(handle_event(&mut app, press(Key::Char('q'))), (false, Request::Nothing));
    assert_eq!(app.filter_input(), "q");
    handle_event(&mut app, TerminalEvent::Pointer(Pointer::ScrollUp));
    assert_eq!(app.scroll_offset(), 2);
    assert_eq!(handle_event(&mut app, press(Key::Esc)), (false, Request::Nothing));
    assert_eq!(handle_event(&mut app, TerminalEvent::Other), (false, Request::Nothing));
    assert_eq!(handle_event(&mut app, press(Key::Char('q'))), (true, Request::Nothing));
    assert!(app.should_quit());
}

#[test]
fn control_c_ends_the_viewer_in_any_mode() {
    let interrupt = TerminalEvent::Key { key: Key::Char('c'), control: true, pressed: true };
    let mut app = viewer_with(3);
    assert_eq!(handle_event(&mut app, interrupt), (true, Request::Nothing));
    assert_eq!(app.store().len(), 3);
    app.begin_input(InputMode::Tag);
    assert_eq!(handle_event(&mut app, interrupt), (true, Request::Nothing));
    assert_eq!(app.filter_input(), "");
    let released = TerminalEvent::Key { key: Key::Char('c'), control: true, pressed: false };
    assert_eq!(handle_event(&mut app, released), (false, Request::Nothing));
    let with_control = TerminalEvent::Key { key: Key::Char('x'), control: true, pressed: true };
    assert_eq!(handle_event(&mut app, with_control), (false, Request::Nothing));
    assert_eq!(app.filter_input(), "x");
}

#[test]
fn a_key_that_is_not_a_press_does_nothing() {
    let mut app = viewer_with(3);
    let released = TerminalEvent::Key { key: Key::Char('q'), control: false, pressed: false };
    assert_eq!(handle_event(&mut app, released), (false, Request::Nothing));
    assert!(!app.should_quit());
}

#[test]
fn without_a_stream_only_quit_and_resume_count() {
    let mut app = viewer_with(10);
    app.scroll_up(3);
    assert!(!handle_offline_event(&mut app, press(Key::Up)));
    assert_eq!(app.scroll_offset(), 3);
    assert!(!handle_offline_event(&mut app, TerminalEvent::Pointer(Pointer::ScrollUp)));
    assert_eq!(app.scroll_offset(), 3);
    assert!(!handle_offline_event(&mut app, TerminalEvent::Pointer(Pointer::RightClick)));
    assert_eq!(app.scroll_offset(), 0);
    assert!(handle_offline_event(&mut app, press(Key::Char('q'))));
    assert!(handle_offline_event(&mut app, press(Key::Esc)));
    assert!(!handle_offline_event(&mut app, TerminalEvent::Other));
    let released = TerminalEvent::Key { key: Key::Esc, control: false, pressed: false };
    assert!(!handle_offline_event(&mut app, released));
}
