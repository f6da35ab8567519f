//! Keys and pointer actions, and what each does to the viewer's state.

use crate::app::{App, AppView, InputMode};
use crate::parser::LogLevel;
use vstd::prelude::*;

verus! {

/// A key, as far as the viewer tells keys apart.
#[derive(Debug, Clone, Copy, PartialEq, Eq)]
pub enum Key {
    Char(char),
    Enter,
    Esc,
    Backspace,
    Up,
    Down,
    PageUp,
    PageDown,
    Home,
    End,
    Other,
}

/// A pointer action, as far as the viewer tells them apart.
#[derive(Debug, Clone, Copy, PartialEq, Eq)]
pub enum Pointer {
    ScrollUp,
    ScrollDown,
    RightClick,
    Other,
}

/// Something that happened at the terminal.
#[derive(Debug, Clone, Copy, PartialEq, Eq)]
pub enum TerminalEvent {
    /// A key, with whether Control was held and whether this is the press
    /// (not the release or a repeat).
    Key { key: Key, control: bool, pressed: bool },
    Pointer(Pointer),
    Other,
}

/// Work outside the viewer's state that a key calls for.
#[derive(Debug, Clone, Copy, PartialEq, Eq)]
pub enum Request {
    /// Nothing to do.
    Nothing,
    /// Clear the log buffer on the device.
    ClearRemoteBuffer,
    /// Write the lines on show to a file, then report how it ended.
    Export,
    /// Read the list of connected devices, then hand it over.
    ListDevices,
    /// Look up the process id of the package typed, then submit the input
    /// with it.
    ResolvePid,
}

/// Lines scrolled per step of the pointer's wheel.
pub const POINTER_SCROLL_LINES: usize = 1;

/// Lines scrolled per page key.
pub const PAGE_SCROLL_LINES: usize = 20;

/// The level whose switch a digit key flips: `1` for `Verbose` up to `6`
/// for `Fatal`.
pub open spec fn level_of_digit(c: char) -> Option<LogLevel> {
    if c == '1' {
        Some(LogLevel::Verbose)
    } else if c == '2' {
        Some(LogLevel::Debug)
    } else if c == '3' {
        Some(LogLevel::Info)
    } else if c == '4' {
        Some(LogLevel::Warn)
    } else if c == '5' {
        Some(LogLevel::Error)
    } else if c == '6' {
        Some(LogLevel::Fatal)
    } else {
        None
    }
}

/// The state after `key` was pressed while keys are commands.
pub open spec fn after_normal_key(state: AppView, key: Key) -> AppView {
    match key {
        Key::Char(c) => {
            if c == 'q' {
                AppView { should_quit: true, ..state }
            } else if c == 'h' || c == '?' {
                AppView { show_help: !state.show_help, ..state }
            } else if c == '/' {
                AppView { input_mode: InputMode::Filter, filter_input: Seq::empty(), ..state }
            } else if c == 't' {
                AppView { input_mode: InputMode::Tag, filter_input: Seq::empty(), ..state }
            } else if c == 'p' {
                AppView { input_mode: InputMode::Package, filter_input: Seq::empty(), ..state }
            } else if level_of_digit(c) is Some {
                state.with_filters(state.filters.toggle(level_of_digit(c)->0))
            } else if c == ' ' {
                state.pause_toggled()
            } else if c == 'k' {
                state.scrolled_up(1)
            } else if c == 'j' {
                state.scrolled_down(1)
            } else if c == 'G' {
                state.at_bottom()
            } else if c == 'c' {
                state.cleared()
            } else if c == 'd' {
                state.device_panel_toggled()
            } else if c == 'x' {
                state.crash_panel_toggled()
            } else {
                state
            }
        },
        Key::Up => state.scrolled_up(1),
        Key::Down => state.scrolled_down(1),
        Key::PageUp => state.scrolled_up(PAGE_SCROLL_LINES as int),
        Key::PageDown => state.scrolled_down(PAGE_SCROLL_LINES as int),
        Key::Home => state.at_top(),
        Key::End => state.at_bottom(),
        Key::Esc => if state.show_help {
            AppView { show_help: false, ..state }
        } else {
            AppView { status_message: Some("Filters cleared"@), ..state.filters_cleared() }
        },
        _ => state,
    }
}

/// The outside work that `key` calls for while keys are commands.
pub open spec fn request_of_normal_key(state: AppView, key: Key) -> Request {
    match key {
        Key::Char(c) => {
            if c == 'c' {
                Request::ClearRemoteBuffer
            } else if c == 's' {
                Request::Export
            } else if c == 'd' && state.panels != crate::app::PanelLayout::SplitDevice {
                Request::ListDevices
            } else {
                Request::Nothing
            }
        },
        _ => Request::Nothing,
    }
}

/// The level whose switch the digit key `c` flips, if `c` is one.
pub fn digit_level(c: char) -> (level: Option<LogLevel>)
    ensures
        level == level_of_digit(c),
{
    match c {
        '1' => Some(LogLevel::Verbose),
        '2' => Some(LogLevel::Debug),
        '3' => Some(LogLevel::Info),
        '4' => Some(LogLevel::Warn),
        '5' => Some(LogLevel::Error),
        '6' => Some(LogLevel::Fatal),
        _ => None,
    }
}

/// Acts on a key pressed while keys are commands, and returns the outside
/// work that the key calls for.
pub fn handle_normal_key(app: &mut App, key: Key) -> (request: Request)
    requires
        old(app).wf(),
    ensures
        final(app).wf(),
        final(app)@ == after_normal_key(old(app)@, key),
        request == request_of_normal_key(old(app)@, key),
{
    match key {
        Key::Char(c) => {
            if c == 'q' {
                app.quit();
            } else if c == 'h' || c == '?' {
                app.toggle_help();
            } else if c == '/' {
                app.begin_input(InputMode::Filter);
            } else if c == 't' {
                app.begin_input(InputMode::Tag);
            } else if c == 'p' {
                app.begin_input(InputMode::Package);
            } else if let Some(level) = digit_level(c) {
                app.toggle_level(level);
            } else if c == ' ' {
                app.toggle_pause();
            } else if c == 'k' {
                app.scroll_up(1);
            } else if c == 'j' {
                app.scroll_down(1);
            } else if c == 'G' {
                app.scroll_to_bottom();
            } else if c == 'c' {
                app.clear_logs();
                return Request::ClearRemoteBuffer;
            } else if c == 's' {
                return Request::Export;
            } else if c == 'd' {
                if app.toggle_device_panel() {
                    return Request::ListDevices;
                }
            } else if c == 'x' {
                app.toggle_crash_panel();
            }
        },
        Key::Up => app.scroll_up(1),
        Key::Down => app.scroll_down(1),
        Key::PageUp => app.scroll_up(PAGE_SCROLL_LINES),
        Key::PageDown => app.scroll_down(PAGE_SCROLL_LINES),
        Key::Home => app.scroll_to_top(),
        Key::End => app.scroll_to_bottom(),
        Key::Esc => {
            if app.show_help() {
                app.close_help();
            } else {
                app.clear_all_filters();
                app.set_status("Filters cleared".to_owned());
            }
        },
        _ => {},
    }
    Request::Nothing
}

/// The state after `key` was pressed while keys edit a filter, for the
/// keys whose effect the state alone decides: every key but Enter.
pub open spec fn after_edit_key(state: AppView, key: Key) -> AppView {
    match key {
        Key::Esc => state.input_cancelled(),
        Key::Backspace => AppView {
            filter_input: if state.filter_input.len() > 0 {
                state.filter_input.drop_last()
            } else {
                state.filter_input
            },
            ..state
        },
        Key::Char(c) => AppView { filter_input: state.filter_input.push(c), ..state },
        _ => state,
    }
}

/// Whether Enter has to wait for a lookup of a package's process id: the
/// package mode with a text typed.
pub open spec fn enter_needs_pid(state: AppView) -> bool {
    state.input_mode == InputMode::Package && state.filter_input.len() > 0
}

/// Acts on a key pressed while keys edit a filter. Enter submits the text,
/// unless a package name was typed: then the state is left alone and the
/// request is to look up the package's process id and to submit with it.
pub fn handle_input_key(app: &mut App, key: Key) -> (request: Request)
    requires
        old(app).wf(),
    ensures
        final(app).wf(),
        key == Key::Enter && enter_needs_pid(old(app)@) ==> request == Request::ResolvePid
            && final(app)@ == old(app)@,
        key == Key::Enter && !enter_needs_pid(old(app)@) ==> request == Request::Nothing && (
        final(app)@ == old(app)@.submitted(Some(old(app)@.filter_input), None) || final(app)@
            == old(app)@.submitted(None, None)),
        key != Key::Enter ==> request == Request::Nothing && final(app)@ == after_edit_key(
            old(app)@,
            key,
        ),
{
    match key {
        Key::Enter => {
            if app.submit_needs_pid() {
                return Request::ResolvePid;
            }
            app.submit_filter_input(None);
        },
        Key::Esc => app.cancel_input(),
        Key::Backspace => app.erase_char(),
        Key::Char(c) => app.type_char(c),
        _ => {},
    }
    Request::Nothing
}

/// The state after a pointer action.
pub open spec fn after_pointer(state: AppView, pointer: Pointer) -> AppView {
    match pointer {
        Pointer::ScrollUp => state.scrolled_up(POINTER_SCROLL_LINES as int),
        Pointer::ScrollDown => state.scrolled_down(POINTER_SCROLL_LINES as int),
        Pointer::RightClick => state.at_bottom(),
        Pointer::Other => state,
    }
}

/// Acts on a pointer action: the wheel scrolls, which pauses or moves
/// towards the tail, and a right click resumes tailing.
pub fn handle_mouse(app: &mut App, pointer: Pointer)
    requires
        old(app).wf(),
    ensures
        final(app).wf(),
        final(app)@ == after_pointer(old(app)@, pointer),
{
    match pointer {
        Pointer::ScrollUp => app.scroll_up(POINTER_SCROLL_LINES),
        Pointer::ScrollDown => app.scroll_down(POINTER_SCROLL_LINES),
        Pointer::RightClick => app.scroll_to_bottom(),
        Pointer::Other => {},
    }
}

/// Whether `event` is the key that ends the viewer at once: Control with
/// `c`, pressed.
pub open spec fn is_interrupt(event: TerminalEvent) -> bool {
    event matches TerminalEvent::Key { key, control, pressed } && pressed && control && key
        == Key::Char('c')
}

/// What is left of `event` to act on: a key that was pressed, by the input
/// mode, or a pointer action while keys are commands.
pub open spec fn acts_as(state: AppView, event: TerminalEvent) -> TerminalEvent {
    match event {
        TerminalEvent::Key { key, control, pressed } => if pressed {
            event
        } else {
            TerminalEvent::Other
        },
        TerminalEvent::Pointer(pointer) => if state.input_mode == InputMode::Normal {
            event
        } else {
            TerminalEvent::Other
        },
        TerminalEvent::Other => TerminalEvent::Other,
    }
}

/// Acts on a terminal event. Returns whether the viewer is to end, and the
/// outside work that the event calls for. Control with `c` ends the viewer
/// at once; a key that is not a press does nothing; other keys go by the
/// input mode; pointer actions count only while keys are commands.
pub fn handle_event(app: &mut App, event: TerminalEvent) -> (r: (bool, Request))
    requires
        old(app).wf(),
    ensures
        final(app).wf(),
        is_interrupt(event) ==> r.0 && r.1 == Request::Nothing && final(app)@ == old(app)@,
        !is_interrupt(event) ==> match acts_as(old(app)@, event) {
            TerminalEvent::Key { key, control, pressed } => {
                &&& r.0 == final(app)@.should_quit
                &&& old(app)@.input_mode == InputMode::Normal ==> final(app)@ == after_normal_key(
                    old(app)@,
                    key,
                ) && r.1 == request_of_normal_key(old(app)@, key)
                &&& old(app)@.input_mode != InputMode::Normal && key != Key::Enter ==> final(app)@
                    == after_edit_key(old(app)@, key) && r.1 == Request::Nothing
                &&& old(app)@.input_mode != InputMode::Normal && key == Key::Enter
                    && enter_needs_pid(old(app)@) ==> final(app)@ == old(app)@ && r.1
                    == Request::ResolvePid
                &&& old(app)@.input_mode != InputMode::Normal && key == Key::Enter
                    && !enter_needs_pid(old(app)@) ==> r.1 == Request::Nothing && (final(app)@
                    == old(app)@.submitted(Some(old(app)@.filter_input), None) || final(app)@
                    == old(app)@.submitted(None, None))
            },
            TerminalEvent::Pointer(pointer) => !r.0 && r.1 == Request::Nothing && final(app)@
                == after_pointer(old(app)@, pointer),
            TerminalEvent::Other => !r.0 && r.1 == Request::Nothing && final(app)@ == old(app)@,
        },
{
    match event {
        TerminalEvent::Key { key, control, pressed } => {
            if !pressed {
                return (false, Request::Nothing);
            }
            if control {
                if let Key::Char(c) = key {
                    if c == 'c' {
                        return (true, Request::Nothing);
                    }
                }
            }
            let request = match app.input_mode() {
                InputMode::Normal => handle_normal_key(app, key),
                _ => handle_input_key(app, key),
            };
            (app.should_quit(), request)
        },
        TerminalEvent::Pointer(pointer) => {
            match app.input_mode() {
                InputMode::Normal => handle_mouse(app, pointer),
                _ => {},
            }
            (false, Request::Nothing)
        },
        TerminalEvent::Other => (false, Request::Nothing),
    }
}

/// Whether `event` ends a viewer that has no log stream: `q` or Esc,
/// pressed.
pub open spec fn ends_offline(event: TerminalEvent) -> bool {
    event matches TerminalEvent::Key { key, control, pressed } && pressed && (key == Key::Char('q')
        || key == Key::Esc)
}

/// Acts on a terminal event while there is no log stream to read: `q` and
/// Esc end the viewer, a right click resumes tailing, all else is passed
/// over. Returns whether the viewer is to end.
pub fn handle_offline_event(app: &mut App, event: TerminalEvent) -> (quit: bool)
    requires
        old(app).wf(),
    ensures
        final(app).wf(),
        quit == ends_offline(event),
        final(app)@ == if event == TerminalEvent::Pointer(Pointer::RightClick) {
            old(app)@.at_bottom()
        } else {
            old(app)@
        },
{
    match event {
        TerminalEvent::Key { key, control, pressed } => {
            if !pressed {
                return false;
            }
            match key {
                Key::Esc => true,
                Key::Char(c) => c == 'q',
                _ => false,
            }
        },
        TerminalEvent::Pointer(pointer) => {
            match pointer {
                Pointer::RightClick => app.scroll_to_bottom(),
                _ => {},
            }
            false
        },
        TerminalEvent::Other => false,
    }
}

} // verus!
