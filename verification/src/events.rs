//! Input events and what they do to the application.
//!
//! The event types hold, as plain values, what a terminal reports: key
//! presses, mouse activity, focus changes, pastes and resizes. The program
//! that reads the terminal fills them in field by field.

pub mod key;
pub mod mouse;

use vstd::prelude::*;

use crate::app::App;
use crate::error::TerminalError;
use crate::events::key::handle_key_event;
use crate::events::mouse::handle_mouse_event;

verus! {

/// Which key an event is about.
#[derive(Clone, Copy, Debug, PartialEq, Eq, Structural)]
pub enum KeyCode {
    Backspace,
    Enter,
    Left,
    Right,
    Up,
    Down,
    Home,
    End,
    PageUp,
    PageDown,
    Tab,
    BackTab,
    Delete,
    Insert,
    /// A function key, `F(1)` for F1.
    F(u8),
    /// A character key, as typed: `Char('q')` and `Char('Q')` differ.
    Char(char),
    Null,
    Esc,
    CapsLock,
    ScrollLock,
    NumLock,
    PrintScreen,
    Pause,
    Menu,
    KeypadBegin,
    /// One of the media keys.
    Media,
    /// A modifier key on its own.
    Modifier,
}

/// Whether a key went down, is held, or came up.
#[derive(Clone, Copy, Debug, PartialEq, Eq, Structural)]
pub enum KeyEventKind {
    Press,
    Repeat,
    Release,
}

/// One key event.
#[derive(Clone, Copy, Debug, PartialEq, Eq, Structural)]
pub struct KeyEvent {
    pub code: KeyCode,
    pub kind: KeyEventKind,
}

#[derive(Clone, Copy, Debug, PartialEq, Eq, Structural)]
pub enum MouseButton {
    Left,
    Right,
    Middle,
}

#[derive(Clone, Copy, Debug, PartialEq, Eq, Structural)]
pub enum MouseEventKind {
    Down(MouseButton),
    Up(MouseButton),
    Drag(MouseButton),
    Moved,
    ScrollDown,
    ScrollUp,
    ScrollLeft,
    ScrollRight,
}

/// One mouse event, with the cell it happened at.
#[derive(Clone, Copy, Debug, PartialEq, Eq, Structural)]
pub struct MouseEvent {
    pub kind: MouseEventKind,
    pub column: u16,
    pub row: u16,
}

/// Anything the terminal can report.
#[derive(Clone, Copy, Debug, PartialEq, Eq, Structural)]
pub enum Event {
    FocusGained,
    FocusLost,
    Key(KeyEvent),
    Mouse(MouseEvent),
    /// Text was pasted; the application has no use for the text itself.
    Paste,
    /// The terminal now has this many columns and rows.
    Resize(u16, u16),
}

impl KeyCode {
    /// The quit key is the lower-case letter `q`.
    pub open spec fn is_quit(self) -> bool {
        self == KeyCode::Char('q')
    }
}

impl Event {
    /// An event asks the application to leave when it is a *press* of the
    /// quit key. Repeats and releases of that key do not count, so that one
    /// keystroke is seen once.
    pub open spec fn is_quit(self) -> bool {
        match self {
            Event::Key(key_event) => key_event.kind == KeyEventKind::Press
                && key_event.code.is_quit(),
            _ => false,
        }
    }
}

impl App {
    /// The application after the key handler has seen `key_event`: the quit
    /// key sets the exit flag, every other key leaves the state alone.
    pub open spec fn after_key(self, key_event: KeyEvent) -> App {
        if key_event.code.is_quit() {
            App { exit: true, ..self }
        } else {
            self
        }
    }

    /// The application after one event of any sort.
    pub open spec fn after_event(self, event: Event) -> App {
        if event.is_quit() {
            App { exit: true, ..self }
        } else {
            self
        }
    }
}

/// Hands one event to the handler for its sort.
///
/// Key events are passed on only when they are presses: some terminals also
/// report the repeat and the release of a key, and one keystroke must not
/// be handled three times. Mouse events go to the mouse handler. Everything
/// else is ignored.
pub fn handle_events(app: &mut App, event: Event) -> (result: Result<(), TerminalError>)
    ensures
        result is Ok,
        *final(app) == old(app).after_event(event),
{
    match event {
        Event::Key(key_event) if key_event.kind == KeyEventKind::Press => handle_key_event(
            app,
            key_event,
        ),
        Event::Mouse(mouse_event) => handle_mouse_event(app, mouse_event),
        _ => Ok(()),
    }
}

} // verus!
