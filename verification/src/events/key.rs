//! Key events.

use vstd::prelude::*;

use crate::app::App;
use crate::error::TerminalError;
use crate::events::{KeyCode, KeyEvent};

verus! {

/// Handles one key event: `q` asks the application to leave, and any other
/// key is ignored.
///
/// The handler looks at the key code only. Whether the event is a press is
/// for the caller to settle.
pub fn handle_key_event(app: &mut App, key_event: KeyEvent) -> (result: Result<(), TerminalError>)
    ensures
        result is Ok,
        *final(app) == old(app).after_key(key_event),
{
    match key_event.code {
        KeyCode::Char('q') => {
            app.exit = true;
        },
        _ => {},
    }
    Ok(())
}

} // verus!
