//! Mouse events.

use vstd::prelude::*;

use crate::app::App;
use crate::error::TerminalError;
use crate::events::MouseEvent;

verus! {

/// Handles one mouse event. The application takes mouse events in, so that
/// the terminal may report them, and does nothing with them.
pub fn handle_mouse_event(app: &mut App, mouse_event: MouseEvent) -> (result: Result<(), TerminalError>)
    ensures
        result is Ok,
        *final(app) == *old(app),
{
    Ok(())
}

} // verus!
