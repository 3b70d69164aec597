//! The one class of error: the terminal did not do what it was asked.

use vstd::prelude::*;

verus! {

/// A failure of the terminal, named by the step that met it.
///
/// The underlying I/O error stays with the program that talks to the
/// terminal; the library only needs to know where things went wrong.
#[derive(Clone, Copy, Debug, PartialEq, Eq, Structural)]
pub enum TerminalError {
    /// Entering the alternate screen or raw mode failed.
    Init,
    /// A frame could not be drawn.
    Draw,
    /// Waiting for the next input event failed.
    Read,
    /// Leaving the alternate screen or raw mode failed.
    Restore,
}

} // verus!
