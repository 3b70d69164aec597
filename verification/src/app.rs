//! Application state.

use vstd::prelude::*;

verus! {

/// The state of the application: whether the user has asked to leave.
///
/// The flag starts out `false`, and only the quit key sets it. Nothing ever
/// clears it again.
#[derive(Clone, Copy, Debug, PartialEq, Eq, Structural)]
pub struct App {
    pub exit: bool,
}

impl App {
    /// A fresh application, still running.
    pub fn new() -> (app: App)
        ensures
            app == (App { exit: false }),
    {
        App { exit: false }
    }
}

} // verus!
