//! The verified core of a small terminal user interface.
//!
//! The program around this library owns the terminal: it switches screens
//! and modes, draws frames and waits for input. Everything it has to
//! *decide* is decided here, on plain values:
//!
//! * [`app`] holds the application state, a single `exit` flag;
//! * [`events`] says how one input event changes that state;
//! * [`tui`] is the terminal session: which step comes next (set the
//!   terminal up, draw, wait for input, restore the terminal, leave), given
//!   how the previous step went.
//!
//! The session is written as a transition function, so that what must hold
//! of every run can be stated and proved: the terminal is restored exactly
//! once on every path to the exit, and nothing is drawn once the exit flag
//! is set.

pub mod app;
pub mod error;
pub mod events;
pub mod tui;
