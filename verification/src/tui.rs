//! The terminal session: set up, loop, restore, leave.
//!
//! The terminal itself is out of the library's reach, so the session is
//! written as a conversation. [`Session::next`] names the step to perform;
//! the program performs it and reports how it went with
//! [`Session::advance`], which settles the next step:
//!
//! ```text
//!   Init -> Draw -> Read -> Draw -> Read -> ... -> Restore -> Exit
//! ```
//!
//! The loop of `Draw` and `Read` ends when the exit flag is set, or when a
//! step fails. Either way the next step is `Restore`, and only then `Exit`:
//! the user's shell is never left in raw mode or on the alternate screen.

pub mod lifecycle;

use vstd::prelude::*;

use crate::app::App;
use crate::error::TerminalError;
use crate::events::{handle_events, Event};

verus! {

/// A step for the program to perform on the terminal.
#[derive(Clone, Copy, Debug, PartialEq, Eq, Structural)]
pub enum Action {
    /// Enter the alternate screen and raw mode.
    Init,
    /// Draw the current state over the whole viewport.
    Draw,
    /// Block until the next input event.
    Read,
    /// Leave the alternate screen and raw mode.
    Restore,
    /// Nothing is left to do: end the process.
    Exit,
}

/// How a step went.
#[derive(Clone, Copy, Debug, PartialEq, Eq, Structural)]
pub enum Outcome {
    /// The step was performed.
    Done,
    /// The step was performed and brought this input event.
    Input(Event),
    /// The terminal reported an error.
    Failed,
}

/// A terminal session: the application, the step that is due, and the first
/// error met so far.
#[derive(Clone, Copy, Debug, PartialEq, Eq, Structural)]
pub struct Session {
    pub app: App,
    pub next: Action,
    pub error: Option<TerminalError>,
}

impl Session {
    /// The session a process starts with.
    pub open spec fn fresh() -> Session {
        Session { app: App { exit: false }, next: Action::Init, error: None }
    }

    /// What a session that went through `new` and `advance` alone always
    /// satisfies: while the loop runs, the exit flag is clear and nothing has
    /// failed.
    pub open spec fn wf(self) -> bool {
        match self.next {
            Action::Init => self.error is None,
            Action::Draw | Action::Read => !self.app.exit && self.error is None,
            Action::Restore | Action::Exit => true,
        }
    }

    /// The decision at the top of the loop: draw another frame, unless the
    /// exit flag is set.
    pub open spec fn top_of_loop(app: App) -> Action {
        if app.exit {
            Action::Restore
        } else {
            Action::Draw
        }
    }

    /// The session after a step failed with `error`: the loop is over and
    /// the terminal is restored next. Of several errors the first is kept.
    pub open spec fn failing(self, error: TerminalError) -> Session {
        Session {
            next: Action::Restore,
            error: if self.error is None {
                Some(error)
            } else {
                self.error
            },
            ..self
        }
    }

    /// The session after the step `self.next` was performed and went as
    /// `outcome` says.
    pub open spec fn after(self, outcome: Outcome) -> Session {
        match self.next {
            Action::Init => if outcome is Failed {
                self.failing(TerminalError::Init)
            } else {
                Session { next: Self::top_of_loop(self.app), ..self }
            },
            Action::Draw => if outcome is Failed {
                self.failing(TerminalError::Draw)
            } else {
                Session { next: Action::Read, ..self }
            },
            Action::Read => match outcome {
                Outcome::Failed => self.failing(TerminalError::Read),
                Outcome::Input(event) => {
                    let app = self.app.after_event(event);
                    Session { app, next: Self::top_of_loop(app), ..self }
                },
                Outcome::Done => Session { next: Self::top_of_loop(self.app), ..self },
            },
            Action::Restore => if outcome is Failed {
                Session { next: Action::Exit, ..self.failing(TerminalError::Restore) }
            } else {
                Session { next: Action::Exit, ..self }
            },
            Action::Exit => self,
        }
    }

    /// The exit code of a session: zero when nothing failed.
    pub open spec fn spec_exit_code(&self) -> u8 {
        if self.error is None {
            0
        } else {
            1
        }
    }

    /// Starts a session: a fresh application, nothing done to the terminal
    /// yet.
    pub fn new() -> (session: Session)
        ensures
            session == Session::fresh(),
            session.wf(),
    {
        Session { app: App::new(), next: Action::Init, error: None }
    }

    /// Notes a failure and ends the loop.
    fn fail(&mut self, error: TerminalError)
        ensures
            *final(self) == old(self).failing(error),
    {
        if self.error.is_none() {
            self.error = Some(error);
        }
        self.next = Action::Restore;
    }

    /// Goes back to the top of the loop.
    fn turn(&mut self)
        ensures
            *final(self) == (Session { next: Self::top_of_loop(old(self).app), ..*old(self) }),
    {
        self.next = if self.app.exit {
            Action::Restore
        } else {
            Action::Draw
        };
    }

    /// Takes in how the step `self.next` went, and settles the next one.
    ///
    /// * After `Init`: on success the loop starts; on failure the terminal
    ///   is restored, since part of the set-up may have gone through.
    /// * After `Draw`: on success the session waits for input.
    /// * After `Read`: the event is handled, and the loop goes round again
    ///   unless the exit flag is now set.
    /// * A failure in the loop ends the loop; the terminal is restored next.
    /// * After `Restore`: the session is over, whether restoring worked or
    ///   not. It is not tried again.
    /// * After `Exit`: nothing changes any more.
    ///
    /// A report that does not fit the step (an input event after `Draw`,
    /// say) counts as success; after `Read`, `Done` stands for an event that
    /// concerns nobody.
    pub fn advance(&mut self, outcome: Outcome)
        ensures
            *final(self) == old(self).after(outcome),
            old(self).wf() ==> final(self).wf(),
    {
        match self.next {
            Action::Init => match outcome {
                Outcome::Failed => self.fail(TerminalError::Init),
                _ => self.turn(),
            },
            Action::Draw => match outcome {
                Outcome::Failed => self.fail(TerminalError::Draw),
                _ => {
                    self.next = Action::Read;
                },
            },
            Action::Read => match outcome {
                Outcome::Failed => self.fail(TerminalError::Read),
                Outcome::Input(event) => match handle_events(&mut self.app, event) {
                    Ok(()) => self.turn(),
                    Err(error) => self.fail(error),
                },
                Outcome::Done => self.turn(),
            },
            Action::Restore => {
                match outcome {
                    Outcome::Failed => self.fail(TerminalError::Restore),
                    _ => {},
                }
                self.next = Action::Exit;
            },
            Action::Exit => {},
        }
    }

    /// The code to end the process with: 0 when every step went through, 1
    /// when one failed.
    #[verifier::when_used_as_spec(spec_exit_code)]
    pub fn exit_code(&self) -> (code: u8)
        ensures
            code == self.spec_exit_code(),
    {
        match self.error {
            None => 0,
            Some(_) => 1,
        }
    }
}

} // verus!
