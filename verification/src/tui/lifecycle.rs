//! What holds of whole runs of a session.
//!
//! A run is told by the reports that the program made, one per step it
//! performed. The step performed at each point is the one the session named
//! just before, so the run determines the steps.

use vstd::prelude::*;

use crate::events::{Event, MouseEvent};
use crate::tui::{Action, Outcome, Session};

verus! {

impl Session {
    /// The session after the reports `outcomes`, taken in one after the
    /// other.
    pub open spec fn run(self, outcomes: Seq<Outcome>) -> Session
        decreases outcomes.len(),
    {
        if outcomes.len() == 0 {
            self
        } else {
            self.run(outcomes.drop_last()).after(outcomes.last())
        }
    }

    /// How often the terminal was restored in the course of a run: the
    /// number of reports that answer a `Restore` step.
    pub open spec fn restores(self, outcomes: Seq<Outcome>) -> nat
        decreases outcomes.len(),
    {
        if outcomes.len() == 0 {
            0
        } else {
            let earlier = outcomes.drop_last();
            let now: nat = if self.run(earlier).next is Restore {
                1
            } else {
                0
            };
            self.restores(earlier) + now
        }
    }

    /// The session after one round of the loop for each of `events`: the
    /// frame is drawn, then the event comes in.
    pub open spec fn rounds(self, events: Seq<Event>) -> Session
        decreases events.len(),
    {
        if events.len() == 0 {
            self
        } else {
            self.rounds(events.drop_last()).after(Outcome::Done).after(
                Outcome::Input(events.last()),
            )
        }
    }
}

/// A session keeps its invariant through every run. In particular, once
/// the exit flag is set no further frame is drawn and no further event is
/// waited for, and the same holds once a step has failed.
pub proof fn lemma_run_keeps_invariant(start: Session, outcomes: Seq<Outcome>)
    requires
        start.wf(),
    ensures
        start.run(outcomes).wf(),
        start.run(outcomes).app.exit || start.run(outcomes).error is Some ==> {
            &&& start.run(outcomes).next != Action::Draw
            &&& start.run(outcomes).next != Action::Read
        },
    decreases outcomes.len(),
{
    if outcomes.len() > 0 {
        lemma_run_keeps_invariant(start, outcomes.drop_last());
    }
}

/// Until a session is over the terminal has not been restored, and when it
/// is over the terminal has been restored once.
proof fn lemma_restores_tally(start: Session, outcomes: Seq<Outcome>)
    requires
        start.next != Action::Exit,
    ensures
        start.run(outcomes).next == Action::Exit ==> start.restores(outcomes) == 1,
        start.run(outcomes).next != Action::Exit ==> start.restores(outcomes) == 0,
    decreases outcomes.len(),
{
    if outcomes.len() > 0 {
        lemma_restores_tally(start, outcomes.drop_last());
    }
}

/// The terminal is restored exactly once in the life of a process.
///
/// Whatever the steps report, a session that starts afresh never restores
/// the terminal twice, and when it reaches `Exit` it has restored it once:
/// after the quit key, after a failure in the loop, and after a failed
/// set-up alike.
pub proof fn lemma_restored_exactly_once(outcomes: Seq<Outcome>)
    ensures
        Session::fresh().restores(outcomes) <= 1,
        Session::fresh().run(outcomes).next == Action::Exit ==> Session::fresh().restores(outcomes)
            == 1,
{
    lemma_restores_tally(Session::fresh(), outcomes);
}

/// Events other than a press of the quit key leave a running session as it
/// was: the exit flag stays clear and the loop goes on with the next
/// frame, however many such events come in.
pub proof fn lemma_other_events_keep_running(session: Session, events: Seq<Event>)
    requires
        session.wf(),
        session.next == Action::Draw,
        forall|i: int| 0 <= i < events.len() ==> !(#[trigger] events[i]).is_quit(),
    ensures
        session.rounds(events) == session,
        !session.rounds(events).app.exit,
        session.rounds(events).next == Action::Draw,
    decreases events.len(),
{
    if events.len() > 0 {
        lemma_other_events_keep_running(session, events.drop_last());
    }
}

/// A press of the quit key sets the exit flag and ends the loop at once:
/// the next step is to restore the terminal, and no further frame is
/// drawn.
pub proof fn lemma_quit_ends_loop(session: Session, event: Event)
    requires
        session.next == Action::Read,
        event.is_quit(),
    ensures
        session.app.after_event(event).exit,
        session.after(Outcome::Input(event)).app.exit,
        session.after(Outcome::Input(event)).next == Action::Restore,
{
}

/// A mouse event changes nothing in the application, whatever it says and
/// whenever it comes in.
pub proof fn lemma_mouse_changes_nothing(session: Session, mouse_event: MouseEvent)
    ensures
        session.app.after_event(Event::Mouse(mouse_event)) == session.app,
        session.after(Outcome::Input(Event::Mouse(mouse_event))).app == session.app,
        session.after(Outcome::Input(Event::Mouse(mouse_event))).error == session.error,
{
}

} // verus!
