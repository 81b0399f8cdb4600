//! Cancelling the running command from the application's side.

use crate::app::App;
use crate::supervisor::{begin_spec, poll_spec, ChildHandle, LadderAction, Observation, Supervisor};
use vstd::prelude::*;

verus! {

/// The supervisor after a cancellation was asked for at `now`, and what is
/// to be done: the first request for a running child sets its flag and
/// starts the ladder; any other request does nothing.
pub open spec fn cancel_spec(s: Supervisor, now: u64) -> (Supervisor, LadderAction) {
    match s.active {
        Some(h) => if h.cancelled {
            (s, LadderAction::Wait)
        } else {
            let step = begin_spec(s.ladder.phase, now, h.pgid != 0);
            (
                Supervisor {
                    active: Some(ChildHandle { cancelled: true, ..h }),
                    ladder: crate::supervisor::CancelLadder { phase: step.0 },
                },
                step.1,
            )
        },
        None => (s, LadderAction::Wait),
    }
}

/// A second request to cancel changes nothing and asks for nothing.
pub proof fn lemma_cancel_idempotent(s: Supervisor, first: u64, second: u64)
    ensures
        cancel_spec(cancel_spec(s, first).0, second) == (cancel_spec(s, first).0, LadderAction::Wait),
{
}

impl App {
    /// Carries out [`crate::app::Action::Cancel`] at time `now`: asks the
    /// supervisor to cancel the running command and tells which signal, if
    /// any, is to be sent first.
    pub fn cancel_update(&mut self, now: u64) -> (action: LadderAction)
        ensures
            (final(self).supervisor, action) == cancel_spec(old(self).supervisor, now),
            *final(self) == (App { supervisor: final(self).supervisor, ..*old(self) }),
    {
        self.supervisor.cancel(now)
    }

    /// Polls the cancellation under way; see
    /// [`crate::supervisor::Supervisor::poll`].
    pub fn poll_cancel(&mut self, now: u64, alive: bool) -> (action: LadderAction)
        ensures
            final(self).supervisor.active == old(self).supervisor.active,
            match old(self).supervisor.active {
                Some(h) => (final(self).supervisor.ladder.phase, action) == poll_spec(
                    old(self).supervisor.ladder.phase,
                    Observation { now, pid_known: h.pgid != 0, alive },
                ),
                None => final(self).supervisor == old(self).supervisor && action
                    == LadderAction::Wait,
            },
            *final(self) == (App { supervisor: final(self).supervisor, ..*old(self) }),
    {
        self.supervisor.poll(now, alive)
    }

    /// At shutdown: starts the ladder for a child that is still running, so
    /// that no privileged process and no stale lock outlives the
    /// application. The caller polls the ladder to its end before it exits.
    pub fn cleanup_child_processes(&mut self, now: u64) -> (action: LadderAction)
        ensures
            (final(self).supervisor, action) == cancel_spec(old(self).supervisor, now),
            *final(self) == (App { supervisor: final(self).supervisor, ..*old(self) }),
    {
        self.supervisor.cancel(now)
    }

    /// Notes the process-group id of the child that was started for the
    /// last [`crate::app::Action::Run`].
    pub fn child_started(&mut self, pgid: u32)
        ensures
            final(self).supervisor.ladder == old(self).supervisor.ladder,
            match old(self).supervisor.active {
                Some(h) => final(self).supervisor.active == Some(ChildHandle { pgid, ..h }),
                None => final(self).supervisor.active is None,
            },
            *final(self) == (App { supervisor: final(self).supervisor, ..*old(self) }),
    {
        self.supervisor.record_pgid(pgid);
    }
}

} // verus!
