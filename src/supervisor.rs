//! The connection supervisor: runs cycles of the bridge forever. Whatever ends
//! a cycle, the broker client is disconnected, a fixed delay passes, and a new
//! cycle starts with fresh serial port, client and event pump.
//!
//! The supervisor is a state machine; the caller runs each cycle, performs the
//! actions and reports their completion.

use vstd::prelude::*;
use crate::pipeline::RunError;

verus! {

/// Seconds to wait between the end of a cycle and the start of the next.
pub const RESTART_DELAY_SECS: u64 = 5;

/// What ended a cycle: whichever of the two activities finished first.
#[derive(Clone, Copy, PartialEq, Eq, Structural, Debug)]
pub enum CycleEnd {
    /// The background event pump stopped.
    PumpStopped,
    /// The publish pipeline failed with this error.
    PipelineFailed(RunError),
}

#[derive(Clone, Copy, PartialEq, Eq, Structural, Debug)]
pub enum SupervisorPhase {
    /// A cycle is underway.
    Running,
    /// The cycle has ended for this reason; the client is being disconnected.
    Disconnecting(CycleEnd),
    /// Waiting out the restart delay.
    Restarting,
}

/// What the caller does next.
#[derive(Clone, Copy, PartialEq, Eq, Structural, Debug)]
pub enum SupervisorAction {
    /// Disconnect the broker client of the cycle that ended.
    Disconnect,
    /// Sleep this many seconds.
    Sleep(u64),
    /// Start a new cycle with fresh resources.
    StartCycle,
}

pub struct Supervisor {
    phase: SupervisorPhase,
    restarts: u64,
}

/// The phase and action after the cycle ends in `Running`.
pub open spec fn after_cycle_end(end: CycleEnd) -> (SupervisorPhase, SupervisorAction) {
    (SupervisorPhase::Disconnecting(end), SupervisorAction::Disconnect)
}

/// The phase and action after the disconnect completes, whether it failed or not.
pub open spec fn after_disconnect(ok: bool) -> (SupervisorPhase, SupervisorAction) {
    (SupervisorPhase::Restarting, SupervisorAction::Sleep(RESTART_DELAY_SECS))
}

/// The phase and action after the restart delay.
pub open spec fn after_sleep() -> (SupervisorPhase, SupervisorAction) {
    (SupervisorPhase::Running, SupervisorAction::StartCycle)
}

impl Supervisor {
    pub closed spec fn spec_phase(&self) -> SupervisorPhase {
        self.phase
    }

    pub closed spec fn spec_restarts(&self) -> nat {
        self.restarts as nat
    }

    /// A supervisor whose first cycle is underway.
    pub fn new() -> (r: Supervisor)
        ensures
            r.spec_phase() == SupervisorPhase::Running,
            r.spec_restarts() == 0,
    {
        Supervisor { phase: SupervisorPhase::Running, restarts: 0 }
    }

    pub fn phase(&self) -> (r: SupervisorPhase)
        ensures
            r == self.spec_phase(),
    {
        self.phase
    }

    /// How many restarts have taken place, counted up to `u64::MAX`.
    pub fn restarts(&self) -> (r: u64)
        ensures
            r == self.spec_restarts(),
    {
        self.restarts
    }

    /// The running cycle has ended: its client is to be disconnected.
    pub fn on_cycle_end(&mut self, end: CycleEnd) -> (r: SupervisorAction)
        requires
            old(self).spec_phase() is Running,
        ensures
            (final(self).spec_phase(), r) == after_cycle_end(end),
            final(self).spec_restarts() == old(self).spec_restarts(),
    {
        self.phase = SupervisorPhase::Disconnecting(end);
        SupervisorAction::Disconnect
    }

    /// The disconnect has completed (a failed disconnect is only reported):
    /// the restart delay begins.
    pub fn on_disconnected(&mut self, ok: bool) -> (r: SupervisorAction)
        requires
            old(self).spec_phase() is Disconnecting,
        ensures
            (final(self).spec_phase(), r) == after_disconnect(ok),
            final(self).spec_restarts() == old(self).spec_restarts(),
    {
        self.phase = SupervisorPhase::Restarting;
        SupervisorAction::Sleep(RESTART_DELAY_SECS)
    }

    /// The restart delay has passed: a new cycle starts.
    pub fn on_slept(&mut self) -> (r: SupervisorAction)
        requires
            old(self).spec_phase() is Restarting,
        ensures
            (final(self).spec_phase(), r) == after_sleep(),
            final(self).spec_restarts() == if old(self).spec_restarts() < u64::MAX {
                old(self).spec_restarts() + 1
            } else {
                old(self).spec_restarts()
            },
    {
        self.phase = SupervisorPhase::Running;
        self.restarts = self.restarts.saturating_add(1);
        SupervisorAction::StartCycle
    }
}

/// Whatever ends a cycle, and whether or not the disconnect succeeds, the
/// supervisor asks for a disconnect, then for the restart delay, then for a
/// new cycle, and is running again: it has no terminal state.
pub proof fn lemma_every_end_restarts(end: CycleEnd, ok: bool)
    ensures
        after_cycle_end(end).1 == SupervisorAction::Disconnect,
        after_cycle_end(end).0 is Disconnecting,
        after_disconnect(ok) == (
            SupervisorPhase::Restarting,
            SupervisorAction::Sleep(RESTART_DELAY_SECS),
        ),
        after_sleep() == (SupervisorPhase::Running, SupervisorAction::StartCycle),
{
}

} // verus!
