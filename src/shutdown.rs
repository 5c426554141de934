//! Coordinated shutdown: one cancellation signal for both loops, and the
//! loops themselves, handed back as each one ends.

use crate::forward::{action_for, next_state, transmits, Action, Event, ForwardingLoop, LoopState};
use crate::link::Side;
use vstd::prelude::*;

verus! {

/// The shutdown signal and the loops that have ended. A loop is handed over
/// once it has stopped; from then on nothing can drive it.
pub struct ShutdownCoordinator {
    cancelled: bool,
    external: Option<ForwardingLoop>,
    internal: Option<ForwardingLoop>,
}

impl ShutdownCoordinator {
    /// Whether the signal has been raised.
    pub closed spec fn spec_cancelled(&self) -> bool {
        self.cancelled
    }

    /// The loop handed back for `side`, if any.
    pub closed spec fn spec_ended(&self, side: Side) -> Option<ForwardingLoop> {
        match side {
            Side::External => self.external,
            Side::Internal => self.internal,
        }
    }

    /// The coordinator once the signal is raised.
    pub closed spec fn after_trigger(&self) -> ShutdownCoordinator {
        ShutdownCoordinator { cancelled: true, ..*self }
    }

    /// Every loop handed back has stopped and belongs to its own side.
    pub open spec fn wf(&self) -> bool {
        forall|s: Side|
            #[trigger] self.spec_ended(s) matches Some(lp) ==> lp.side == s && lp.state
                == LoopState::Stopped
    }

    /// Both loops have been handed back.
    pub open spec fn spec_all_stopped(&self) -> bool {
        self.spec_ended(Side::External) is Some && self.spec_ended(Side::Internal) is Some
    }

    /// A coordinator before shutdown: no signal, no loop ended.
    pub fn new() -> (r: ShutdownCoordinator)
        ensures
            r.wf(),
            !r.spec_cancelled(),
            r.spec_ended(Side::External) is None,
            r.spec_ended(Side::Internal) is None,
    {
        ShutdownCoordinator { cancelled: false, external: None, internal: None }
    }

    /// Raises the signal. Raising it again changes nothing; it is never
    /// lowered.
    pub fn trigger(&mut self)
        requires
            old(self).wf(),
        ensures
            *final(self) == old(self).after_trigger(),
            final(self).wf(),
            final(self).spec_cancelled(),
            forall|s: Side| #[trigger] final(self).spec_ended(s) == old(self).spec_ended(s),
    {
        self.cancelled = true;
        assert(forall|s: Side| #[trigger] self.spec_ended(s) == old(self).spec_ended(s));
    }

    /// Whether the signal has been raised.
    pub fn is_cancelled(&self) -> (r: bool)
        ensures
            r == self.spec_cancelled(),
    {
        self.cancelled
    }

    /// Takes back a loop that has ended. A loop that has not stopped, or
    /// whose side was already handed back, is returned unchanged.
    pub fn record_stopped(&mut self, lp: ForwardingLoop) -> (r: Result<(), ForwardingLoop>)
        requires
            old(self).wf(),
        ensures
            final(self).wf(),
            final(self).spec_cancelled() == old(self).spec_cancelled(),
            (lp.state == LoopState::Stopped && old(self).spec_ended(lp.side) is None) ==> {
                &&& r is Ok
                &&& final(self).spec_ended(lp.side) == Some(lp)
                &&& final(self).spec_ended(lp.side.spec_peer()) == old(self).spec_ended(
                    lp.side.spec_peer(),
                )
            },
            !(lp.state == LoopState::Stopped && old(self).spec_ended(lp.side) is None) ==> {
                &&& r == Err::<(), ForwardingLoop>(lp)
                &&& *final(self) == *old(self)
            },
    {
        if lp.state != LoopState::Stopped {
            return Err(lp);
        }
        match lp.side {
            Side::External => {
                if self.external.is_some() {
                    return Err(lp);
                }
                self.external = Some(lp);
            },
            Side::Internal => {
                if self.internal.is_some() {
                    return Err(lp);
                }
                self.internal = Some(lp);
            },
        }
        assert(forall|s: Side| #[trigger] self.spec_ended(s) matches Some(l) ==> l.side == s);
        Ok(())
    }

    /// Whether both loops have ended.
    pub fn all_stopped(&self) -> (r: bool)
        ensures
            r == self.spec_all_stopped(),
    {
        self.external.is_some() && self.internal.is_some()
    }
}

/// Raising the signal twice leaves the coordinator as raising it once, and
/// raising it keeps the loops already handed back.
pub proof fn lemma_trigger_idempotent(c: ShutdownCoordinator)
    ensures
        c.after_trigger().after_trigger() == c.after_trigger(),
        c.after_trigger().spec_cancelled(),
        forall|s: Side| #[trigger] c.after_trigger().spec_ended(s) == c.spec_ended(s),
{
}

/// Once both loops are back, neither captures nor transmits again: each has
/// stopped, stays stopped and answers every event with no transmit.
pub proof fn lemma_quiet_after_shutdown(c: ShutdownCoordinator, s: Side, ev: Event, a: Action)
    requires
        c.wf(),
        c.spec_all_stopped(),
        action_for(c.spec_ended(s)->0.state, s, ev, a),
    ensures
        c.spec_ended(s)->0.state != LoopState::Running,
        next_state(c.spec_ended(s)->0.state, ev) == LoopState::Stopped,
        !transmits(a),
{
    assert(c.spec_ended(s) is Some) by {
        match s {
            Side::External => {},
            Side::Internal => {},
        }
    }
}

} // verus!
