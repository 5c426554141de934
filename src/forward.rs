//! The forwarding loop of one interface, as a state machine: the embedding
//! program captures frames and watches for cancellation, hands each outcome
//! in as an event, and carries out the action that comes back.

use crate::classify::{should_forward, verdict_of, Verdict};
use crate::link::Side;
use vstd::prelude::*;

verus! {

/// Where a forwarding loop stands.
#[derive(Clone, Copy, Debug, PartialEq, Eq, Structural)]
pub enum LoopState {
    /// Capturing and forwarding frames.
    Running,
    /// Cancellation was observed; the current iteration is finishing.
    Draining,
    /// The loop has ended.
    Stopped,
}

/// What one wait of a loop produced.
#[derive(Debug, PartialEq, Eq)]
pub enum Event {
    /// The shutdown signal won the race against the capture.
    Cancelled,
    /// A frame was captured.
    Frame(Vec<u8>),
    /// The capture failed; the text describes the failure.
    CaptureFailed(String),
}

/// What the embedding program is to do after an event.
#[derive(Debug, PartialEq, Eq)]
pub enum Action {
    /// Transmit `frame`, unchanged, through the injection side of `to`.
    Inject { to: Side, frame: Vec<u8> },
    /// The frame was not admitted; nothing is sent.
    Discard,
    /// Report a capture failure and go on capturing.
    Report(String),
    /// Leave the loop.
    Stop,
    /// Nothing: the loop no longer runs.
    Idle,
}

/// The state after `ev` arrives in `state`.
pub open spec fn next_state(state: LoopState, ev: Event) -> LoopState {
    match state {
        LoopState::Running => match ev {
            Event::Cancelled => LoopState::Draining,
            _ => LoopState::Running,
        },
        _ => state,
    }
}

/// Whether `a` is the action owed when `ev` arrives at the loop of `side`
/// in `state`: a running loop sends an admitted frame, byte for byte, to the
/// peer interface, drops any other frame, reports a capture failure and
/// stops on cancellation; a loop that is no longer running does nothing.
pub open spec fn action_for(state: LoopState, side: Side, ev: Event, a: Action) -> bool {
    match state {
        LoopState::Running => match ev {
            Event::Cancelled => a is Stop,
            Event::Frame(f) => if verdict_of(f@) == Verdict::Admit {
                a matches Action::Inject { to, frame } && to == side.spec_peer() && frame@ == f@
            } else {
                a is Discard
            },
            Event::CaptureFailed(m) => a matches Action::Report(t) && t@ == m@,
        },
        _ => a is Idle,
    }
}

/// Whether an action sends anything.
pub open spec fn transmits(a: Action) -> bool {
    a is Inject
}

/// The copy of a captured frame that is to be sent to the peer interface,
/// or none where the frame is not admitted.
pub fn process_packet(packet: &Vec<u8>) -> (r: Option<Vec<u8>>)
    ensures
        r is Some <==> verdict_of(packet@) == Verdict::Admit,
        r matches Some(copy) ==> copy@ == packet@,
{
    if should_forward(packet) {
        let copy = packet.clone();
        assert(copy@ =~= packet@);
        Some(copy)
    } else {
        None
    }
}

/// The forwarding loop of one interface: it captures on `side` and injects
/// only through the peer of `side`.
#[derive(Debug, PartialEq, Eq, Structural)]
pub struct ForwardingLoop {
    pub side: Side,
    pub state: LoopState,
}

impl ForwardingLoop {
    /// A loop on `side`, ready to capture.
    pub fn new(side: Side) -> (r: ForwardingLoop)
        ensures
            r.side == side,
            r.state == LoopState::Running,
    {
        ForwardingLoop { side, state: LoopState::Running }
    }

    /// Whether the loop is to wait for another frame.
    pub fn receives(&self) -> (r: bool)
        ensures
            r == (self.state == LoopState::Running),
    {
        self.state == LoopState::Running
    }

    /// Whether the loop has ended.
    pub fn is_stopped(&self) -> (r: bool)
        ensures
            r == (self.state == LoopState::Stopped),
    {
        self.state == LoopState::Stopped
    }

    /// Takes in what the last wait produced and says what to do.
    pub fn on_event(&mut self, ev: Event) -> (r: Action)
        ensures
            final(self).side == old(self).side,
            final(self).state == next_state(old(self).state, ev),
            action_for(old(self).state, old(self).side, ev, r),
    {
        if self.state != LoopState::Running {
            return Action::Idle;
        }
        match ev {
            Event::Cancelled => {
                self.state = LoopState::Draining;
                Action::Stop
            },
            Event::Frame(f) => match process_packet(&f) {
                Some(copy) => Action::Inject { to: self.side.peer(), frame: copy },
                None => Action::Discard,
            },
            Event::CaptureFailed(m) => Action::Report(m),
        }
    }

    /// Ends the iteration that observed cancellation.
    pub fn finish(&mut self)
        ensures
            final(self).side == old(self).side,
            old(self).state == LoopState::Draining ==> final(self).state == LoopState::Stopped,
            old(self).state != LoopState::Draining ==> final(self).state == old(self).state,
    {
        if self.state == LoopState::Draining {
            self.state = LoopState::Stopped;
        }
    }
}

/// A stopped loop stays stopped and neither captures nor transmits, whatever
/// arrives.
pub proof fn lemma_stopped_loop_is_silent(lp: ForwardingLoop, ev: Event, a: Action)
    requires
        lp.state == LoopState::Stopped,
        action_for(lp.state, lp.side, ev, a),
    ensures
        next_state(lp.state, ev) == LoopState::Stopped,
        lp.state != LoopState::Running,
        !transmits(a),
{
}

/// A loop only ever transmits to the peer of its own interface.
pub proof fn lemma_injects_only_to_peer(lp: ForwardingLoop, ev: Event, a: Action)
    requires
        action_for(lp.state, lp.side, ev, a),
        transmits(a),
    ensures
        a->to == lp.side.spec_peer(),
        a->to != lp.side,
{
}

/// Every transmitted frame was captured and admitted by the classifier, and
/// is sent byte for byte.
pub proof fn lemma_injects_only_admitted(lp: ForwardingLoop, ev: Event, a: Action)
    requires
        action_for(lp.state, lp.side, ev, a),
        transmits(a),
    ensures
        ev matches Event::Frame(f) && verdict_of(f@) == Verdict::Admit && a->frame@ == f@,
{
}

} // verus!
