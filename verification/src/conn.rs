//! The per-connection state machine of the acceptor / orchestrator.
//!
//! Every accepted connection walks `Accepted → Admitted → Dialing → Tuned →
//! Relaying → Closed`, reaching the terminal `Closed` state from any prior
//! state on failure or on relay completion. The surrounding process performs
//! the outside work — waiting for a permit, the timed dial, the socket
//! tuning, the bidirectional copy — and reports each outcome here as an
//! event; `ConnTask::step` decides the transition, tracks which resources
//! (permit, client socket, destination socket) the task still holds, and
//! names the diagnostic owed for a failure event.

use vstd::prelude::*;

verus! {

/// The lifecycle states of one accepted connection.
#[derive(Clone, Copy, Debug, PartialEq, Eq, Structural)]
pub enum ConnState {
    /// The client socket was accepted; no permit is held yet.
    Accepted,
    /// The admission pool granted a permit.
    Admitted,
    /// The outbound connect to the destination is in flight.
    Dialing,
    /// The destination connection is established and socket options were
    /// applied (best effort).
    Tuned,
    /// The bidirectional copy is running.
    Relaying,
    /// Terminal: the permit is released and both sockets are closed.
    Closed,
}

/// Outcomes of the outside work, fed back into the state machine.
#[derive(Clone, Copy, Debug, PartialEq, Eq, Structural)]
pub enum ConnEvent {
    /// The admission pool granted a permit.
    PermitGranted,
    /// The admission pool is shutting down; no permit will come.
    AdmissionDenied,
    /// The outbound connect was started.
    DialStarted,
    /// The outbound connect completed before the timeout.
    DialSucceeded,
    /// The outbound connect failed (refused, unreachable) before the timeout.
    DialFailed,
    /// The timeout elapsed before the outbound connect completed.
    DialTimedOut,
    /// Applying the low-latency socket option failed; non-fatal.
    TuneFailed,
    /// The bidirectional copy began.
    RelayStarted,
    /// Both directions of the relay reached end-of-stream.
    RelayFinished,
    /// An I/O error aborted the relay.
    RelayErrored,
}

/// The per-connection failure classes that carry a diagnostic.
#[derive(Clone, Copy, Debug, PartialEq, Eq, Structural)]
pub enum FailureKind {
    /// The destination refused or was unreachable before the timeout.
    DialFailure,
    /// The destination did not accept within the configured timeout.
    DialTimeout,
    /// A socket option could not be applied; the relay proceeds.
    TuneFailure,
    /// An I/O error during forwarding aborted the relay.
    RelayFailure,
}

/// The transition relation: the state a connection moves to when `ev`
/// arrives in state `s`. An event that does not belong to the current state
/// changes nothing; `Closed` is terminal.
pub open spec fn next_state(s: ConnState, ev: ConnEvent) -> ConnState {
    match (s, ev) {
        (ConnState::Accepted, ConnEvent::PermitGranted) => ConnState::Admitted,
        (ConnState::Accepted, ConnEvent::AdmissionDenied) => ConnState::Closed,
        (ConnState::Admitted, ConnEvent::DialStarted) => ConnState::Dialing,
        (ConnState::Dialing, ConnEvent::DialSucceeded) => ConnState::Tuned,
        (ConnState::Dialing, ConnEvent::DialFailed) => ConnState::Closed,
        (ConnState::Dialing, ConnEvent::DialTimedOut) => ConnState::Closed,
        (ConnState::Tuned, ConnEvent::RelayStarted) => ConnState::Relaying,
        (ConnState::Relaying, ConnEvent::RelayFinished) => ConnState::Closed,
        (ConnState::Relaying, ConnEvent::RelayErrored) => ConnState::Closed,
        (other, _) => other,
    }
}

/// The diagnostic owed when `ev` arrives in state `s`: each failure event is
/// reported exactly when it belongs to the current state. A tuning failure
/// is reported but fatal to nothing.
pub open spec fn diagnostic_of(s: ConnState, ev: ConnEvent) -> Option<FailureKind> {
    match (s, ev) {
        (ConnState::Dialing, ConnEvent::DialFailed) => Some(FailureKind::DialFailure),
        (ConnState::Dialing, ConnEvent::DialTimedOut) => Some(FailureKind::DialTimeout),
        (ConnState::Tuned, ConnEvent::TuneFailed) => Some(FailureKind::TuneFailure),
        (ConnState::Relaying, ConnEvent::RelayErrored) => Some(FailureKind::RelayFailure),
        _ => None,
    }
}

/// The step on `(s, ev)` takes the admission permit.
pub open spec fn grants_permit(s: ConnState, ev: ConnEvent) -> bool {
    s is Accepted && ev is PermitGranted
}

/// The step on `(s, ev)` establishes the destination connection.
pub open spec fn opens_dest(s: ConnState, ev: ConnEvent) -> bool {
    s is Dialing && ev is DialSucceeded
}

/// Whether the permit is held after the step: entering `Closed` always hands
/// it back, admission takes it, and every other step keeps it as it was.
pub open spec fn holds_permit_after(s: ConnState, ev: ConnEvent, held: bool) -> bool {
    if next_state(s, ev) is Closed {
        false
    } else if grants_permit(s, ev) {
        true
    } else {
        held
    }
}

/// Whether the destination socket is open after the step: entering `Closed`
/// always closes it, so a failed or timed-out dial retains no destination
/// connection.
pub open spec fn dest_open_after(s: ConnState, ev: ConnEvent, open: bool) -> bool {
    if next_state(s, ev) is Closed {
        false
    } else if opens_dest(s, ev) {
        true
    } else {
        open
    }
}

/// Whether the client socket is open after the step: it stays open until the
/// connection closes, whatever the reason.
pub open spec fn client_open_after(s: ConnState, ev: ConnEvent, open: bool) -> bool {
    if next_state(s, ev) is Closed {
        false
    } else {
        open
    }
}

/// What a step reports back to the caller: whether the permit was handed
/// back during this step, and which diagnostic, if any, the event calls for.
pub struct StepEffect {
    /// The admission permit was handed back during this step. The caller
    /// returns it to the pool.
    pub released_permit: bool,
    /// The failure to report, when the event is a failure in the current
    /// state.
    pub diagnostic: Option<FailureKind>,
}

/// The handling of one accepted connection: its lifecycle state, the
/// resources it holds, and ghost totals of the permits it took and returned.
pub struct ConnTask {
    /// Current lifecycle state.
    pub state: ConnState,
    /// The task currently holds an admission permit.
    pub holds_permit: bool,
    /// The client socket is open.
    pub client_open: bool,
    /// The destination socket is open.
    pub dest_open: bool,
    /// Total permits acquired over the connection's lifetime.
    pub permits_acquired: Ghost<nat>,
    /// Total permits released over the connection's lifetime.
    pub permits_released: Ghost<nat>,
}

impl ConnTask {
    /// The task's invariant: the permit totals balance with the held flag,
    /// at most one permit is ever taken, and each state holds exactly the
    /// resources it should — in particular, `Closed` holds none.
    pub open spec fn wf(&self) -> bool {
        &&& self.permits_acquired@ == self.permits_released@ + (
        if self.holds_permit {
            1nat
        } else {
            0nat
        })
        &&& self.permits_acquired@ <= 1
        &&& (self.state is Accepted ==> !self.holds_permit && !self.dest_open && self.client_open
            && self.permits_acquired@ == 0)
        &&& (self.state is Admitted ==> self.holds_permit && !self.dest_open && self.client_open)
        &&& (self.state is Dialing ==> self.holds_permit && !self.dest_open && self.client_open)
        &&& (self.state is Tuned ==> self.holds_permit && self.dest_open && self.client_open)
        &&& (self.state is Relaying ==> self.holds_permit && self.dest_open && self.client_open)
        &&& (self.state is Closed ==> !self.holds_permit && !self.dest_open && !self.client_open)
    }

    /// A freshly accepted connection: client socket open, nothing else held.
    pub fn new() -> (t: ConnTask)
        ensures
            t.wf(),
            t.state is Accepted,
            t.client_open,
            !t.dest_open,
            !t.holds_permit,
            t.permits_acquired@ == 0,
            t.permits_released@ == 0,
    {
        ConnTask {
            state: ConnState::Accepted,
            holds_permit: false,
            client_open: true,
            dest_open: false,
            permits_acquired: Ghost(0),
            permits_released: Ghost(0),
        }
    }

    /// Apply one event: move to the next state, update the held resources,
    /// and report the permit release and the diagnostic the event calls for.
    pub fn step(&mut self, ev: ConnEvent) -> (eff: StepEffect)
        requires
            old(self).wf(),
        ensures
            final(self).wf(),
            final(self).state == next_state(old(self).state, ev),
            final(self).holds_permit == holds_permit_after(old(self).state, ev, old(self).holds_permit),
            final(self).dest_open == dest_open_after(old(self).state, ev, old(self).dest_open),
            final(self).client_open == client_open_after(old(self).state, ev, old(self).client_open),
            eff.released_permit == (old(self).holds_permit && next_state(old(self).state, ev) is Closed),
            eff.diagnostic == diagnostic_of(old(self).state, ev),
            final(self).permits_acquired@ == old(self).permits_acquired@ + (
                if grants_permit(old(self).state, ev) {
                    1nat
                } else {
                    0nat
                }
            ),
            final(self).permits_released@ == old(self).permits_released@ + (
                if eff.released_permit {
                    1nat
                } else {
                    0nat
                }
            ),
    {
        let s0 = self.state;
        let next = match (s0, ev) {
            (ConnState::Accepted, ConnEvent::PermitGranted) => ConnState::Admitted,
            (ConnState::Accepted, ConnEvent::AdmissionDenied) => ConnState::Closed,
            (ConnState::Admitted, ConnEvent::DialStarted) => ConnState::Dialing,
            (ConnState::Dialing, ConnEvent::DialSucceeded) => ConnState::Tuned,
            (ConnState::Dialing, ConnEvent::DialFailed) => ConnState::Closed,
            (ConnState::Dialing, ConnEvent::DialTimedOut) => ConnState::Closed,
            (ConnState::Tuned, ConnEvent::RelayStarted) => ConnState::Relaying,
            (ConnState::Relaying, ConnEvent::RelayFinished) => ConnState::Closed,
            (ConnState::Relaying, ConnEvent::RelayErrored) => ConnState::Closed,
            (other, _) => other,
        };
        let diagnostic = match (s0, ev) {
            (ConnState::Dialing, ConnEvent::DialFailed) => Some(FailureKind::DialFailure),
            (ConnState::Dialing, ConnEvent::DialTimedOut) => Some(FailureKind::DialTimeout),
            (ConnState::Tuned, ConnEvent::TuneFailed) => Some(FailureKind::TuneFailure),
            (ConnState::Relaying, ConnEvent::RelayErrored) => Some(FailureKind::RelayFailure),
            _ => None,
        };
        if s0 == ConnState::Accepted && ev == ConnEvent::PermitGranted {
            self.holds_permit = true;
            self.permits_acquired = Ghost(self.permits_acquired@ + 1);
        }
        if s0 == ConnState::Dialing && ev == ConnEvent::DialSucceeded {
            self.dest_open = true;
        }
        let released_permit = self.holds_permit && next == ConnState::Closed;
        if next == ConnState::Closed {
            if self.holds_permit {
                self.permits_released = Ghost(self.permits_released@ + 1);
                self.holds_permit = false;
            }
            self.dest_open = false;
            self.client_open = false;
        }
        self.state = next;
        StepEffect { released_permit, diagnostic }
    }
}

/// Law (dial timeout): when the timeout elapses during the dial, the
/// connection closes at once — the client socket is closed, no destination
/// connection is retained, the permit it necessarily held is handed back,
/// and a `DialTimeout` diagnostic is owed.
pub proof fn lemma_dial_timeout_closes(t: ConnTask)
    requires
        t.wf(),
        t.state is Dialing,
    ensures
        next_state(t.state, ConnEvent::DialTimedOut) is Closed,
        !client_open_after(t.state, ConnEvent::DialTimedOut, t.client_open),
        !dest_open_after(t.state, ConnEvent::DialTimedOut, t.dest_open),
        !holds_permit_after(t.state, ConnEvent::DialTimedOut, t.holds_permit),
        t.holds_permit,
        diagnostic_of(t.state, ConnEvent::DialTimedOut) == Some(FailureKind::DialTimeout),
{
}

/// Law (permit pairing): a task acquires at most one permit, and once it is
/// `Closed` it has released exactly as many permits as it acquired — one
/// release per acquire on every exit path, normal or failing.
pub proof fn lemma_permit_pairing(t: ConnTask)
    requires
        t.wf(),
    ensures
        t.permits_acquired@ <= 1,
        t.state is Closed ==> t.permits_released@ == t.permits_acquired@,
{
}

/// The state a connection reaches after a whole sequence of events.
pub open spec fn run_events(s: ConnState, evs: Seq<ConnEvent>) -> ConnState
    decreases evs.len(),
{
    if evs.len() == 0 {
        s
    } else {
        run_events(next_state(s, evs[0]), evs.skip(1))
    }
}

/// Without a permit grant, a freshly accepted (or already closed) connection
/// only ever sits in `Accepted` or `Closed`.
proof fn lemma_no_permit_stays_out(s: ConnState, evs: Seq<ConnEvent>)
    requires
        s is Accepted || s is Closed,
        forall|i: int| 0 <= i < evs.len() ==> !(evs[i] is PermitGranted),
    ensures
        run_events(s, evs) is Accepted || run_events(s, evs) is Closed,
    decreases evs.len(),
{
    if evs.len() > 0 {
        let s1 = next_state(s, evs[0]);
        assert(!(evs[0] is PermitGranted));
        let rest = evs.skip(1);
        assert forall|i: int| 0 <= i < rest.len() implies !(rest[i] is PermitGranted) by {
            assert(rest[i] == evs[i + 1]);
        }
        lemma_no_permit_stays_out(s1, rest);
    }
}

/// Law (backpressure, connection side): a connection begins dialing — or
/// gets anywhere past admission — only after the admission pool granted it
/// a permit. Every event sequence that takes a freshly accepted connection
/// into `Admitted`, `Dialing`, `Tuned` or `Relaying` contains a
/// `PermitGranted` event; while the pool is at capacity no such event
/// occurs, so the waiting connection does not begin to dial.
pub proof fn lemma_dialing_needs_permit(evs: Seq<ConnEvent>)
    requires
        !(run_events(ConnState::Accepted, evs) is Accepted),
        !(run_events(ConnState::Accepted, evs) is Closed),
    ensures
        exists|i: int| 0 <= i < evs.len() && evs[i] is PermitGranted,
{
    if !(exists|i: int| 0 <= i < evs.len() && evs[i] is PermitGranted) {
        assert(forall|i: int| 0 <= i < evs.len() ==> !(evs[i] is PermitGranted));
        lemma_no_permit_stays_out(ConnState::Accepted, evs);
        assert(false);
    }
}

} // verus!
