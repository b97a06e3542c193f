//! Per-connection lifecycle: the decisions of the transport front end as a
//! state machine. The runtime accepts the socket, awaits the permit, runs the
//! handshake and the request loop, and feeds what it observed back as events;
//! the machine answers with the next phase and the action owed — including
//! releasing the admission permit exactly once on every exit path.

use vstd::prelude::*;

verus! {

/// Where one connection stands in its service lifecycle.
#[derive(Clone, Copy, PartialEq, Eq, Structural, Debug)]
pub enum ConnPhase {
    AwaitingPermit,
    Handshaking,
    Serving,
    Closed,
}

/// What the runtime observed for the connection.
#[derive(Clone, Copy, PartialEq, Eq, Structural, Debug)]
pub enum ConnEvent {
    PermitGranted,
    HandshakeSucceeded,
    HandshakeFailed,
    RequestArrived,
    ConnectionEnded,
}

/// What the runtime owes after a step.
#[derive(Clone, Copy, PartialEq, Eq, Structural, Debug)]
pub enum ConnAction {
    BeginHandshake,
    BeginServing,
    DispatchRequest,
    ReleasePermit,
    Ignore,
}

/// The transition table. With TLS configured, an admitted connection first
/// handshakes; a handshake failure is non-fatal for the server and closes
/// only this connection, still releasing its permit. Without TLS, admission
/// leads straight to serving. Every path out of service releases the permit,
/// and a closed connection absorbs every further event.
pub open spec fn conn_step_spec(p: ConnPhase, tls: bool, e: ConnEvent) -> (ConnPhase, ConnAction) {
    match (p, e) {
        (ConnPhase::AwaitingPermit, ConnEvent::PermitGranted) => if tls {
            (ConnPhase::Handshaking, ConnAction::BeginHandshake)
        } else {
            (ConnPhase::Serving, ConnAction::BeginServing)
        },
        (ConnPhase::Handshaking, ConnEvent::HandshakeSucceeded) => (ConnPhase::Serving, ConnAction::BeginServing),
        (ConnPhase::Handshaking, ConnEvent::HandshakeFailed) => (ConnPhase::Closed, ConnAction::ReleasePermit),
        (ConnPhase::Handshaking, ConnEvent::ConnectionEnded) => (ConnPhase::Closed, ConnAction::ReleasePermit),
        (ConnPhase::Serving, ConnEvent::RequestArrived) => (ConnPhase::Serving, ConnAction::DispatchRequest),
        (ConnPhase::Serving, ConnEvent::ConnectionEnded) => (ConnPhase::Closed, ConnAction::ReleasePermit),
        _ => (p, ConnAction::Ignore),
    }
}

/// One step of the per-connection service loop.
pub fn conn_step(p: ConnPhase, tls: bool, e: ConnEvent) -> (r: (ConnPhase, ConnAction))
    ensures
        r == conn_step_spec(p, tls, e),
{
    match (p, e) {
        (ConnPhase::AwaitingPermit, ConnEvent::PermitGranted) => if tls {
            (ConnPhase::Handshaking, ConnAction::BeginHandshake)
        } else {
            (ConnPhase::Serving, ConnAction::BeginServing)
        },
        (ConnPhase::Handshaking, ConnEvent::HandshakeSucceeded) => (ConnPhase::Serving, ConnAction::BeginServing),
        (ConnPhase::Handshaking, ConnEvent::HandshakeFailed) => (ConnPhase::Closed, ConnAction::ReleasePermit),
        (ConnPhase::Handshaking, ConnEvent::ConnectionEnded) => (ConnPhase::Closed, ConnAction::ReleasePermit),
        (ConnPhase::Serving, ConnEvent::RequestArrived) => (ConnPhase::Serving, ConnAction::DispatchRequest),
        (ConnPhase::Serving, ConnEvent::ConnectionEnded) => (ConnPhase::Closed, ConnAction::ReleasePermit),
        _ => (p, ConnAction::Ignore),
    }
}

/// A connection in these phases holds an admission permit.
pub open spec fn holds_permit(p: ConnPhase) -> bool {
    p == ConnPhase::Handshaking || p == ConnPhase::Serving
}

pub open spec fn permit_held(p: ConnPhase) -> nat {
    if holds_permit(p) {
        1
    } else {
        0
    }
}

/// Whether this step consumes a permit (a successful acquire).
pub open spec fn step_admits(p: ConnPhase, e: ConnEvent) -> nat {
    if p == ConnPhase::AwaitingPermit && e == ConnEvent::PermitGranted {
        1
    } else {
        0
    }
}

/// Whether this step returns the permit.
pub open spec fn step_releases(p: ConnPhase, tls: bool, e: ConnEvent) -> nat {
    if conn_step_spec(p, tls, e).1 == ConnAction::ReleasePermit {
        1
    } else {
        0
    }
}

/// Runs the machine over a whole event sequence: the final phase, how many
/// acquires succeeded, and how many releases were ordered.
pub open spec fn conn_run(p: ConnPhase, tls: bool, events: Seq<ConnEvent>) -> (ConnPhase, nat, nat)
    decreases events.len(),
{
    if events.len() == 0 {
        (p, 0, 0)
    } else {
        let next = conn_step_spec(p, tls, events[0]).0;
        let rest = conn_run(next, tls, events.drop_first());
        (rest.0, step_admits(p, events[0]) + rest.1, step_releases(p, tls, events[0]) + rest.2)
    }
}

proof fn lemma_conn_run_balance(p: ConnPhase, tls: bool, events: Seq<ConnEvent>)
    ensures
        conn_run(p, tls, events).2 + permit_held(conn_run(p, tls, events).0)
            == conn_run(p, tls, events).1 + permit_held(p),
        conn_run(p, tls, events).1 <= (if p == ConnPhase::AwaitingPermit { 1nat } else { 0nat }),
    decreases events.len(),
{
    if events.len() > 0 {
        let next = conn_step_spec(p, tls, events[0]).0;
        lemma_conn_run_balance(next, tls, events.drop_first());
    }
}

/// Law (permit conservation): over any sequence of events a connection, from
/// acceptance on, succeeds in at most one acquire, and the releases ordered
/// so far balance the acquires exactly, less the one permit still held while
/// the connection is in service — so a connection that reaches `Closed` (by
/// client close, handshake failure, or mid-connection error) has released
/// exactly once per successful acquire, and a connection never releases a
/// permit it did not acquire.
pub proof fn lemma_permit_conservation(tls: bool, events: Seq<ConnEvent>)
    ensures
        conn_run(ConnPhase::AwaitingPermit, tls, events).2 + permit_held(conn_run(ConnPhase::AwaitingPermit, tls, events).0)
            == conn_run(ConnPhase::AwaitingPermit, tls, events).1,
        conn_run(ConnPhase::AwaitingPermit, tls, events).1 <= 1,
        !holds_permit(conn_run(ConnPhase::AwaitingPermit, tls, events).0)
            ==> conn_run(ConnPhase::AwaitingPermit, tls, events).2 == conn_run(ConnPhase::AwaitingPermit, tls, events).1,
{
    lemma_conn_run_balance(ConnPhase::AwaitingPermit, tls, events);
}

} // verus!
