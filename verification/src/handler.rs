//! The tunnel connection handler: one task per tunnel peer.
//!
//! A handler owns one QUIC session.  It first tries optimistic 0-RTT
//! completion; if the transport cannot defer, it awaits the full handshake
//! under a bounded deadline.  Once confirmed it serves: it repeatedly takes
//! the next unit of forwarding work off the fan-in queue, opens a fresh
//! bidirectional stream on its session, and hands the pair to a forwarder.
//!
//! The runtime performs the awaits; the decisions live here, as a step
//! function from state and event to next state and action.

use vstd::prelude::*;
use crate::errors::TunnelError;

verus! {

/// Lifecycle of one tunnel connection handler.
#[derive(Clone, Copy, Debug, PartialEq, Eq, Structural)]
pub enum HandlerState {
    /// The inbound QUIC attempt was accepted; 0-RTT has not been tried yet.
    Accepting,
    /// 0-RTT was unavailable; awaiting full handshake under the deadline.
    HandshakeConfirming,
    /// Handshake confirmed; serving units off the fan-in queue.
    Serving,
    /// The handler's task has ended.
    Closed,
}

/// What the runtime observed since the last step.
#[derive(Clone, Copy, Debug, PartialEq, Eq, Structural)]
pub enum HandlerEvent {
    /// The transport completed the connection optimistically (0-RTT).
    ZeroRttAccepted,
    /// The transport cannot defer; a full handshake must be awaited.
    ZeroRttUnavailable,
    /// The full handshake was confirmed within the deadline.
    HandshakeConfirmed,
    /// The handshake deadline elapsed.
    HandshakeTimedOut,
    /// The transport rejected the handshake.
    HandshakeRejected,
    /// The next unit of forwarding work arrived from the fan-in queue.
    WorkReceived,
    /// The fan-in queue is closed and drained: shutdown is in progress.
    QueueDisconnected,
    /// A new bidirectional stream was opened for the unit in hand.
    StreamOpened,
    /// Opening a bidirectional stream failed (the peer has degraded).
    StreamOpenFailed,
    /// The supervisor aborted the handler.
    Aborted,
}

/// What the runtime must do next.
#[derive(Clone, Copy, Debug, PartialEq, Eq, Structural)]
pub enum HandlerAction {
    /// Await full handshake confirmation, bounded by
    /// [`crate::HANDSHAKE_TIMEOUT_SECS`].
    AwaitHandshake,
    /// Receive the next unit of forwarding work from the fan-in queue.
    AwaitWork,
    /// Open a new bidirectional stream on the owned QUIC session.
    OpenStream,
    /// Hand the unit in hand and the opened stream to a forwarder task,
    /// then go back to the queue.  The unit is consumed here: it is never
    /// returned to the queue.
    SpawnForwarder,
    /// End the task, reporting the error if one is carried.  The error is
    /// contained: it ends this peer's session only.
    Stop(Option<TunnelError>),
    /// The event does not apply in this state; keep doing what the state
    /// was doing.
    Ignore,
}

/// The handler's transition relation.
///
/// `Serving` + `StreamOpenFailed` loses the unit in hand together with the
/// connection: work dequeued by a handler whose peer degrades mid-assignment
/// is not re-queued.
pub open spec fn spec_handler_step(s: HandlerState, e: HandlerEvent) -> (HandlerState, HandlerAction) {
    match (s, e) {
        (HandlerState::Accepting, HandlerEvent::ZeroRttAccepted) => (
            HandlerState::Serving,
            HandlerAction::AwaitWork,
        ),
        (HandlerState::Accepting, HandlerEvent::ZeroRttUnavailable) => (
            HandlerState::HandshakeConfirming,
            HandlerAction::AwaitHandshake,
        ),
        (HandlerState::HandshakeConfirming, HandlerEvent::HandshakeConfirmed) => (
            HandlerState::Serving,
            HandlerAction::AwaitWork,
        ),
        (HandlerState::HandshakeConfirming, HandlerEvent::HandshakeTimedOut) => (
            HandlerState::Closed,
            HandlerAction::Stop(Some(TunnelError::HandshakeTimeout)),
        ),
        (HandlerState::HandshakeConfirming, HandlerEvent::HandshakeRejected) => (
            HandlerState::Closed,
            HandlerAction::Stop(Some(TunnelError::HandshakeRejected)),
        ),
        (HandlerState::Serving, HandlerEvent::WorkReceived) => (
            HandlerState::Serving,
            HandlerAction::OpenStream,
        ),
        (HandlerState::Serving, HandlerEvent::StreamOpened) => (
            HandlerState::Serving,
            HandlerAction::SpawnForwarder,
        ),
        (HandlerState::Serving, HandlerEvent::StreamOpenFailed) => (
            HandlerState::Closed,
            HandlerAction::Stop(Some(TunnelError::StreamOpenFailed)),
        ),
        (HandlerState::Serving, HandlerEvent::QueueDisconnected) => (
            HandlerState::Closed,
            HandlerAction::Stop(Some(TunnelError::QueueClosed)),
        ),
        (_, HandlerEvent::Aborted) => (HandlerState::Closed, HandlerAction::Stop(None)),
        (_, _) => (s, HandlerAction::Ignore),
    }
}

/// Advances one tunnel connection handler by one observed event.
pub fn handler_step(s: HandlerState, e: HandlerEvent) -> (r: (HandlerState, HandlerAction))
    ensures
        r == spec_handler_step(s, e),
{
    match (s, e) {
        (HandlerState::Accepting, HandlerEvent::ZeroRttAccepted) => (
            HandlerState::Serving,
            HandlerAction::AwaitWork,
        ),
        (HandlerState::Accepting, HandlerEvent::ZeroRttUnavailable) => (
            HandlerState::HandshakeConfirming,
            HandlerAction::AwaitHandshake,
        ),
        (HandlerState::HandshakeConfirming, HandlerEvent::HandshakeConfirmed) => (
            HandlerState::Serving,
            HandlerAction::AwaitWork,
        ),
        (HandlerState::HandshakeConfirming, HandlerEvent::HandshakeTimedOut) => (
            HandlerState::Closed,
            HandlerAction::Stop(Some(TunnelError::HandshakeTimeout)),
        ),
        (HandlerState::HandshakeConfirming, HandlerEvent::HandshakeRejected) => (
            HandlerState::Closed,
            HandlerAction::Stop(Some(TunnelError::HandshakeRejected)),
        ),
        (HandlerState::Serving, HandlerEvent::WorkReceived) => (
            HandlerState::Serving,
            HandlerAction::OpenStream,
        ),
        (HandlerState::Serving, HandlerEvent::StreamOpened) => (
            HandlerState::Serving,
            HandlerAction::SpawnForwarder,
        ),
        (HandlerState::Serving, HandlerEvent::StreamOpenFailed) => (
            HandlerState::Closed,
            HandlerAction::Stop(Some(TunnelError::StreamOpenFailed)),
        ),
        (HandlerState::Serving, HandlerEvent::QueueDisconnected) => (
            HandlerState::Closed,
            HandlerAction::Stop(Some(TunnelError::QueueClosed)),
        ),
        (_, HandlerEvent::Aborted) => (HandlerState::Closed, HandlerAction::Stop(None)),
        (_, _) => (s, HandlerAction::Ignore),
    }
}

/// The handler state after a whole sequence of observed events.
pub open spec fn spec_handler_run(s: HandlerState, es: Seq<HandlerEvent>) -> HandlerState
    decreases es.len(),
{
    if es.len() == 0 {
        s
    } else {
        spec_handler_run(spec_handler_step(s, es[0]).0, es.drop_first())
    }
}

/// Once closed, a handler stays closed: no event revives a peer's session.
pub proof fn lemma_closed_is_final(e: HandlerEvent)
    ensures
        spec_handler_step(HandlerState::Closed, e).0 == HandlerState::Closed,
{
}

/// No sequence of events revives a closed handler.
pub proof fn lemma_closed_stays_closed(es: Seq<HandlerEvent>)
    ensures
        spec_handler_run(HandlerState::Closed, es) == HandlerState::Closed,
    decreases es.len(),
{
    if es.len() > 0 {
        lemma_closed_stays_closed(es.drop_first());
    }
}

/// A handler serves only once its handshake completed: the two paths into
/// `Serving` from outside it are optimistic 0-RTT acceptance and full
/// handshake confirmation — two branches converging on one state.
pub proof fn lemma_serving_needs_handshake(s: HandlerState, e: HandlerEvent)
    requires
        s != HandlerState::Serving,
        spec_handler_step(s, e).0 == HandlerState::Serving,
    ensures
        e == HandlerEvent::ZeroRttAccepted || e == HandlerEvent::HandshakeConfirmed,
{
}

} // verus!
