use tunnel_relay::errors::{Blast, TunnelError};
use tunnel_relay::handler::{handler_step, HandlerAction, HandlerEvent, HandlerState};

#[test]
fn zero_rtt_goes_straight_to_serving() {
    let (s, a) = handler_step(HandlerState::Accepting, HandlerEvent::ZeroRttAccepted);
    assert_eq!(s, HandlerState::Serving);
    assert_eq!(a, HandlerAction::AwaitWork);
}

#[test]
fn fallback_awaits_full_handshake_under_deadline() {
    let (s, a) = handler_step(HandlerState::Accepting, HandlerEvent::ZeroRttUnavailable);
    assert_eq!(s, HandlerState::HandshakeConfirming);
    assert_eq!(a, HandlerAction::AwaitHandshake);
    assert_eq!(tunnel_relay::HANDSHAKE_TIMEOUT_SECS, 30);
    let (s, a) = handler_step(s, HandlerEvent::HandshakeConfirmed);
    assert_eq!(s, HandlerState::Serving);
    assert_eq!(a, HandlerAction::AwaitWork);
}

#[test]
fn handshake_timeout_ends_only_this_peer() {
    // The deadline elapsed: the handler's task ends with a timeout error.
    let (s, a) = handler_step(HandlerState::HandshakeConfirming, HandlerEvent::HandshakeTimedOut);
    assert_eq!(s, HandlerState::Closed);
    assert_eq!(a, HandlerAction::Stop(Some(TunnelError::HandshakeTimeout)));
    // The error is contained to the peer: the supervisor set is unaffected,
    // since handler tasks are spawned detached, outside the supervised set.
    assert_eq!(TunnelError::HandshakeTimeout.blast(), Blast::FatalToPeer);
}

#[test]
fn handshake_rejection_ends_only_this_peer() {
    let (s, a) = handler_step(HandlerState::HandshakeConfirming, HandlerEvent::HandshakeRejected);
    assert_eq!(s, HandlerState::Closed);
    assert_eq!(a, HandlerAction::Stop(Some(TunnelError::HandshakeRejected)));
}

#[test]
fn serving_pairs_each_unit_with_a_fresh_stream() {
    let (s, a) = handler_step(HandlerState::Serving, HandlerEvent::WorkReceived);
    assert_eq!(s, HandlerState::Serving);
    assert_eq!(a, HandlerAction::OpenStream);
    let (s, a) = handler_step(s, HandlerEvent::StreamOpened);
    assert_eq!(s, HandlerState::Serving);
    assert_eq!(a, HandlerAction::SpawnForwarder);
}

#[test]
fn stream_open_failure_closes_the_handler() {
    let (s, a) = handler_step(HandlerState::Serving, HandlerEvent::StreamOpenFailed);
    assert_eq!(s, HandlerState::Closed);
    assert_eq!(a, HandlerAction::Stop(Some(TunnelError::StreamOpenFailed)));
}

#[test]
fn queue_teardown_closes_the_handler() {
    let (s, a) = handler_step(HandlerState::Serving, HandlerEvent::QueueDisconnected);
    assert_eq!(s, HandlerState::Closed);
    assert_eq!(a, HandlerAction::Stop(Some(TunnelError::QueueClosed)));
}

#[test]
fn abort_interrupts_every_state() {
    for st in [
        HandlerState::Accepting,
        HandlerState::HandshakeConfirming,
        HandlerState::Serving,
        HandlerState::Closed,
    ] {
        let (s, a) = handler_step(st, HandlerEvent::Aborted);
        assert_eq!(s, HandlerState::Closed);
        assert_eq!(a, HandlerAction::Stop(None));
    }
}

#[test]
fn closed_handlers_ignore_stray_events() {
    let (s, a) = handler_step(HandlerState::Closed, HandlerEvent::WorkReceived);
    assert_eq!(s, HandlerState::Closed);
    assert_eq!(a, HandlerAction::Ignore);
}
