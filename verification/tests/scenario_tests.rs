//! End-to-end scenario: one TCP listener, one confirmed tunnel peer, one
//! client sending "hello".

use tunnel_relay::config::{CompressAlgo, CongestionMode, ListenAddr, ServerConfig};
use tunnel_relay::forwarder::{run_session, TrafficCounters};
use tunnel_relay::handler::{handler_step, HandlerAction, HandlerEvent, HandlerState};
use tunnel_relay::listener::{listener_step, AcceptEvent, ListenerDecision, ListenerPlan};
use tunnel_relay::relay::Relay;

#[test]
fn hello_reaches_the_peer_on_a_fresh_stream() {
    // One TCP listener on 127.0.0.1:9000, compression off.
    let cfg = ServerConfig {
        quic_addr: ListenAddr { ip: 0x7f000001, port: 8608 },
        tcp_listen: Some(ListenAddr { ip: 0x7f000001, port: 9000 }),
        udp_listen: None,
        unix_listen: None,
        congestion_mode: CongestionMode::NewReno,
        compress: CompressAlgo::Off,
    };
    assert_eq!(cfg.validate(), Ok(()));
    assert_eq!(cfg.tcp_plan(), ListenerPlan::Bind(ListenAddr { ip: 0x7f000001, port: 9000 }));

    // One tunnel peer connects and confirms its handshake (0-RTT path).
    let (state, action) = handler_step(HandlerState::Accepting, HandlerEvent::ZeroRttAccepted);
    assert_eq!(state, HandlerState::Serving);
    assert_eq!(action, HandlerAction::AwaitWork);

    // A client connects to the TCP listener; the accepted connection is
    // enqueued as one unit of forwarding work.
    let mut relay = Relay::new();
    assert_eq!(listener_step(AcceptEvent::Accepted), ListenerDecision::Enqueue);
    let unit = relay.accept_local().unwrap();

    // The serving peer takes the unit and pairs it with a fresh stream.
    let peer = 1u64;
    assert_eq!(relay.take_next(peer), Some(unit));
    assert_eq!(relay.assigned, vec![(unit, peer)]);
    let (state, action) = handler_step(state, HandlerEvent::WorkReceived);
    assert_eq!(action, HandlerAction::OpenStream);
    let (_, action) = handler_step(state, HandlerEvent::StreamOpened);
    assert_eq!(action, HandlerAction::SpawnForwarder);

    // The forwarder carries exactly the bytes "hello" to the peer.
    let local = vec![b"hello".to_vec()];
    let remote: Vec<Vec<u8>> = Vec::new();
    let mut counters = TrafficCounters::new();
    let result = run_session(CompressAlgo::Off, &local, &remote, &mut counters).unwrap();
    assert_eq!(result.to_remote, b"hello".to_vec());
    assert_eq!(result.outcome.local_to_remote, 5);
    assert_eq!(counters.sent, 5);
}
