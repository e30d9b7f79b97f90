use tunnel_relay::errors::{Blast, TunnelError};

#[test]
fn containment_policy_matches_the_error_taxonomy() {
    // Startup configuration errors abort before any resource is acquired.
    assert_eq!(TunnelError::NoListenerConfigured.blast(), Blast::FatalAtStartup);
    // Bind failures, the exercised UDP stub and a torn-down queue end their
    // task, which the supervisor answers with full shutdown.
    assert_eq!(TunnelError::BindFailed.blast(), Blast::FatalToTask);
    assert_eq!(TunnelError::UdpUnsupported.blast(), Blast::FatalToTask);
    assert_eq!(TunnelError::QueueClosed.blast(), Blast::FatalToTask);
    // Handshake and stream-open failures end one peer's session only.
    assert_eq!(TunnelError::HandshakeTimeout.blast(), Blast::FatalToPeer);
    assert_eq!(TunnelError::HandshakeRejected.blast(), Blast::FatalToPeer);
    assert_eq!(TunnelError::StreamOpenFailed.blast(), Blast::FatalToPeer);
    // A failed copy ends one forwarding session; the handler keeps serving.
    assert_eq!(TunnelError::ForwardingFailed.blast(), Blast::FatalToSession);
    // A single failed accept is only logged.
    assert_eq!(TunnelError::AcceptFailed.blast(), Blast::Transient);
}
