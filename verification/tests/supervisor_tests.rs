use tunnel_relay::errors::TunnelError;
use tunnel_relay::listener::{listener_step, AcceptEvent, ListenerDecision};
use tunnel_relay::supervisor::{Supervisor, TaskId, SHUTDOWN_REASON_CODE};

#[test]
fn startup_spawns_the_whole_uniform_task_set() {
    let s = Supervisor::start();
    assert!(s.endpoint_open);
    assert!(s.quic_acceptor_running);
    assert!(s.tcp_running);
    assert!(s.udp_running);
    assert!(s.unix_running);
    assert!(s.stats_running);
}

#[test]
fn first_task_exit_tears_everything_down() {
    for t in [
        TaskId::QuicAcceptor,
        TaskId::TcpFrontEnd,
        TaskId::UdpFrontEnd,
        TaskId::UnixFrontEnd,
        TaskId::StatsReporter,
    ] {
        let mut s = Supervisor::start();
        s.on_task_exit(t);
        assert!(!s.endpoint_open);
        assert!(!s.quic_acceptor_running);
        assert!(!s.tcp_running);
        assert!(!s.udp_running);
        assert!(!s.unix_running);
        assert!(!s.stats_running);
    }
}

#[test]
fn shutdown_is_idempotent() {
    let mut s = Supervisor::start();
    s.shutdown();
    let once = s;
    s.shutdown();
    assert_eq!(s, once);
    // and triggering it again through a racing task completion changes
    // nothing either
    s.on_task_exit(TaskId::StatsReporter);
    assert_eq!(s, once);
    assert!(!s.endpoint_open);
}

#[test]
fn shutdown_reason_code_is_the_application_code() {
    assert_eq!(SHUTDOWN_REASON_CODE, 0);
}

#[test]
fn accept_loop_survives_transient_errors() {
    assert_eq!(listener_step(AcceptEvent::Accepted), ListenerDecision::Enqueue);
    assert_eq!(listener_step(AcceptEvent::AcceptFailed), ListenerDecision::KeepListening);
    assert_eq!(
        listener_step(AcceptEvent::EnqueueFailed),
        ListenerDecision::Stop(TunnelError::QueueClosed)
    );
}
