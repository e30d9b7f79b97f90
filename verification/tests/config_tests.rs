use tunnel_relay::config::{CompressAlgo, CongestionMode, ListenAddr, ServerConfig};
use tunnel_relay::errors::TunnelError;
use tunnel_relay::listener::ListenerPlan;

fn base_config() -> ServerConfig {
    ServerConfig {
        quic_addr: ListenAddr { ip: 0x7f000001, port: 8608 },
        tcp_listen: None,
        udp_listen: None,
        unix_listen: None,
        congestion_mode: CongestionMode::NewReno,
        compress: CompressAlgo::Off,
    }
}

#[test]
fn no_listener_is_a_configuration_error() {
    let cfg = base_config();
    assert_eq!(cfg.validate(), Err(TunnelError::NoListenerConfigured));
}

#[test]
fn tcp_alone_is_enough() {
    let mut cfg = base_config();
    cfg.tcp_listen = Some(ListenAddr { ip: 0x7f000001, port: 9000 });
    assert_eq!(cfg.validate(), Ok(()));
}

#[test]
fn unix_alone_is_enough() {
    let mut cfg = base_config();
    cfg.unix_listen = Some(String::from("/tmp/tunnel.sock"));
    assert_eq!(cfg.validate(), Ok(()));
}

#[test]
fn both_families_are_accepted() {
    let mut cfg = base_config();
    cfg.tcp_listen = Some(ListenAddr { ip: 0x7f000001, port: 9000 });
    cfg.unix_listen = Some(String::from("/tmp/tunnel.sock"));
    assert_eq!(cfg.validate(), Ok(()));
}

#[test]
fn udp_alone_does_not_validate() {
    let mut cfg = base_config();
    cfg.udp_listen = Some(ListenAddr { ip: 0x7f000001, port: 9001 });
    assert_eq!(cfg.validate(), Err(TunnelError::NoListenerConfigured));
}

#[test]
fn configured_families_bind_and_the_rest_pend() {
    let mut cfg = base_config();
    let tcp = ListenAddr { ip: 0x7f000001, port: 9000 };
    cfg.tcp_listen = Some(tcp);
    assert_eq!(cfg.tcp_plan(), ListenerPlan::Bind(tcp));
    assert_eq!(cfg.udp_plan(), ListenerPlan::Placeholder);
    assert_eq!(cfg.unix_plan(), ListenerPlan::Placeholder);
}

#[test]
fn unix_family_binds_its_path() {
    let mut cfg = base_config();
    cfg.unix_listen = Some(String::from("/run/relay.sock"));
    assert_eq!(cfg.unix_plan(), ListenerPlan::BindPath(String::from("/run/relay.sock")));
    assert_eq!(cfg.tcp_plan(), ListenerPlan::Placeholder);
}

#[test]
fn udp_family_is_an_unimplemented_stub() {
    let mut cfg = base_config();
    let udp = ListenAddr { ip: 0, port: 5353 };
    cfg.udp_listen = Some(udp);
    assert_eq!(cfg.udp_plan(), ListenerPlan::BindUnsupported(udp));
}
