//! Relay configuration and its startup validation.
//!
//! The runtime parses the command line and hands the library this plain-value
//! form: an IPv4 socket address is carried as its numeric ip and port, a Unix
//! socket path as a `String`.

use vstd::prelude::*;

verus! {

/// A socket address, as plain values: the ip as its numeric value (an IPv4
/// address in the low 32 bits) and the port.
#[derive(Clone, Copy, Debug, PartialEq, Eq, Structural)]
pub struct ListenAddr {
    pub ip: u128,
    pub port: u16,
}

/// Congestion controller selection for the QUIC endpoint.
#[derive(Clone, Copy, Debug, PartialEq, Eq, Structural)]
pub enum CongestionMode {
    NewReno,
    Cubic,
    Bbr,
}

/// Compression applied to bytes in transit over the tunnel.
#[derive(Clone, Copy, Debug, PartialEq, Eq, Structural)]
pub enum CompressAlgo {
    /// Bytes travel unchanged.
    Off,
    /// Run-length encoding.
    Rle,
}

/// The relay's configuration, after command-line parsing.
#[derive(Debug)]
pub struct ServerConfig {
    /// Local address the QUIC endpoint binds; tunnel peers connect here.
    pub quic_addr: ListenAddr,
    /// TCP front-end listener address, if that family is configured.
    pub tcp_listen: Option<ListenAddr>,
    /// UDP front-end address; accepted by the parser but unimplemented:
    /// exercising it is a fatal error.
    pub udp_listen: Option<ListenAddr>,
    /// Unix-domain front-end listener path, if that family is configured.
    pub unix_listen: Option<String>,
    /// Congestion controller for the QUIC endpoint.
    pub congestion_mode: CongestionMode,
    /// Compression mode for tunneled payload.
    pub compress: CompressAlgo,
}

impl ServerConfig {
    /// A configuration can start the relay only if at least one stream
    /// front-end (TCP or Unix) is configured.
    pub open spec fn is_runnable(&self) -> bool {
        self.tcp_listen is Some || self.unix_listen is Some
    }

    /// Startup validation: fails fast, before any socket is bound, when
    /// neither `tcp_listen` nor `unix_listen` is given.
    pub fn validate(&self) -> (r: Result<(), crate::errors::TunnelError>)
        ensures
            r is Ok <==> self.is_runnable(),
            !self.is_runnable() ==> r == Result::<(), crate::errors::TunnelError>::Err(
                crate::errors::TunnelError::NoListenerConfigured,
            ),
    {
        if self.tcp_listen.is_none() && self.unix_listen.is_none() {
            Err(crate::errors::TunnelError::NoListenerConfigured)
        } else {
            Ok(())
        }
    }
}

} // verus!
