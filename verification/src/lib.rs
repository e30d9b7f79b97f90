//! Core logic of a reverse-tunnel relay.
//!
//! The relay exposes a QUIC endpoint to remote tunnel peers and one or more
//! plaintext front-end listeners to local users.  Every connection accepted
//! on a front-end listener becomes one unit of forwarding work; it is handed
//! through a fan-in queue to exactly one currently connected tunnel peer and
//! forwarded byte-for-byte (optionally compressed) over a fresh bidirectional
//! stream of that peer's QUIC session.
//!
//! This crate holds the verified core: configuration validation, the fan-in
//! assignment discipline, the per-peer connection handler state machine, the
//! forwarding/compression transforms, the traffic counters, and the
//! supervisor's fail-fast shutdown.  The asynchronous runtime, the sockets
//! and the QUIC transport live outside the library and drive it.

pub mod codec;
pub mod config;
pub mod errors;
pub mod forwarder;
pub mod handler;
pub mod listener;
pub mod relay;
pub mod supervisor;

use vstd::prelude::*;

verus! {

/// Seconds a tunnel peer is given to finish the full QUIC handshake when
/// optimistic 0-RTT completion is not available.
pub const HANDSHAKE_TIMEOUT_SECS: u64 = 30;

} // verus!
