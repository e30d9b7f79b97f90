//! Error taxonomy of the relay, with its containment policy.
//!
//! Errors that affect a single unit of work (one accept, one forwarding
//! session) are contained and the surrounding loop continues; errors that
//! take down a whole task category (a bind failure, the queue torn down)
//! escalate to the supervisor, which shuts the whole relay down.

use vstd::prelude::*;

verus! {

/// Everything that can go wrong in the relay core.
#[derive(Clone, Copy, Debug, PartialEq, Eq, Structural)]
pub enum TunnelError {
    /// Neither `tcp_listen` nor `unix_listen` was configured.
    NoListenerConfigured,
    /// UDP tunneling was requested but is unimplemented.
    UdpUnsupported,
    /// A front-end listener could not bind its address.
    BindFailed,
    /// One accept call on a front-end listener failed.
    AcceptFailed,
    /// A tunnel peer did not confirm its handshake within the deadline.
    HandshakeTimeout,
    /// The transport rejected a tunnel peer's handshake.
    HandshakeRejected,
    /// Opening a new bidirectional stream on a peer's session failed.
    StreamOpenFailed,
    /// I/O failed mid-copy in one forwarding session.
    ForwardingFailed,
    /// The fan-in queue was found closed: shutdown is already in progress.
    QueueClosed,
}

/// How far an error reaches.
#[derive(Clone, Copy, Debug, PartialEq, Eq, Structural)]
pub enum Blast {
    /// Reported to the operator before any resource is acquired; the
    /// process exits non-zero.
    FatalAtStartup,
    /// Ends the task that observed it; the supervisor reacts by tearing
    /// everything down (fail-fast, no selective restart).
    FatalToTask,
    /// Ends one tunnel connection handler; other peers are unaffected.
    FatalToPeer,
    /// Ends one forwarding session; the handler keeps serving.
    FatalToSession,
    /// Logged; the observing loop continues.
    Transient,
}

impl TunnelError {
    /// The containment policy: which scope each error tears down.
    pub open spec fn spec_blast(&self) -> Blast {
        match self {
            TunnelError::NoListenerConfigured => Blast::FatalAtStartup,
            TunnelError::UdpUnsupported => Blast::FatalToTask,
            TunnelError::BindFailed => Blast::FatalToTask,
            TunnelError::AcceptFailed => Blast::Transient,
            TunnelError::HandshakeTimeout => Blast::FatalToPeer,
            TunnelError::HandshakeRejected => Blast::FatalToPeer,
            TunnelError::StreamOpenFailed => Blast::FatalToPeer,
            TunnelError::ForwardingFailed => Blast::FatalToSession,
            TunnelError::QueueClosed => Blast::FatalToTask,
        }
    }

    /// Classifies this error under the containment policy.
    pub fn blast(&self) -> (b: Blast)
        ensures
            b == self.spec_blast(),
    {
        match self {
            TunnelError::NoListenerConfigured => Blast::FatalAtStartup,
            TunnelError::UdpUnsupported => Blast::FatalToTask,
            TunnelError::BindFailed => Blast::FatalToTask,
            TunnelError::AcceptFailed => Blast::Transient,
            TunnelError::HandshakeTimeout => Blast::FatalToPeer,
            TunnelError::HandshakeRejected => Blast::FatalToPeer,
            TunnelError::StreamOpenFailed => Blast::FatalToPeer,
            TunnelError::ForwardingFailed => Blast::FatalToSession,
            TunnelError::QueueClosed => Blast::FatalToTask,
        }
    }
}

} // verus!
