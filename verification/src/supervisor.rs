//! Task supervision and fail-fast shutdown.
//!
//! The supervisor owns one handle per top-level task: the QUIC acceptor, the
//! three front-end listeners and the stats reporter.  A family that is not
//! configured still gets a handle — a perpetually pending placeholder — so
//! the race always waits on the same uniform set.  The first handle to
//! complete, for any reason, triggers shutdown: the QUIC endpoint is closed
//! with an application-level reason code and every other task is aborted.
//! There is no selective restart.
//!
//! Tunnel connection handlers are deliberately absent here: they are spawned
//! detached by the acceptor, and their failures are contained to one peer.

use vstd::prelude::*;

verus! {

/// Application-level reason code the QUIC endpoint is closed with.
pub const SHUTDOWN_REASON_CODE: u32 = 0;

/// The supervised top-level tasks.
#[derive(Clone, Copy, Debug, PartialEq, Eq, Structural)]
pub enum TaskId {
    /// Accepts inbound QUIC connection attempts.
    QuicAcceptor,
    /// Accepts local TCP connections (or pends forever if unconfigured).
    TcpFrontEnd,
    /// UDP front end: an unimplemented stub (or pends forever).
    UdpFrontEnd,
    /// Accepts local Unix-domain connections (or pends forever).
    UnixFrontEnd,
    /// Periodically reports aggregate traffic.
    StatsReporter,
}

/// The supervisor's view of the relay: which tasks still run and whether
/// the QUIC endpoint is open.
#[derive(Clone, Copy, Debug, PartialEq, Eq, Structural)]
pub struct Supervisor {
    pub endpoint_open: bool,
    pub quic_acceptor_running: bool,
    pub tcp_running: bool,
    pub udp_running: bool,
    pub unix_running: bool,
    pub stats_running: bool,
}

impl Supervisor {
    /// Whether the given task still runs.
    pub open spec fn running(&self, t: TaskId) -> bool {
        match t {
            TaskId::QuicAcceptor => self.quic_acceptor_running,
            TaskId::TcpFrontEnd => self.tcp_running,
            TaskId::UdpFrontEnd => self.udp_running,
            TaskId::UnixFrontEnd => self.unix_running,
            TaskId::StatsReporter => self.stats_running,
        }
    }

    /// No supervised task runs any more.
    pub open spec fn all_stopped(&self) -> bool {
        &&& !self.quic_acceptor_running
        &&& !self.tcp_running
        &&& !self.udp_running
        &&& !self.unix_running
        &&& !self.stats_running
    }

    /// The state shutdown drives the relay into, whatever state it ran in:
    /// endpoint closed, every task aborted.
    pub open spec fn spec_shutdown(self) -> Supervisor {
        Supervisor {
            endpoint_open: false,
            quic_acceptor_running: false,
            tcp_running: false,
            udp_running: false,
            unix_running: false,
            stats_running: false,
        }
    }

    /// Startup: all five tasks are spawned (placeholders included) and the
    /// endpoint is open.
    pub fn start() -> (s: Supervisor)
        ensures
            s.endpoint_open,
            forall|t: TaskId| s.running(t),
    {
        Supervisor {
            endpoint_open: true,
            quic_acceptor_running: true,
            tcp_running: true,
            udp_running: true,
            unix_running: true,
            stats_running: true,
        }
    }

    /// Coordinated shutdown: close the endpoint, abort every task.  The
    /// result does not depend on the state it was invoked in, which makes
    /// repeated or concurrent invocation harmless.
    pub fn shutdown(&mut self)
        ensures
            *final(self) == old(self).spec_shutdown(),
            final(self).all_stopped(),
            !final(self).endpoint_open,
    {
        self.endpoint_open = false;
        self.quic_acceptor_running = false;
        self.tcp_running = false;
        self.udp_running = false;
        self.unix_running = false;
        self.stats_running = false;
    }

    /// Fail-fast supervision: the first supervised task to complete — for
    /// any reason, on any handle — triggers full shutdown.
    pub fn on_task_exit(&mut self, _t: TaskId)
        ensures
            *final(self) == old(self).spec_shutdown(),
            final(self).all_stopped(),
    {
        self.shutdown();
    }
}

/// Shutting down is idempotent and leaves nothing running: invoking the
/// shutdown path a second time — or from two task completions racing each
/// other — reaches the same quiescent state as the first invocation, with
/// the endpoint closed and no task left running.
pub proof fn lemma_shutdown_idempotent(s: Supervisor)
    ensures
        s.spec_shutdown().spec_shutdown() == s.spec_shutdown(),
        s.spec_shutdown().all_stopped(),
        !s.spec_shutdown().endpoint_open,
        forall|t: TaskId| !s.spec_shutdown().running(t),
{
    assert forall|t: TaskId| !s.spec_shutdown().running(t) by {
        match t {
            TaskId::QuicAcceptor => {},
            TaskId::TcpFrontEnd => {},
            TaskId::UdpFrontEnd => {},
            TaskId::UnixFrontEnd => {},
            TaskId::StatsReporter => {},
        }
    }
}

} // verus!
