//! Front-end listeners: what each transport family's task does.
//!
//! One task exists per family, configured or not.  A configured family
//! binds its address and loops accepting; an unconfigured one is a
//! perpetually pending placeholder, so the supervisor always races a
//! uniform set of handles.  Binding must succeed — a bind failure is fatal
//! — while a single failed accept only logs and continues.

use vstd::prelude::*;
use crate::config::{ListenAddr, ServerConfig};
use crate::errors::TunnelError;

verus! {

/// What a front-end task is set up to do.
#[derive(Debug, PartialEq, Eq)]
pub enum ListenerPlan {
    /// Bind this address and run the accept loop.
    Bind(ListenAddr),
    /// Bind this path and run the accept loop.
    BindPath(String),
    /// Bind this address, then fail: the family is unimplemented.
    BindUnsupported(ListenAddr),
    /// Pend forever; contribute no failure and no resource use.
    Placeholder,
}

/// What one turn of the accept loop observed.
#[derive(Clone, Copy, Debug, PartialEq, Eq, Structural)]
pub enum AcceptEvent {
    /// A local connection was accepted.
    Accepted,
    /// This accept call failed (a transient OS or transport error).
    AcceptFailed,
    /// Enqueueing the accepted connection failed: the queue is closed.
    EnqueueFailed,
}

/// What the accept loop does next.
#[derive(Clone, Copy, Debug, PartialEq, Eq, Structural)]
pub enum ListenerDecision {
    /// Wrap the accepted connection as a unit of forwarding work and
    /// enqueue it on the fan-in queue.
    Enqueue,
    /// Log and keep accepting: one bad accept never ends the listener.
    KeepListening,
    /// End the task with this error; the supervisor will tear down.
    Stop(TunnelError),
}

impl ServerConfig {
    /// The TCP family's plan: accept on the configured address, or pend.
    pub fn tcp_plan(&self) -> (p: ListenerPlan)
        ensures
            self.tcp_listen is Some ==> p == ListenerPlan::Bind(self.tcp_listen->0),
            self.tcp_listen is None ==> p == ListenerPlan::Placeholder,
    {
        match self.tcp_listen {
            Some(addr) => ListenerPlan::Bind(addr),
            None => ListenerPlan::Placeholder,
        }
    }

    /// The UDP family's plan: it is a stub — configured, it binds and then
    /// must fail rather than silently tunnel nothing.
    pub fn udp_plan(&self) -> (p: ListenerPlan)
        ensures
            self.udp_listen is Some ==> p == ListenerPlan::BindUnsupported(self.udp_listen->0),
            self.udp_listen is None ==> p == ListenerPlan::Placeholder,
    {
        match self.udp_listen {
            Some(addr) => ListenerPlan::BindUnsupported(addr),
            None => ListenerPlan::Placeholder,
        }
    }

    /// The Unix-domain family's plan: accept on the configured path, or
    /// pend.
    pub fn unix_plan(&self) -> (p: ListenerPlan)
        ensures
            self.unix_listen is Some ==> p == ListenerPlan::BindPath(self.unix_listen->0),
            self.unix_listen is None ==> p == ListenerPlan::Placeholder,
    {
        match &self.unix_listen {
            Some(path) => ListenerPlan::BindPath(path.clone()),
            None => ListenerPlan::Placeholder,
        }
    }
}

/// The accept loop's transition relation: accepts are enqueued, transient
/// accept errors are survived, a closed queue is fatal.
pub open spec fn spec_listener_step(e: AcceptEvent) -> ListenerDecision {
    match e {
        AcceptEvent::Accepted => ListenerDecision::Enqueue,
        AcceptEvent::AcceptFailed => ListenerDecision::KeepListening,
        AcceptEvent::EnqueueFailed => ListenerDecision::Stop(TunnelError::QueueClosed),
    }
}

/// Decides one turn of a front-end accept loop.
pub fn listener_step(e: AcceptEvent) -> (d: ListenerDecision)
    ensures
        d == spec_listener_step(e),
{
    match e {
        AcceptEvent::Accepted => ListenerDecision::Enqueue,
        AcceptEvent::AcceptFailed => ListenerDecision::KeepListening,
        AcceptEvent::EnqueueFailed => ListenerDecision::Stop(TunnelError::QueueClosed),
    }
}

} // verus!
