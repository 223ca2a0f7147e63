//! Messages exchanged between clients (CLI, GUI) and the daemon.
use vstd::prelude::*;

use crate::net::SocketTarget;
use crate::rule::DnsRule;

verus! {

/// Commands sent from a client to the daemon.
#[derive(Debug, PartialEq, Eq)]
pub enum IpcRequest {
    /// Add or replace a routing rule.
    Add { domain: String, target: SocketTarget, https: bool },
    /// Add an ephemeral rule (not persisted, takes priority over permanent
    /// rules).
    AddEphemeral { domain: String, target: SocketTarget, https: bool },
    /// Remove the permanent rule for the given domain.
    Remove { domain: String },
    /// Remove the ephemeral rule for the given domain.
    RemoveEphemeral { domain: String },
    /// List all active rules, ephemeral and persistent.
    List,
    /// Resolve a domain to its configured target.
    Resolve { domain: String },
    /// Query daemon status.
    Status,
    /// Request a graceful shutdown of the daemon.
    Stop,
    /// Open a persistent event stream connection.
    Subscribe,
}

/// Responses sent from the daemon to a client.
#[derive(Debug, PartialEq, Eq)]
pub enum IpcResponse {
    /// The request was carried out.
    Success,
    Error(String),
    Rules(Vec<DnsRule>),
    Resolved(Option<DnsRule>),
    Status { running: bool, rule_count: usize },
    Event(DnsEvent),
}

/// Events emitted by the daemon and pushed to subscribed clients.
#[derive(Debug, PartialEq, Eq)]
pub enum DnsEvent {
    /// A rule was added or replaced.
    RuleAdded(DnsRule),
    /// A rule was removed.
    RuleRemoved(DnsRule),
    /// An ephemeral rule was added.
    EphemeralAdded(DnsRule),
    /// An ephemeral rule was removed.
    EphemeralRemoved(DnsRule),
    DaemonStopped,
}

impl Clone for DnsEvent {
    fn clone(&self) -> (r: Self)
        ensures
            match (*self, r) {
                (DnsEvent::RuleAdded(a), DnsEvent::RuleAdded(b)) => a@ == b@,
                (DnsEvent::RuleRemoved(a), DnsEvent::RuleRemoved(b)) => a@ == b@,
                (DnsEvent::EphemeralAdded(a), DnsEvent::EphemeralAdded(b)) => a@ == b@,
                (DnsEvent::EphemeralRemoved(a), DnsEvent::EphemeralRemoved(b)) => a@ == b@,
                (DnsEvent::DaemonStopped, DnsEvent::DaemonStopped) => true,
                _ => false,
            },
    {
        match self {
            DnsEvent::RuleAdded(r) => DnsEvent::RuleAdded(r.clone()),
            DnsEvent::RuleRemoved(r) => DnsEvent::RuleRemoved(r.clone()),
            DnsEvent::EphemeralAdded(r) => DnsEvent::EphemeralAdded(r.clone()),
            DnsEvent::EphemeralRemoved(r) => DnsEvent::EphemeralRemoved(r.clone()),
            DnsEvent::DaemonStopped => DnsEvent::DaemonStopped,
        }
    }
}

impl DnsEvent {
    /// The rule that the event is about, if any.
    pub fn rule(&self) -> (r: Option<&DnsRule>)
        ensures
            r == match *self {
                DnsEvent::RuleAdded(x) => Some(&x),
                DnsEvent::RuleRemoved(x) => Some(&x),
                DnsEvent::EphemeralAdded(x) => Some(&x),
                DnsEvent::EphemeralRemoved(x) => Some(&x),
                DnsEvent::DaemonStopped => None,
            },
    {
        match self {
            DnsEvent::RuleAdded(x) => Some(x),
            DnsEvent::RuleRemoved(x) => Some(x),
            DnsEvent::EphemeralAdded(x) => Some(x),
            DnsEvent::EphemeralRemoved(x) => Some(x),
            DnsEvent::DaemonStopped => None,
        }
    }

    /// Whether the event changes the set of routed domains (any rule was
    /// added or removed), so that the system DNS configuration must be
    /// applied again.
    pub fn changes_rules(&self) -> (b: bool)
        ensures
            b == !(*self is DaemonStopped),
    {
        !matches!(self, DnsEvent::DaemonStopped)
    }

    /// Whether the event changes the persistent rules, so that they must be
    /// saved again.
    pub fn changes_persistent_rules(&self) -> (b: bool)
        ensures
            b == (*self is RuleAdded || *self is RuleRemoved),
    {
        matches!(self, DnsEvent::RuleAdded(_) | DnsEvent::RuleRemoved(_))
    }
}

/// Errors of the IPC layer that callers may want to handle.
#[derive(Debug, PartialEq, Eq)]
pub enum IpcError {
    /// The remote end closed the connection before sending a complete
    /// response.
    ConnectionClosed,
}

impl IpcError {
    /// The message shown for the error.
    pub fn message(&self) -> (r: &'static str)
        ensures
            r@ == "IPC connection was closed unexpectedly"@,
    {
        match self {
            IpcError::ConnectionClosed => "IPC connection was closed unexpectedly",
        }
    }
}

} // verus!
