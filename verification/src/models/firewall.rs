//! Firewall rules that the application creates and tracks.
use vstd::prelude::*;

use crate::models::ports::PortDirection;

verus! {

#[derive(Debug, Clone, Copy, PartialEq, Eq, Structural)]
pub enum FirewallProtocol {
    Tcp,
    Udp,
    /// Any protocol.
    Any,
}

impl FirewallProtocol {
    /// The variant's name.
    pub open spec fn name_text(self) -> Seq<char> {
        match self {
            FirewallProtocol::Tcp => "Tcp"@,
            FirewallProtocol::Udp => "Udp"@,
            FirewallProtocol::Any => "Any"@,
        }
    }

    /// The variant's name, as `{:?}` prints it.
    pub fn debug_name(&self) -> (s: &'static str)
        ensures
            s@ == self.name_text(),
    {
        match self {
            FirewallProtocol::Tcp => "Tcp",
            FirewallProtocol::Udp => "Udp",
            FirewallProtocol::Any => "Any",
        }
    }
}

#[derive(Debug, Clone, Copy, PartialEq, Eq, Structural)]
pub enum FirewallAction {
    Allow,
    Block,
}

impl FirewallAction {
    /// The variant's name.
    pub open spec fn name_text(self) -> Seq<char> {
        match self {
            FirewallAction::Allow => "Allow"@,
            FirewallAction::Block => "Block"@,
        }
    }

    /// The variant's name, as `{:?}` prints it.
    pub fn debug_name(&self) -> (s: &'static str)
        ensures
            s@ == self.name_text(),
    {
        match self {
            FirewallAction::Allow => "Allow",
            FirewallAction::Block => "Block",
        }
    }
}

/// One firewall rule the application created and is tracking.
#[derive(Debug, Clone)]
pub struct FirewallRule {
    /// The rule's name in the firewall; also its id.
    pub name: String,
    pub description: Option<String>,
    pub protocol: FirewallProtocol,
    pub direction: PortDirection,
    pub action: FirewallAction,
    /// Comma-separated local ports/ranges, or `None` for any port.
    pub local_ports: Option<String>,
    pub remote_ports: Option<String>,
    /// Comma-separated remote addresses/CIDR ranges, or `None` for any.
    pub remote_addresses: Option<String>,
    /// Restricts the rule to one application's executable.
    pub application_path: Option<String>,
    pub enabled: bool,
    /// RFC 3339 text.
    pub last_seen: String,
}

/// Typed request to create a new firewall rule.
#[derive(Debug, Clone)]
pub struct CreateFirewallRuleRequest {
    pub name: String,
    pub description: Option<String>,
    pub protocol: FirewallProtocol,
    pub direction: PortDirection,
    pub action: FirewallAction,
    pub local_ports: Option<String>,
    pub remote_ports: Option<String>,
    pub remote_addresses: Option<String>,
    pub application_path: Option<String>,
    pub enabled: bool,
}

#[derive(Debug, Clone)]
pub struct SetFirewallRuleEnabledRequest {
    pub name: String,
    pub enabled: bool,
}

} // verus!
