//! Listening ports and single-port firewall requests.
use vstd::prelude::*;

verus! {

#[derive(Debug, Clone, Copy, PartialEq, Eq, Structural)]
pub enum PortProtocol {
    Tcp,
    Udp,
}

impl PortProtocol {
    /// The variant's name.
    pub open spec fn name_text(self) -> Seq<char> {
        match self {
            PortProtocol::Tcp => "Tcp"@,
            PortProtocol::Udp => "Udp"@,
        }
    }

    /// The variant's name, as `{:?}` prints it.
    pub fn debug_name(&self) -> (s: &'static str)
        ensures
            s@ == self.name_text(),
    {
        match self {
            PortProtocol::Tcp => "Tcp",
            PortProtocol::Udp => "Udp",
        }
    }
}

#[derive(Debug, Clone, Copy, PartialEq, Eq, Structural)]
pub enum PortRisk {
    Low,
    Medium,
    High,
    Unknown,
}

impl PortRisk {
    /// The variant's name.
    pub open spec fn name_text(self) -> Seq<char> {
        match self {
            PortRisk::Low => "Low"@,
            PortRisk::Medium => "Medium"@,
            PortRisk::High => "High"@,
            PortRisk::Unknown => "Unknown"@,
        }
    }

    /// The variant's name, as `{:?}` prints it.
    pub fn debug_name(&self) -> (s: &'static str)
        ensures
            s@ == self.name_text(),
    {
        match self {
            PortRisk::Low => "Low",
            PortRisk::Medium => "Medium",
            PortRisk::High => "High",
            PortRisk::Unknown => "Unknown",
        }
    }
}

/// One row of the open-port table: what is listening, where, and owned
/// by which process.
#[derive(Debug, Clone)]
pub struct ListeningPort {
    pub protocol: PortProtocol,
    pub local_address: String,
    pub port: u16,
    pub pid: Option<u32>,
    pub process_name: Option<String>,
    pub executable_path: Option<String>,
    pub status: String,
    pub risk: PortRisk,
    /// True if a firewall rule already exists for this exact port.
    pub firewall_allowed: Option<bool>,
}

/// Typed request to allow or block a specific port through the
/// firewall.
#[derive(Debug, Clone, Copy)]
pub struct PortRuleRequest {
    pub port: u16,
    pub protocol: PortProtocol,
    pub direction: PortDirection,
}

#[derive(Debug, Clone, Copy, PartialEq, Eq, Structural)]
pub enum PortDirection {
    Inbound,
    Outbound,
}

impl PortDirection {
    /// The variant's name.
    pub open spec fn name_text(self) -> Seq<char> {
        match self {
            PortDirection::Inbound => "Inbound"@,
            PortDirection::Outbound => "Outbound"@,
        }
    }

    /// The variant's name, as `{:?}` prints it.
    pub fn debug_name(&self) -> (s: &'static str)
        ensures
            s@ == self.name_text(),
    {
        match self {
            PortDirection::Inbound => "Inbound",
            PortDirection::Outbound => "Outbound",
        }
    }
}

} // verus!
