//! Network adapters and Windows services.
use vstd::prelude::*;

verus! {

#[derive(Debug, Clone)]
pub struct NetworkAdapter {
    /// The adapter's GUID text, e.g. `{4D36E972-E325-11CE-BFC1-08002BE10318}`.
    pub adapter_id: String,
    pub name: String,
    pub description: String,
    /// "Ethernet" | "Wi-Fi" | "VPN" | "Loopback" | "Other"
    pub adapter_type: String,
    /// "Up" | "Down" | "Unknown"
    pub status: String,
    pub mac_address: Option<String>,
    pub ipv4_addresses: Vec<String>,
    pub ipv6_addresses: Vec<String>,
    pub gateway: Option<String>,
    pub dns_servers: Vec<String>,
    pub dhcp_enabled: Option<bool>,
    pub link_speed_mbps: Option<u64>,
}

#[derive(Debug, Clone, Copy, PartialEq, Eq, Structural)]
pub enum ServiceStatus {
    Running,
    Stopped,
    Paused,
    StartPending,
    StopPending,
    Unknown,
}

impl ServiceStatus {
    /// The variant's name.
    pub open spec fn name_text(self) -> Seq<char> {
        match self {
            ServiceStatus::Running => "Running"@,
            ServiceStatus::Stopped => "Stopped"@,
            ServiceStatus::Paused => "Paused"@,
            ServiceStatus::StartPending => "StartPending"@,
            ServiceStatus::StopPending => "StopPending"@,
            ServiceStatus::Unknown => "Unknown"@,
        }
    }

    /// The variant's name, as `{:?}` prints it.
    pub fn debug_name(&self) -> (s: &'static str)
        ensures
            s@ == self.name_text(),
    {
        match self {
            ServiceStatus::Running => "Running",
            ServiceStatus::Stopped => "Stopped",
            ServiceStatus::Paused => "Paused",
            ServiceStatus::StartPending => "StartPending",
            ServiceStatus::StopPending => "StopPending",
            ServiceStatus::Unknown => "Unknown",
        }
    }
}

#[derive(Debug, Clone, Copy, PartialEq, Eq, Structural)]
pub enum StartupType {
    Automatic,
    AutomaticDelayed,
    Manual,
    Disabled,
    Unknown,
}

impl StartupType {
    /// The variant's name.
    pub open spec fn name_text(self) -> Seq<char> {
        match self {
            StartupType::Automatic => "Automatic"@,
            StartupType::AutomaticDelayed => "AutomaticDelayed"@,
            StartupType::Manual => "Manual"@,
            StartupType::Disabled => "Disabled"@,
            StartupType::Unknown => "Unknown"@,
        }
    }

    /// The variant's name, as `{:?}` prints it.
    pub fn debug_name(&self) -> (s: &'static str)
        ensures
            s@ == self.name_text(),
    {
        match self {
            StartupType::Automatic => "Automatic",
            StartupType::AutomaticDelayed => "AutomaticDelayed",
            StartupType::Manual => "Manual",
            StartupType::Disabled => "Disabled",
            StartupType::Unknown => "Unknown",
        }
    }
}

#[derive(Debug, Clone)]
pub struct ServiceInfo {
    pub name: String,
    pub display_name: String,
    pub status: ServiceStatus,
    pub startup_type: StartupType,
    pub executable: Option<String>,
    pub description: Option<String>,
    /// Services Windows itself treats as protected.
    pub protected: bool,
}

#[derive(Debug, Clone, Copy, PartialEq, Eq, Structural)]
pub enum ServiceAction {
    Start,
    Stop,
    Restart,
}

#[derive(Debug, Clone)]
pub struct ServiceActionRequest {
    pub service_name: String,
    pub action: ServiceAction,
}

#[derive(Debug, Clone)]
pub struct ChangeStartupTypeRequest {
    pub service_name: String,
    pub startup_type: StartupType,
}

} // verus!
