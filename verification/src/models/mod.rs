//! The data model shared by every subsystem: severities and event
//! categories, events and audit entries, structured errors, the
//! security score, and the per-subsystem types in the submodules.
//!
//! Points in time are carried as RFC 3339 text (the form in which they
//! are stored and shown).
use vstd::prelude::*;

use crate::text::{owned, push_str};

pub mod firewall;
pub mod monitoring;
pub mod ports;
pub mod scan;
pub mod system_control;

verus! {

/// Severity level shared across events, alerts, and detection rules.
#[derive(Debug, Clone, Copy, PartialEq, Eq, Structural, PartialOrd, Ord, Hash)]
pub enum Severity {
    Info,
    Low,
    Medium,
    High,
    Critical,
}

impl Severity {
    /// The position of a severity in the order Info < Low < Medium <
    /// High < Critical.
    pub open spec fn level(self) -> nat {
        match self {
            Severity::Info => 0,
            Severity::Low => 1,
            Severity::Medium => 2,
            Severity::High => 3,
            Severity::Critical => 4,
        }
    }

    /// Computes `level`.
    pub fn rank(&self) -> (r: u8)
        ensures
            r as nat == self.level(),
    {
        match self {
            Severity::Info => 0,
            Severity::Low => 1,
            Severity::Medium => 2,
            Severity::High => 3,
            Severity::Critical => 4,
        }
    }

    /// The variant's name.
    pub open spec fn name_text(self) -> Seq<char> {
        match self {
            Severity::Info => "Info"@,
            Severity::Low => "Low"@,
            Severity::Medium => "Medium"@,
            Severity::High => "High"@,
            Severity::Critical => "Critical"@,
        }
    }

    /// The variant's name, as `{:?}` prints it.
    pub fn debug_name(&self) -> (s: &'static str)
        ensures
            s@ == self.name_text(),
    {
        match self {
            Severity::Info => "Info",
            Severity::Low => "Low",
            Severity::Medium => "Medium",
            Severity::High => "High",
            Severity::Critical => "Critical",
        }
    }
}

/// The category of a monitoring event.
#[derive(Debug, Clone, Copy, PartialEq, Eq, Structural)]
pub enum EventCategory {
    FileCreated,
    FileDeleted,
    FileModified,
    ProcessStarted,
    ProcessStopped,
    ServiceChanged,
    PortOpened,
    PortClosed,
    DnsChanged,
    FirewallChanged,
    NetworkChanged,
    StartupChanged,
    SecuritySettingChanged,
    SystemStarted,
}

/// A single normalized system event, persisted to the `events` table
/// and streamed to the UI.
#[derive(Debug, Clone)]
pub struct SystemEvent {
    pub id: String,
    /// RFC 3339 text.
    pub timestamp: String,
    pub category: EventCategory,
    pub severity: Severity,
    pub source: String,
    pub description: String,
    pub target: Option<String>,
    pub previous_state: Option<String>,
    pub new_state: Option<String>,
    pub related_process: Option<String>,
    pub related_file: Option<String>,
    pub risk_score: u8,
}

/// An audit entry for a privileged / administrative action the
/// application itself performed. Append-only.
#[derive(Debug, Clone)]
pub struct AuditEntry {
    pub id: String,
    /// RFC 3339 text.
    pub timestamp: String,
    pub user: String,
    pub action: String,
    pub target: String,
    pub before: Option<String>,
    pub after: Option<String>,
    pub result: AuditResult,
    pub source: String,
    pub app_version: String,
}

#[derive(Debug, Clone, Copy, PartialEq, Eq, Structural)]
pub enum AuditResult {
    Success,
    Failure,
    Denied,
}

/// One disk of a resource snapshot.
#[derive(Debug, Clone)]
pub struct DiskMetrics {
    pub mount_point: String,
    pub used_bytes: u64,
    pub total_bytes: u64,
}

/// Structured error returned to the frontend for any failed /
/// unsupported operation.
#[derive(Debug, Clone)]
pub struct AppError {
    pub code: String,
    pub message: String,
    pub details: Option<String>,
    pub recoverable: bool,
}

impl AppError {
    /// The error for a feature this system or configuration cannot
    /// provide.
    pub fn not_supported(feature: &str) -> (e: AppError)
        ensures
            e.code@ == "NOT_SUPPORTED"@,
            e.message@ == feature@ + " is not supported on this system/configuration."@,
            e.details is None,
            !e.recoverable,
    {
        let mut message = owned(feature);
        push_str(&mut message, " is not supported on this system/configuration.");
        AppError { code: owned("NOT_SUPPORTED"), message, details: None, recoverable: false }
    }

    /// An error with the given code and message and no details.
    pub fn plain(code: &str, message: &str, recoverable: bool) -> (e: AppError)
        ensures
            e.code@ == code@,
            e.message@ == message@,
            e.details is None,
            e.recoverable == recoverable,
    {
        AppError { code: owned(code), message: owned(message), details: None, recoverable }
    }
}

/// The aggregate security score shown on the dashboard, with the
/// concrete reasons that produced it.
#[derive(Debug, Clone)]
pub struct SecurityScore {
    pub score: u8,
    pub reasons: Vec<ScoreReason>,
    /// RFC 3339 text.
    pub calculated_at: String,
}

#[derive(Debug, Clone)]
pub struct ScoreReason {
    pub label: String,
    pub impact: i16,
    pub severity: Severity,
}

/// Per-interface DNS mode: automatic (DHCP-assigned) or static servers.
#[derive(Debug, Clone, Copy, PartialEq, Eq, Structural)]
pub enum DnsMode {
    Dhcp,
    Static,
}

/// Typed request to change one adapter's DNS configuration, keyed by the
/// adapter's GUID.
#[derive(Debug, Clone)]
pub struct DnsSettingsRequest {
    pub adapter_id: String,
    pub mode: DnsMode,
    pub primary_dns: Option<String>,
    pub secondary_dns: Option<String>,
}

} // verus!
