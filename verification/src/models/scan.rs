//! Scans, their findings, and user settings.
use vstd::prelude::*;

use crate::models::Severity;

verus! {

#[derive(Debug, Clone, Copy, PartialEq, Eq, Structural)]
pub enum ScanType {
    Quick,
    System,
    Network,
    Startup,
    Integrity,
    Custom,
}

impl ScanType {
    /// The variant's name.
    pub open spec fn name_text(self) -> Seq<char> {
        match self {
            ScanType::Quick => "Quick"@,
            ScanType::System => "System"@,
            ScanType::Network => "Network"@,
            ScanType::Startup => "Startup"@,
            ScanType::Integrity => "Integrity"@,
            ScanType::Custom => "Custom"@,
        }
    }

    /// The variant's name, as `{:?}` prints it.
    pub fn debug_name(&self) -> (s: &'static str)
        ensures
            s@ == self.name_text(),
    {
        match self {
            ScanType::Quick => "Quick",
            ScanType::System => "System",
            ScanType::Network => "Network",
            ScanType::Startup => "Startup",
            ScanType::Integrity => "Integrity",
            ScanType::Custom => "Custom",
        }
    }
}

#[derive(Debug, Clone, Copy, PartialEq, Eq, Structural)]
pub enum ScanStatus {
    Running,
    Completed,
    Failed,
}

/// Progress of a running scan: one entry per step actually performed.
#[derive(Debug, Clone)]
pub struct ScanProgress {
    pub scan_id: String,
    pub step_label: String,
    pub step_index: u32,
    pub total_steps: u32,
    pub findings_so_far: u32,
}

#[derive(Debug, Clone)]
pub struct ScanFinding {
    pub label: String,
    pub detail: String,
    pub severity: Severity,
}

#[derive(Debug, Clone)]
pub struct ScanResult {
    pub id: String,
    pub scan_type: ScanType,
    /// RFC 3339 text.
    pub started_at: String,
    /// RFC 3339 text.
    pub finished_at: Option<String>,
    pub status: ScanStatus,
    pub findings: Vec<ScanFinding>,
    pub summary: String,
}

#[derive(Debug, Clone)]
pub struct RunScanRequest {
    pub scan_type: ScanType,
    /// Only used when `scan_type` is `Custom`: which of the individual
    /// scan steps to include.
    pub custom_steps: Option<Vec<String>>,
}

/// User-configurable notification preferences.
#[derive(Debug, Clone, Copy)]
pub struct NotificationSettings {
    pub enabled: bool,
    pub min_severity: Severity,
}

impl Default for NotificationSettings {
    fn default() -> (s: Self)
        ensures
            s.enabled,
            s.min_severity == Severity::High,
    {
        NotificationSettings { enabled: true, min_severity: Severity::High }
    }
}

/// User-configurable retention window (in days) for the high-volume
/// tables; `0` means "keep forever" for a given table.
#[derive(Debug, Clone, Copy)]
pub struct RetentionSettings {
    pub events_days: u32,
    pub process_snapshots_days: u32,
    pub port_snapshots_days: u32,
}

impl Default for RetentionSettings {
    fn default() -> (s: Self)
        ensures
            s.events_days == 30,
            s.process_snapshots_days == 7,
            s.port_snapshots_days == 7,
    {
        RetentionSettings { events_days: 30, process_snapshots_days: 7, port_snapshots_days: 7 }
    }
}

} // verus!
