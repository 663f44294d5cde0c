//! File integrity, startup persistence and correlated risk findings.
use vstd::prelude::*;

use crate::models::Severity;

verus! {

#[derive(Debug, Clone, Copy, PartialEq, Eq, Structural)]
pub enum FileChangeType {
    Created,
    Modified,
    Deleted,
}

impl FileChangeType {
    /// The variant's name.
    pub open spec fn name_text(self) -> Seq<char> {
        match self {
            FileChangeType::Created => "Created"@,
            FileChangeType::Modified => "Modified"@,
            FileChangeType::Deleted => "Deleted"@,
        }
    }

    /// The variant's name, as `{:?}` prints it.
    pub fn debug_name(&self) -> (s: &'static str)
        ensures
            s@ == self.name_text(),
    {
        match self {
            FileChangeType::Created => "Created",
            FileChangeType::Modified => "Modified",
            FileChangeType::Deleted => "Deleted",
        }
    }
}

#[derive(Debug, Clone)]
pub struct FileEvent {
    pub id: String,
    /// RFC 3339 text.
    pub timestamp: String,
    pub path: String,
    pub change_type: FileChangeType,
    pub sha256: Option<String>,
    pub size_bytes: Option<u64>,
}

/// A single filesystem location that is watched.
#[derive(Debug, Clone)]
pub struct WatchScope {
    pub path: String,
    pub recursive: bool,
    pub label: String,
    pub built_in: bool,
}

#[derive(Debug, Clone, Copy, PartialEq, Eq, Structural)]
pub enum StartupClassification {
    Known,
    Unknown,
    Suspicious,
}

impl StartupClassification {
    /// The variant's name.
    pub open spec fn name_text(self) -> Seq<char> {
        match self {
            StartupClassification::Known => "Known"@,
            StartupClassification::Unknown => "Unknown"@,
            StartupClassification::Suspicious => "Suspicious"@,
        }
    }

    /// The variant's name, as `{:?}` prints it.
    pub fn debug_name(&self) -> (s: &'static str)
        ensures
            s@ == self.name_text(),
    {
        match self {
            StartupClassification::Known => "Known",
            StartupClassification::Unknown => "Unknown",
            StartupClassification::Suspicious => "Suspicious",
        }
    }
}

#[derive(Debug, Clone, Copy, PartialEq, Eq, Structural)]
pub enum StartupLocationType {
    RegistryRun,
    RegistryRunOnce,
    StartupFolder,
    ScheduledTask,
}

#[derive(Debug, Clone)]
pub struct StartupEntry {
    pub id: String,
    pub name: String,
    pub command: String,
    pub location_type: StartupLocationType,
    pub classification: StartupClassification,
    /// Plain-language reasons behind the classification.
    pub evidence: Vec<String>,
    /// RFC 3339 text.
    pub first_seen: String,
    /// RFC 3339 text.
    pub last_seen: String,
}

/// One correlated risk finding produced by combining signals.
#[derive(Debug, Clone)]
pub struct RiskFinding {
    pub id: String,
    /// RFC 3339 text.
    pub timestamp: String,
    pub title: String,
    pub description: String,
    pub severity: Severity,
    pub confidence: Confidence,
    pub evidence: Vec<String>,
    pub remediation: Option<String>,
    pub related_event_ids: Vec<String>,
}

#[derive(Debug, Clone, Copy, PartialEq, Eq, Structural, PartialOrd, Ord)]
pub enum Confidence {
    Low,
    Medium,
    High,
}

} // verus!
