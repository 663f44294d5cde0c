//! The shape of timeline events and audit entries before they are
//! stored: fresh ids, the current time, and the fixed defaults.
use vstd::prelude::*;

use crate::ids::{is_uuid_v4_text, new_id};
use crate::models::{AppError, AuditEntry, AuditResult, EventCategory, Severity, SystemEvent};
use crate::text::owned;

verus! {

/// The view of an optional string.
pub open spec fn opt_text(o: Option<String>) -> Option<Seq<char>> {
    match o {
        Some(s) => Some(s@),
        None => None,
    }
}

/// A normalized event with a fresh id and the current time; the state,
/// process and file fields are empty and the risk score is 0.
pub fn new_system_event(
    category: EventCategory,
    severity: Severity,
    source: &str,
    description: &str,
    target: Option<String>,
) -> (e: SystemEvent)
    ensures
        is_uuid_v4_text(e.id@),
        crate::clock::is_clock_text(e.timestamp@, 0),
        e.category == category,
        e.severity == severity,
        e.source@ == source@,
        e.description@ == description@,
        e.target == target,
        e.previous_state is None,
        e.new_state is None,
        e.related_process is None,
        e.related_file is None,
        e.risk_score == 0,
{
    SystemEvent {
        id: new_id(),
        timestamp: crate::clock::now_rfc3339(),
        category,
        severity,
        source: owned(source),
        description: owned(description),
        target,
        previous_state: None,
        new_state: None,
        related_process: None,
        related_file: None,
        risk_score: 0,
    }
}

/// An audit entry with a fresh id and the current time.
pub fn new_audit_entry(
    user: &str,
    action: &str,
    target: &str,
    before: Option<String>,
    after: Option<String>,
    result: AuditResult,
    source: &str,
    app_version: &str,
) -> (e: AuditEntry)
    ensures
        is_uuid_v4_text(e.id@),
        crate::clock::is_clock_text(e.timestamp@, 0),
        e.user@ == user@,
        e.action@ == action@,
        e.target@ == target@,
        e.before == before,
        e.after == after,
        e.result == result,
        e.source@ == source@,
        e.app_version@ == app_version@,
{
    AuditEntry {
        id: new_id(),
        timestamp: crate::clock::now_rfc3339(),
        user: owned(user),
        action: owned(action),
        target: owned(target),
        before,
        after,
        result,
        source: owned(source),
        app_version: owned(app_version),
    }
}

/// The audit result of an operation: Success when it succeeded, Failure
/// otherwise. Every privileged operation is audited either way.
pub fn audit_result_of(r: &Result<(), AppError>) -> (a: AuditResult)
    ensures
        a == if r is Ok {
            AuditResult::Success
        } else {
            AuditResult::Failure
        },
{
    match r {
        Ok(()) => AuditResult::Success,
        Err(_) => AuditResult::Failure,
    }
}

/// The acting user: the value of `USERNAME`, else of `USER`, else
/// `unknown`.
pub fn acting_user(username: Option<String>, user: Option<String>) -> (s: String)
    ensures
        s@ == match (username, user) {
            (Some(a), _) => a@,
            (None, Some(b)) => b@,
            (None, None) => "unknown"@,
        },
{
    match username {
        Some(a) => a,
        None => match user {
            Some(b) => b,
            None => owned("unknown"),
        },
    }
}

} // verus!
