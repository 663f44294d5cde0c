//! Data retention: which high-volume tables are cleaned, from when, and
//! the statement that deletes their old rows.
use vstd::prelude::*;

use crate::models::scan::RetentionSettings;
use crate::text::{owned, push_str};

verus! {

/// How many rows a cleanup removed from each table.
#[derive(Debug, Clone, Copy)]
pub struct RetentionCleanupResult {
    pub events_deleted: u32,
    pub process_snapshots_deleted: u32,
    pub port_snapshots_deleted: u32,
}

/// One table a cleanup looks at, with its timestamp column and window.
#[derive(Debug, Clone, Copy)]
pub struct RetentionTarget {
    pub table: &'static str,
    pub timestamp_column: &'static str,
    /// The window in days; `0` keeps the table's rows forever.
    pub days: u32,
}

/// The tables a cleanup looks at, in order: events, process snapshots,
/// port snapshots, each keyed by its `timestamp` column.
pub fn retention_targets(s: &RetentionSettings) -> (r: Vec<RetentionTarget>)
    ensures
        r@.len() == 3,
        r@[0].table@ == "events"@ && r@[0].timestamp_column@ == "timestamp"@ && r@[0].days
            == s.events_days,
        r@[1].table@ == "process_snapshots"@ && r@[1].timestamp_column@ == "timestamp"@
            && r@[1].days == s.process_snapshots_days,
        r@[2].table@ == "port_snapshots"@ && r@[2].timestamp_column@ == "timestamp"@
            && r@[2].days == s.port_snapshots_days,
{
    let mut r: Vec<RetentionTarget> = Vec::new();
    r.push(RetentionTarget { table: "events", timestamp_column: "timestamp", days: s.events_days });
    r.push(
        RetentionTarget {
            table: "process_snapshots",
            timestamp_column: "timestamp",
            days: s.process_snapshots_days,
        },
    );
    r.push(
        RetentionTarget {
            table: "port_snapshots",
            timestamp_column: "timestamp",
            days: s.port_snapshots_days,
        },
    );
    r
}

/// The cutoff before which rows are deleted, as RFC 3339 text: the time
/// `days` days before a reading of the clock, or `None` when the window
/// is `0` days and the table is kept forever.
pub fn retention_cutoff(days: u32) -> (r: Option<String>)
    requires
        days <= 96_465_292,
    ensures
        r is None <==> days == 0,
        r matches Some(c) ==> crate::clock::is_clock_text(c@, 86400 * days),
{
    if days == 0 {
        None
    } else {
        Some(crate::clock::days_ago_rfc3339(days))
    }
}

/// The statement that deletes a table's rows older than the bound
/// cutoff `?1`. Table and column names are fixed call-site constants,
/// never user input.
pub fn delete_statement(table: &str, timestamp_column: &str) -> (s: String)
    ensures
        s@ == "DELETE FROM "@ + table@ + " WHERE "@ + timestamp_column@ + " < ?1"@,
{
    let mut s = owned("DELETE FROM ");
    push_str(&mut s, table);
    push_str(&mut s, " WHERE ");
    push_str(&mut s, timestamp_column);
    push_str(&mut s, " < ?1");
    s
}

/// A deleted-row count as reported: the count modulo 2^32.
pub fn reported_count(deleted: usize) -> (n: u32)
    ensures
        n == deleted as nat % 0x1_0000_0000,
{
    ((deleted as u64) % 0x1_0000_0000) as u32
}

} // verus!
