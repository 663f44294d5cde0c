//! The risk correlation rules: each combines signals into findings that
//! carry a severity, a confidence, evidence and a suggested remediation.
use vstd::prelude::*;

use crate::ids::{is_uuid_v4_text, new_id};
use crate::models::monitoring::{Confidence, RiskFinding};
use crate::models::Severity;
use crate::split::views;
use crate::text::{chars_of, chars_eq, dec, owned, push_decimal, push_str};

verus! {

/// A startup entry flagged Suspicious or Unknown, as stored: name,
/// command, and the stored classification text.
#[derive(Debug, Clone)]
pub struct FlaggedStartup {
    pub name: String,
    pub command: String,
    pub classification: String,
}

/// A finding as plain values: title, description, severity, confidence,
/// evidence, remediation, related event ids.
pub open spec fn finding_view(f: RiskFinding) -> (
    Seq<char>,
    Seq<char>,
    Severity,
    Confidence,
    Seq<Seq<char>>,
    Option<Seq<char>>,
    Seq<Seq<char>>,
) {
    (
        f.title@,
        f.description@,
        f.severity,
        f.confidence,
        views(f.evidence@),
        match f.remediation {
            Some(r) => Some(r@),
            None => None,
        },
        views(f.related_event_ids@),
    )
}

/// The remediation of the startup-with-network rule.
pub open spec fn startup_network_remediation() -> Seq<char> {
    "Review the startup entry's target executable and the newly opened port(s) in the Network page. Remove the entry if you don't recognize it."@
}

/// The finding of the startup-with-network rule for one flagged entry:
/// High severity when the entry is stored as `SUSPICIOUS`, Medium
/// otherwise, Medium confidence.
pub open spec fn startup_network_finding(e: FlaggedStartup, port_opens: nat) -> (
    Seq<char>,
    Seq<char>,
    Severity,
    Confidence,
    Seq<Seq<char>>,
    Option<Seq<char>>,
    Seq<Seq<char>>,
) {
    (
        "Startup entry '"@ + e.name@ + "' combined with new network activity"@,
        "'"@ + e.name@ + "' ("@ + e.command@ + ") was flagged "@ + e.classification@
            + " and at least one new listening port was observed in the same 24-hour window."@,
        if e.classification@ == "SUSPICIOUS"@ {
            Severity::High
        } else {
            Severity::Medium
        },
        Confidence::Medium,
        seq![
            "Startup entry classification: "@ + e.classification@,
            dec(port_opens) + " new listening port(s) observed in the last 24 hours"@,
        ],
        Some(startup_network_remediation()),
        Seq::empty(),
    )
}

fn one_startup_network_finding(e: &FlaggedStartup, port_opens: i64) -> (f: RiskFinding)
    requires
        port_opens > 0,
    ensures
        finding_view(f) == startup_network_finding(*e, port_opens as nat),
        is_uuid_v4_text(f.id@),
        crate::clock::is_clock_text(f.timestamp@, 0),
{
    let mut title = owned("Startup entry '");
    push_str(&mut title, e.name.as_str());
    push_str(&mut title, "' combined with new network activity");
    let mut description = owned("'");
    push_str(&mut description, e.name.as_str());
    push_str(&mut description, "' (");
    push_str(&mut description, e.command.as_str());
    push_str(&mut description, ") was flagged ");
    push_str(&mut description, e.classification.as_str());
    push_str(
        &mut description,
        " and at least one new listening port was observed in the same 24-hour window.",
    );
    let c = chars_of(e.classification.as_str());
    let s = chars_of("SUSPICIOUS");
    let severity = if chars_eq(&c, &s) {
        Severity::High
    } else {
        Severity::Medium
    };
    let mut ev1 = owned("Startup entry classification: ");
    push_str(&mut ev1, e.classification.as_str());
    let mut ev2 = String::new();
    push_decimal(&mut ev2, port_opens as u64);
    push_str(&mut ev2, " new listening port(s) observed in the last 24 hours");
    assert(Seq::<char>::empty() + dec(port_opens as nat) == dec(port_opens as nat));
    let mut evidence: Vec<String> = Vec::new();
    evidence.push(ev1);
    evidence.push(ev2);
    let f = RiskFinding {
        id: new_id(),
        timestamp: crate::clock::now_rfc3339(),
        title,
        description,
        severity,
        confidence: Confidence::Medium,
        evidence,
        remediation: Some(
            owned(
                "Review the startup entry's target executable and the newly opened port(s) in the Network page. Remove the entry if you don't recognize it.",
            ),
        ),
        related_event_ids: Vec::new(),
    };
    assert(finding_view(f) =~= startup_network_finding(*e, port_opens as nat));
    f
}

/// Rule: a Suspicious/Unknown startup entry combined with a port having
/// opened in the same 24-hour window: one finding per flagged entry when
/// at least one port opened, none otherwise.
pub fn rule_suspicious_startup_with_recent_network(
    flagged: &Vec<FlaggedStartup>,
    recent_port_opens: i64,
) -> (r: Vec<RiskFinding>)
    ensures
        recent_port_opens <= 0 ==> r@.len() == 0,
        recent_port_opens > 0 ==> r@.len() == flagged@.len() && forall|i: int|
            0 <= i < flagged@.len() ==> finding_view(#[trigger] r@[i]) == startup_network_finding(
                flagged@[i],
                recent_port_opens as nat,
            ),
        forall|i: int| 0 <= i < r@.len() ==> is_uuid_v4_text(#[trigger] r@[i].id@),
        forall|i: int|
            0 <= i < r@.len() ==> crate::clock::is_clock_text(#[trigger] r@[i].timestamp@, 0),
{
    let mut r: Vec<RiskFinding> = Vec::new();
    if recent_port_opens > 0 {
        let mut i: usize = 0;
        while i < flagged.len()
            invariant
                recent_port_opens > 0,
                i <= flagged.len(),
                r@.len() == i,
                forall|k: int|
                    0 <= k < i ==> finding_view(#[trigger] r@[k]) == startup_network_finding(
                        flagged@[k],
                        recent_port_opens as nat,
                    ),
                forall|k: int| 0 <= k < r@.len() ==> is_uuid_v4_text(#[trigger] r@[k].id@),
                forall|k: int|
                    0 <= k < r@.len() ==> crate::clock::is_clock_text(#[trigger] r@[k].timestamp@, 0),
            decreases flagged.len() - i,
        {
            let f = one_startup_network_finding(&flagged[i], recent_port_opens);
            r.push(f);
            i = i + 1;
        }
    }
    r
}

/// The finding of the many-new-entries rule for `count` entries first
/// seen within the hour: Medium severity, Low confidence.
pub open spec fn many_new_entries_finding(count: nat) -> (
    Seq<char>,
    Seq<char>,
    Severity,
    Confidence,
    Seq<Seq<char>>,
    Option<Seq<char>>,
    Seq<Seq<char>>,
) {
    (
        "Multiple new startup entries in a short window"@,
        dec(count) + " new startup entries were first observed within the last hour."@,
        Severity::Medium,
        Confidence::Low,
        seq![dec(count) + " new entries in under an hour"@],
        Some(
            "If you didn't just install software, review the Startup page for anything unrecognized."@,
        ),
        Seq::empty(),
    )
}

/// Rule: three or more never-seen-before startup entries within an hour
/// give one finding, fewer give none.
pub fn rule_multiple_new_startup_entries(count: i64) -> (r: Vec<RiskFinding>)
    ensures
        count < 3 ==> r@.len() == 0,
        count >= 3 ==> r@.len() == 1 && finding_view(r@[0]) == many_new_entries_finding(
            count as nat,
        ) && is_uuid_v4_text(r@[0].id@) && crate::clock::is_clock_text(r@[0].timestamp@, 0),
{
    let mut r: Vec<RiskFinding> = Vec::new();
    if count >= 3 {
        let mut description = String::new();
        push_decimal(&mut description, count as u64);
        push_str(&mut description, " new startup entries were first observed within the last hour.");
        let mut ev = String::new();
        push_decimal(&mut ev, count as u64);
        push_str(&mut ev, " new entries in under an hour");
        assert(Seq::<char>::empty() + dec(count as nat) == dec(count as nat));
        let mut evidence: Vec<String> = Vec::new();
        evidence.push(ev);
        let f = RiskFinding {
            id: new_id(),
            timestamp: crate::clock::now_rfc3339(),
            title: owned("Multiple new startup entries in a short window"),
            description,
            severity: Severity::Medium,
            confidence: Confidence::Low,
            evidence,
            remediation: Some(
                owned(
                    "If you didn't just install software, review the Startup page for anything unrecognized.",
                ),
            ),
            related_event_ids: Vec::new(),
        };
        assert(finding_view(f) =~= many_new_entries_finding(count as nat));
        r.push(f);
    }
    r
}

/// The start of the window the startup-with-network rule looks at: 24
/// hours before a reading of the clock, as RFC 3339 text in UTC,
/// comparable with the stored timestamps.
pub fn recent_network_window_start() -> (s: String)
    ensures
        crate::clock::is_clock_text(s@, 86400),
{
    crate::clock::hours_ago_rfc3339(24)
}

/// The start of the window the many-new-entries rule looks at: one hour
/// before a reading of the clock, as RFC 3339 text in UTC, comparable
/// with the stored timestamps.
pub fn new_entries_window_start() -> (s: String)
    ensures
        crate::clock::is_clock_text(s@, 3600),
{
    crate::clock::hours_ago_rfc3339(1)
}

} // verus!
