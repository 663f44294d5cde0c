//! The explained security score: it starts at 100 and loses points for
//! concrete signals, each loss carried by a labelled reason.
use vstd::prelude::*;

use crate::models::monitoring::StartupClassification;
use crate::models::ports::PortRisk;
use crate::models::{ScoreReason, SecurityScore, Severity};
use crate::split::{join_strings, join_with, views};
use crate::text::{dec, owned, push_decimal, push_str};

verus! {

/// What the firewall check found.
#[derive(Debug, Clone)]
pub enum FirewallSignal {
    /// The check does not exist on this system.
    NotChecked,
    /// The firewall state could not be read.
    Unreadable,
    /// The names of the profiles whose firewall is disabled (possibly none).
    DisabledProfiles(Vec<String>),
}

/// The signals a security score is computed from.
#[derive(Debug, Clone)]
pub struct ScoreSignals {
    pub firewall: FirewallSignal,
    /// The classifications of the current startup entries, or `None` when
    /// they could not be listed.
    pub startup: Option<Vec<StartupClassification>>,
    /// The risk labels of the current listening ports, or `None` when they
    /// could not be listed.
    pub ports: Option<Vec<PortRisk>>,
    /// The number of high/critical risk findings of the last seven days.
    pub recent_high_findings: i64,
}

/// A reason as plain values: label, impact, severity.
pub open spec fn reason_view(r: ScoreReason) -> (Seq<char>, int, Severity) {
    (r.label@, r.impact as int, r.severity)
}

/// The views of a list of reasons.
pub open spec fn reasons_view(rs: Seq<ScoreReason>) -> Seq<(Seq<char>, int, Severity)> {
    rs.map_values(|r: ScoreReason| reason_view(r))
}

/// The number of entries with a given classification.
pub open spec fn count_class(s: Seq<StartupClassification>, c: StartupClassification) -> nat
    decreases s.len(),
{
    if s.len() == 0 {
        0
    } else {
        count_class(s.drop_last(), c) + if s.last() == c {
            1nat
        } else {
            0nat
        }
    }
}

/// The number of ports whose risk is not Low.
pub open spec fn count_elevated(s: Seq<PortRisk>) -> nat
    decreases s.len(),
{
    if s.len() == 0 {
        0
    } else {
        count_elevated(s.drop_last()) + if s.last() != PortRisk::Low {
            1nat
        } else {
            0nat
        }
    }
}

/// The smaller of two numbers.
pub open spec fn min_int(a: int, b: int) -> int {
    if a <= b {
        a
    } else {
        b
    }
}

/// `y` for one entry, `ies` otherwise.
pub open spec fn entry_suffix(n: nat) -> Seq<char> {
    if n == 1 {
        "y"@
    } else {
        "ies"@
    }
}

/// The reasons contributed by the firewall check.
pub open spec fn firewall_reasons(fw: FirewallSignal) -> Seq<(Seq<char>, int, Severity)> {
    match fw {
        FirewallSignal::NotChecked => Seq::empty(),
        FirewallSignal::Unreadable => seq![
            ("Firewall status could not be checked"@, 0int, Severity::Info),
        ],
        FirewallSignal::DisabledProfiles(p) => if p@.len() > 0 {
            seq![
                ("Firewall disabled for: "@ + join_with(views(p@), ", "@), -20int, Severity::High),
            ]
        } else {
            Seq::empty()
        },
    }
}

/// The reasons contributed by the startup entries.
pub open spec fn startup_reasons(startup: Option<Vec<StartupClassification>>) -> Seq<
    (Seq<char>, int, Severity),
> {
    match startup {
        None => Seq::empty(),
        Some(v) => {
            let s = count_class(v@, StartupClassification::Suspicious);
            let u = count_class(v@, StartupClassification::Unknown);
            let rs = if s > 0 {
                seq![
                    (dec(s) + " suspicious startup entr"@ + entry_suffix(s), -10 * min_int(
                        s as int,
                        3,
                    ), Severity::High),
                ]
            } else {
                Seq::empty()
            };
            if u > 0 {
                rs.push(
                    (
                        dec(u) + " unrecognized (unsigned-status-unknown) startup entr"@
                            + entry_suffix(u),
                        -2 * min_int(u as int, 10),
                        Severity::Medium,
                    ),
                )
            } else {
                rs
            }
        },
    }
}

/// The reasons contributed by the listening ports.
pub open spec fn port_reasons(ports: Option<Vec<PortRisk>>) -> Seq<(Seq<char>, int, Severity)> {
    match ports {
        None => Seq::empty(),
        Some(v) => {
            let e = count_elevated(v@);
            if e > 0 {
                seq![
                    (dec(e) + " listening port(s) outside the well-known/low-risk set"@, -3
                        * min_int(e as int, 5), Severity::Medium),
                ]
            } else {
                Seq::empty()
            }
        },
    }
}

/// The reasons contributed by recent high/critical risk findings.
pub open spec fn finding_reasons(n: i64) -> Seq<(Seq<char>, int, Severity)> {
    if n > 0 {
        seq![
            (dec(n as nat) + " high/critical risk finding(s) in the last 7 days"@, -10 * min_int(
                n as int,
                2,
            ), Severity::High),
        ]
    } else {
        Seq::empty()
    }
}

/// Every reason the signals produce, in check order.
pub open spec fn signal_reasons(sig: ScoreSignals) -> Seq<(Seq<char>, int, Severity)> {
    firewall_reasons(sig.firewall) + startup_reasons(sig.startup) + port_reasons(sig.ports)
        + finding_reasons(sig.recent_high_findings)
}

/// The reasons shown for a score: those of the signals, or the single
/// "no issues" reason when there are none.
pub open spec fn shown_reasons(sig: ScoreSignals) -> Seq<(Seq<char>, int, Severity)> {
    if signal_reasons(sig).len() == 0 {
        seq![("No issues detected across the checks currently implemented"@, 0int, Severity::Info)]
    } else {
        signal_reasons(sig)
    }
}

/// The sum of the impacts of a list of reasons.
pub open spec fn total_impact(rs: Seq<(Seq<char>, int, Severity)>) -> int
    decreases rs.len(),
{
    if rs.len() == 0 {
        0
    } else {
        total_impact(rs.drop_last()) + rs.last().1
    }
}

/// A number clamped to `0..=100`.
pub open spec fn clamp_percent(x: int) -> int {
    if x < 0 {
        0
    } else if x > 100 {
        100
    } else {
        x
    }
}

/// The score the signals give: 100 plus every impact, clamped to
/// `0..=100`.
pub open spec fn expected_score(sig: ScoreSignals) -> int {
    clamp_percent(100 + total_impact(signal_reasons(sig)))
}

/// The names of the firewall profiles (Domain, Private, Public) whose
/// firewall is disabled, in that order.
pub fn disabled_profiles(domain_enabled: bool, private_enabled: bool, public_enabled: bool) -> (r:
    Vec<String>)
    ensures
        views(r@) == (if domain_enabled {
            Seq::<Seq<char>>::empty()
        } else {
            seq!["Domain"@]
        }) + (if private_enabled {
            Seq::<Seq<char>>::empty()
        } else {
            seq!["Private"@]
        }) + (if public_enabled {
            Seq::<Seq<char>>::empty()
        } else {
            seq!["Public"@]
        }),
{
    let mut r: Vec<String> = Vec::new();
    if !domain_enabled {
        r.push(owned("Domain"));
    }
    if !private_enabled {
        r.push(owned("Private"));
    }
    if !public_enabled {
        r.push(owned("Public"));
    }
    assert(views(r@) =~= (if domain_enabled {
        Seq::<Seq<char>>::empty()
    } else {
        seq!["Domain"@]
    }) + (if private_enabled {
        Seq::<Seq<char>>::empty()
    } else {
        seq!["Private"@]
    }) + (if public_enabled {
        Seq::<Seq<char>>::empty()
    } else {
        seq!["Public"@]
    }));
    r
}

/// Counts the entries with a classification.
fn count_classified(v: &Vec<StartupClassification>, c: StartupClassification) -> (n: usize)
    ensures
        n == count_class(v@, c),
{
    let mut n: usize = 0;
    let mut i: usize = 0;
    while i < v.len()
        invariant
            i <= v.len(),
            n == count_class(v@.subrange(0, i as int), c),
            n <= i,
        decreases v.len() - i,
    {
        assert(v@.subrange(0, i + 1).drop_last() == v@.subrange(0, i as int));
        if v[i] == c {
            n = n + 1;
        }
        i = i + 1;
    }
    assert(v@.subrange(0, v.len() as int) == v@);
    n
}

/// Counts the ports whose risk is not Low.
fn count_elevated_ports(v: &Vec<PortRisk>) -> (n: usize)
    ensures
        n == count_elevated(v@),
{
    let mut n: usize = 0;
    let mut i: usize = 0;
    while i < v.len()
        invariant
            i <= v.len(),
            n == count_elevated(v@.subrange(0, i as int)),
            n <= i,
        decreases v.len() - i,
    {
        assert(v@.subrange(0, i + 1).drop_last() == v@.subrange(0, i as int));
        if v[i] != PortRisk::Low {
            n = n + 1;
        }
        i = i + 1;
    }
    assert(v@.subrange(0, v.len() as int) == v@);
    n
}

/// A reason with a label of `<n><text><suffix>`.
fn counted_reason(n: u64, text: &str, suffix: &str, impact: i16, severity: Severity) -> (r:
    ScoreReason)
    ensures
        reason_view(r) == (dec(n as nat) + text@ + suffix@, impact as int, severity),
{
    let mut label = String::new();
    push_decimal(&mut label, n);
    push_str(&mut label, text);
    push_str(&mut label, suffix);
    assert(Seq::<char>::empty() + dec(n as nat) == dec(n as nat));
    ScoreReason { label, impact, severity }
}

proof fn lemma_total_impact_append(a: Seq<(Seq<char>, int, Severity)>, b: Seq<(Seq<char>, int, Severity)>)
    ensures
        total_impact(a + b) == total_impact(a) + total_impact(b),
    decreases b.len(),
{
    if b.len() == 0 {
        assert(a + b == a);
    } else {
        assert((a + b).drop_last() == a + b.drop_last());
        assert((a + b).last() == b.last());
        lemma_total_impact_append(a, b.drop_last());
    }
}

/// The impacts of the signals: each check loses at most its cap, never
/// gains.
pub proof fn lemma_signal_impacts(sig: ScoreSignals)
    ensures
        -105 <= total_impact(signal_reasons(sig)) <= 0,
        total_impact(signal_reasons(sig)) == total_impact(firewall_reasons(sig.firewall))
            + total_impact(startup_reasons(sig.startup)) + total_impact(port_reasons(sig.ports))
            + total_impact(finding_reasons(sig.recent_high_findings)),
        forall|i: int|
            0 <= i < signal_reasons(sig).len() ==> #[trigger] signal_reasons(sig)[i].1 <= 0,
{
    let f = firewall_reasons(sig.firewall);
    let s = startup_reasons(sig.startup);
    let p = port_reasons(sig.ports);
    let h = finding_reasons(sig.recent_high_findings);
    lemma_total_impact_append(f, s);
    lemma_total_impact_append(f + s, p);
    lemma_total_impact_append(f + s + p, h);
    reveal_with_fuel(total_impact, 3);
    assert(-20 <= total_impact(f) <= 0);
    assert(-50 <= total_impact(s) <= 0) by {
        match sig.startup {
            None => {},
            Some(v) => {
                let rs = if count_class(v@, StartupClassification::Suspicious) > 0 {
                    seq![
                        (dec(count_class(v@, StartupClassification::Suspicious)) + " suspicious startup entr"@
                            + entry_suffix(count_class(v@, StartupClassification::Suspicious)), -10
                            * min_int(count_class(v@, StartupClassification::Suspicious) as int, 3), Severity::High),
                    ]
                } else {
                    Seq::empty()
                };
                assert(-30 <= total_impact(rs) <= 0);
                if count_class(v@, StartupClassification::Unknown) > 0 {
                    assert(s.drop_last() == rs);
                }
            },
        }
    }
    assert(-15 <= total_impact(p) <= 0);
    assert(-20 <= total_impact(h) <= 0);
    let all = f + s + p + h;
    assert forall|i: int| 0 <= i < all.len() implies #[trigger] all[i].1 <= 0 by {
        if i < f.len() {
            assert(all[i] == f[i]);
        } else if i < f.len() + s.len() {
            assert(all[i] == s[i - f.len()]);
        } else if i < f.len() + s.len() + p.len() {
            assert(all[i] == p[i - f.len() - s.len()]);
        } else {
            assert(all[i] == h[i - f.len() - s.len() - p.len()]);
        }
    }
}

/// What the startup, port and finding checks deduct, in closed form:
/// 10 per suspicious entry (at most 30) and 2 per unrecognized entry (at
/// most 20), 3 per elevated port (at most 15), 10 per recent
/// high/critical finding (at most 20).
pub proof fn lemma_part_totals(sig: ScoreSignals)
    ensures
        total_impact(startup_reasons(sig.startup)) == match sig.startup {
            None => 0,
            Some(v) => -10 * min_int(count_class(v@, StartupClassification::Suspicious) as int, 3)
                - 2 * min_int(count_class(v@, StartupClassification::Unknown) as int, 10),
        },
        total_impact(port_reasons(sig.ports)) == match sig.ports {
            None => 0,
            Some(v) => -3 * min_int(count_elevated(v@) as int, 5),
        },
        total_impact(finding_reasons(sig.recent_high_findings)) == if sig.recent_high_findings
            > 0 {
            -10 * min_int(sig.recent_high_findings as int, 2)
        } else {
            0
        },
{
    reveal_with_fuel(total_impact, 3);
    match sig.startup {
        None => {},
        Some(v) => {
            let su = count_class(v@, StartupClassification::Suspicious);
            let un = count_class(v@, StartupClassification::Unknown);
            let rs = if su > 0 {
                seq![
                    (dec(su) + " suspicious startup entr"@ + entry_suffix(su), -10 * min_int(
                        su as int,
                        3,
                    ), Severity::High),
                ]
            } else {
                Seq::empty()
            };
            if un > 0 {
                assert(startup_reasons(sig.startup).drop_last() == rs);
            }
        },
    }
}

/// The reasons of the firewall check and their total impact.
fn firewall_part(fw: &FirewallSignal) -> (r: (i32, Vec<ScoreReason>))
    ensures
        reasons_view(r.1@) == firewall_reasons(*fw),
        r.0 == total_impact(firewall_reasons(*fw)),
        -20 <= r.0 <= 0,
{
    let mut reasons: Vec<ScoreReason> = Vec::new();
    let mut impact: i32 = 0;
    match fw {
        FirewallSignal::NotChecked => {},
        FirewallSignal::Unreadable => {
            reasons.push(
                ScoreReason {
                    label: owned("Firewall status could not be checked"),
                    impact: 0,
                    severity: Severity::Info,
                },
            );
        },
        FirewallSignal::DisabledProfiles(p) => {
            if p.len() > 0 {
                impact = -20;
                let mut label = owned("Firewall disabled for: ");
                let joined = join_strings(p, ", ");
                push_str(&mut label, joined.as_str());
                reasons.push(ScoreReason { label, impact: -20, severity: Severity::High });
            }
        },
    }
    assert(reasons_view(reasons@) =~= firewall_reasons(*fw));
    assert(impact == total_impact(firewall_reasons(*fw))) by {
        reveal_with_fuel(total_impact, 2);
    }
    (impact, reasons)
}

/// The reasons of the startup check and their total impact.
fn startup_part(startup: &Option<Vec<StartupClassification>>) -> (r: (i32, Vec<ScoreReason>))
    ensures
        reasons_view(r.1@) == startup_reasons(*startup),
        r.0 == total_impact(startup_reasons(*startup)),
        -50 <= r.0 <= 0,
{
    let mut reasons: Vec<ScoreReason> = Vec::new();
    let mut impact: i32 = 0;
    match startup {
        None => {},
        Some(v) => {
            let s = count_classified(v, StartupClassification::Suspicious);
            let u = count_classified(v, StartupClassification::Unknown);
            if s > 0 {
                let capped: i32 = if s < 3 {
                    s as i32
                } else {
                    3
                };
                let i1: i32 = -(10 * capped);
                impact = impact + i1;
                let suffix = if s == 1 {
                    "y"
                } else {
                    "ies"
                };
                reasons.push(
                    counted_reason(s as u64, " suspicious startup entr", suffix, i1 as i16, Severity::High),
                );
            }
            let ghost first = reasons_view(reasons@);
            if u > 0 {
                let capped: i32 = if u < 10 {
                    u as i32
                } else {
                    10
                };
                let i2: i32 = -(2 * capped);
                impact = impact + i2;
                let suffix = if u == 1 {
                    "y"
                } else {
                    "ies"
                };
                reasons.push(
                    counted_reason(
                        u as u64,
                        " unrecognized (unsigned-status-unknown) startup entr",
                        suffix,
                        i2 as i16,
                        Severity::Medium,
                    ),
                );
                assert(reasons_view(reasons@).drop_last() =~= first);
            }
        },
    }
    assert(reasons_view(reasons@) =~= startup_reasons(*startup));
    assert(impact == total_impact(startup_reasons(*startup))) by {
        reveal_with_fuel(total_impact, 3);
    }
    (impact, reasons)
}

/// The reasons of the port check and their total impact.
fn ports_part(ports: &Option<Vec<PortRisk>>) -> (r: (i32, Vec<ScoreReason>))
    ensures
        reasons_view(r.1@) == port_reasons(*ports),
        r.0 == total_impact(port_reasons(*ports)),
        -15 <= r.0 <= 0,
{
    let mut reasons: Vec<ScoreReason> = Vec::new();
    let mut impact: i32 = 0;
    match ports {
        None => {},
        Some(v) => {
            let e = count_elevated_ports(v);
            if e > 0 {
                let capped: i32 = if e < 5 {
                    e as i32
                } else {
                    5
                };
                impact = -(3 * capped);
                proof {
                    reveal_strlit("");
                }
                reasons.push(
                    counted_reason(
                        e as u64,
                        " listening port(s) outside the well-known/low-risk set",
                        "",
                        impact as i16,
                        Severity::Medium,
                    ),
                );
                assert(" listening port(s) outside the well-known/low-risk set"@ + ""@
                    =~= " listening port(s) outside the well-known/low-risk set"@);
            }
        },
    }
    assert(reasons_view(reasons@) =~= port_reasons(*ports));
    assert(impact == total_impact(port_reasons(*ports))) by {
        reveal_with_fuel(total_impact, 2);
    }
    (impact, reasons)
}

/// The reasons of the risk-finding check and their total impact.
fn findings_part(h: i64) -> (r: (i32, Vec<ScoreReason>))
    ensures
        reasons_view(r.1@) == finding_reasons(h),
        r.0 == total_impact(finding_reasons(h)),
        -20 <= r.0 <= 0,
{
    let mut reasons: Vec<ScoreReason> = Vec::new();
    let mut impact: i32 = 0;
    if h > 0 {
        let capped: i32 = if h < 2 {
            h as i32
        } else {
            2
        };
        impact = -(10 * capped);
        proof {
            reveal_strlit("");
        }
        reasons.push(
            counted_reason(
                h as u64,
                " high/critical risk finding(s) in the last 7 days",
                "",
                impact as i16,
                Severity::High,
            ),
        );
        assert(" high/critical risk finding(s) in the last 7 days"@ + ""@
            =~= " high/critical risk finding(s) in the last 7 days"@);
    }
    assert(reasons_view(reasons@) =~= finding_reasons(h));
    assert(impact == total_impact(finding_reasons(h))) by {
        reveal_with_fuel(total_impact, 2);
    }
    (impact, reasons)
}

/// Computes the score and its reasons from the signals. Starts at 100
/// and subtracts 20 when any firewall profile is disabled, 10 per
/// suspicious startup entry (at most 30), 2 per unrecognized one (at most
/// 20), 3 per listening port outside the low-risk set (at most 15) and 10
/// per recent high/critical finding (at most 20); an unreadable firewall
/// state adds a reason without a penalty; the result is clamped to
/// `0..=100`, and a score without reasons gets the "no issues" reason.
pub fn score_from_signals(sig: &ScoreSignals) -> (r: (u8, Vec<ScoreReason>))
    ensures
        r.0 as int == expected_score(*sig),
        reasons_view(r.1@) == shown_reasons(*sig),
{
    proof {
        lemma_signal_impacts(*sig);
    }
    let (i1, mut reasons) = firewall_part(&sig.firewall);
    let (i2, mut r2) = startup_part(&sig.startup);
    let (i3, mut r3) = ports_part(&sig.ports);
    let (i4, mut r4) = findings_part(sig.recent_high_findings);
    let ghost v1 = reasons_view(reasons@);
    reasons.append(&mut r2);
    reasons.append(&mut r3);
    reasons.append(&mut r4);
    assert(reasons_view(reasons@) =~= signal_reasons(*sig));
    let score: i32 = 100 + i1 + i2 + i3 + i4;
    let clamped: u8 = if score < 0 {
        0
    } else if score > 100 {
        100
    } else {
        score as u8
    };
    if reasons.len() == 0 {
        reasons.push(
            ScoreReason {
                label: owned("No issues detected across the checks currently implemented"),
                impact: 0,
                severity: Severity::Info,
            },
        );
        assert(reasons_view(reasons@) =~= shown_reasons(*sig));
    }
    (clamped, reasons)
}

/// Computes the dashboard's security score from the signals, stamped
/// with the current time.
pub fn compute_security_score(sig: &ScoreSignals) -> (s: SecurityScore)
    ensures
        s.score as int == expected_score(*sig),
        reasons_view(s.reasons@) == shown_reasons(*sig),
        crate::clock::is_clock_text(s.calculated_at@, 0),
{
    let (score, reasons) = score_from_signals(sig);
    SecurityScore { score, reasons, calculated_at: crate::clock::now_rfc3339() }
}

} // verus!
