use voidguard::models::monitoring::StartupClassification;
use voidguard::models::ports::PortRisk;
use voidguard::models::Severity;
use voidguard::score::{
    compute_security_score, disabled_profiles, score_from_signals, FirewallSignal, ScoreSignals,
};

fn signals(
    firewall: FirewallSignal,
    startup: Option<Vec<StartupClassification>>,
    ports: Option<Vec<PortRisk>>,
    recent_high_findings: i64,
) -> ScoreSignals {
    ScoreSignals { firewall, startup, ports, recent_high_findings }
}

#[test]
fn clean_system_scores_full_marks() {
    let (score, reasons) = score_from_signals(&signals(
        FirewallSignal::DisabledProfiles(vec![]),
        Some(vec![StartupClassification::Known]),
        Some(vec![PortRisk::Low, PortRisk::Low]),
        0,
    ));
    assert_eq!(score, 100);
    assert_eq!(reasons.len(), 1);
    assert_eq!(reasons[0].label, "No issues detected across the checks currently implemented");
    assert_eq!(reasons[0].impact, 0);
    assert_eq!(reasons[0].severity, Severity::Info);
}

#[test]
fn disabled_profiles_lists_them_in_order() {
    assert_eq!(disabled_profiles(true, true, true), Vec::<String>::new());
    assert_eq!(disabled_profiles(false, true, false), vec!["Domain".to_string(), "Public".to_string()]);
    assert_eq!(
        disabled_profiles(false, false, false),
        vec!["Domain".to_string(), "Private".to_string(), "Public".to_string()]
    );
}

#[test]
fn each_check_deducts_its_share() {
    let (score, reasons) = score_from_signals(&signals(
        FirewallSignal::DisabledProfiles(disabled_profiles(true, false, true)),
        Some(vec![
            StartupClassification::Suspicious,
            StartupClassification::Unknown,
            StartupClassification::Unknown,
            StartupClassification::Known,
        ]),
        Some(vec![PortRisk::Medium, PortRisk::Low, PortRisk::High]),
        1,
    ));
    // 100 - 20 - 10 - 4 - 6 - 10
    assert_eq!(score, 50);
    let labels: Vec<&str> = reasons.iter().map(|r| r.label.as_str()).collect();
    assert_eq!(
        labels,
        vec![
            "Firewall disabled for: Private",
            "1 suspicious startup entry",
            "2 unrecognized (unsigned-status-unknown) startup entries",
            "2 listening port(s) outside the well-known/low-risk set",
            "1 high/critical risk finding(s) in the last 7 days",
        ]
    );
    let impacts: Vec<i16> = reasons.iter().map(|r| r.impact).collect();
    assert_eq!(impacts, vec![-20, -10, -4, -6, -10]);
    let severities: Vec<Severity> = reasons.iter().map(|r| r.severity).collect();
    assert_eq!(
        severities,
        vec![Severity::High, Severity::High, Severity::Medium, Severity::Medium, Severity::High]
    );
}

#[test]
fn deductions_are_capped_and_score_clamped() {
    let (score, reasons) = score_from_signals(&signals(
        FirewallSignal::DisabledProfiles(disabled_profiles(false, false, false)),
        Some(vec![StartupClassification::Suspicious; 7]
            .into_iter()
            .chain(vec![StartupClassification::Unknown; 25])
            .collect()),
        Some(vec![PortRisk::Medium; 40]),
        9,
    ));
    // 100 - 20 - 30 - 20 - 15 - 20 = -5, clamped to 0
    assert_eq!(score, 0);
    let impacts: Vec<i16> = reasons.iter().map(|r| r.impact).collect();
    assert_eq!(impacts, vec![-20, -30, -20, -15, -20]);
    assert_eq!(reasons[0].label, "Firewall disabled for: Domain, Private, Public");
    assert_eq!(reasons[1].label, "7 suspicious startup entries");
}

#[test]
fn unreadable_firewall_is_explained_without_penalty() {
    let (score, reasons) = score_from_signals(&signals(FirewallSignal::Unreadable, None, None, 0));
    assert_eq!(score, 100);
    assert_eq!(reasons.len(), 1);
    assert_eq!(reasons[0].label, "Firewall status could not be checked");
    assert_eq!(reasons[0].impact, 0);
    assert_eq!(reasons[0].severity, Severity::Info);
}

#[test]
fn more_findings_never_raise_the_score() {
    let mut last = 101u8;
    for n in 0..6 {
        let (score, _) = score_from_signals(&signals(FirewallSignal::NotChecked, None, None, n));
        assert!(score <= last);
        last = score;
    }
    assert_eq!(last, 80);
}

#[test]
fn computed_score_is_stamped() {
    let s = compute_security_score(&signals(FirewallSignal::NotChecked, None, Some(vec![PortRisk::Medium]), 0));
    assert_eq!(s.score, 97);
    assert_eq!(s.reasons.len(), 1);
    assert!(s.calculated_at.len() >= 20);
    assert!(s.calculated_at.contains('T'));
}

#[test]
fn more_startup_entries_or_ports_never_raise_the_score() {
    let mut entries: Vec<StartupClassification> = Vec::new();
    let mut last = 101u8;
    for c in [
        StartupClassification::Known,
        StartupClassification::Unknown,
        StartupClassification::Suspicious,
        StartupClassification::Suspicious,
        StartupClassification::Unknown,
    ] {
        entries.push(c);
        let (score, _) = score_from_signals(&signals(FirewallSignal::NotChecked, Some(entries.clone()), None, 0));
        assert!(score <= last);
        last = score;
    }
    assert_eq!(last, 76);
    let mut ports: Vec<PortRisk> = Vec::new();
    let mut last = 101u8;
    for r in [PortRisk::Low, PortRisk::Medium, PortRisk::Low, PortRisk::High] {
        ports.push(r);
        let (score, _) = score_from_signals(&signals(FirewallSignal::NotChecked, None, Some(ports.clone()), 0));
        assert!(score <= last);
        last = score;
    }
    assert_eq!(last, 94);
}

#[test]
fn finding_deduction_is_capped_for_any_count() {
    let (score, reasons) = score_from_signals(&signals(FirewallSignal::NotChecked, None, None, i64::MAX));
    assert_eq!(score, 80);
    assert_eq!(reasons[0].impact, -20);
    assert_eq!(reasons[0].label, format!("{} high/critical risk finding(s) in the last 7 days", i64::MAX));
    let (score, _) = score_from_signals(&signals(FirewallSignal::NotChecked, None, None, -5));
    assert_eq!(score, 100);
}
