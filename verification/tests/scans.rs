use voidguard::models::firewall::{FirewallAction, FirewallProtocol, FirewallRule};
use voidguard::models::monitoring::{StartupClassification, StartupEntry, StartupLocationType};
use voidguard::models::ports::{ListeningPort, PortDirection, PortProtocol, PortRisk};
use voidguard::models::scan::{ScanFinding, ScanType};
use voidguard::models::system_control::{NetworkAdapter, ServiceInfo, ServiceStatus, StartupType};
use voidguard::models::Severity;
use voidguard::scan::{
    adapters_step_findings, files_step_findings, firewall_step_findings, ports_step_findings,
    processes_step_findings, scan_audit_target, scan_event_description, scan_event_severity,
    scan_summary, services_step_findings, startup_step_findings, step_progress, steps_for,
    total_steps, ScanStep,
};

fn finding(severity: Severity) -> ScanFinding {
    ScanFinding { label: "l".to_string(), detail: "d".to_string(), severity }
}

#[test]
fn fixed_scan_types_select_their_steps_in_catalogue_order() {
    assert_eq!(steps_for(ScanType::Quick, &None), vec![ScanStep::Ports, ScanStep::Firewall, ScanStep::Startup]);
    assert_eq!(
        steps_for(ScanType::System, &None),
        vec![ScanStep::Firewall, ScanStep::Startup, ScanStep::Processes, ScanStep::Services]
    );
    assert_eq!(steps_for(ScanType::Network, &None), vec![ScanStep::Ports, ScanStep::Adapters]);
    assert_eq!(steps_for(ScanType::Startup, &None), vec![ScanStep::Startup]);
    assert_eq!(steps_for(ScanType::Integrity, &None), vec![ScanStep::Files]);
}

#[test]
fn custom_scans_keep_known_keys_once() {
    let keys = Some(vec![
        "files".to_string(),
        "bogus".to_string(),
        "ports".to_string(),
        "files".to_string(),
        "PORTS".to_string(),
    ]);
    assert_eq!(steps_for(ScanType::Custom, &keys), vec![ScanStep::Ports, ScanStep::Files]);
    assert_eq!(steps_for(ScanType::Custom, &None), Vec::<ScanStep>::new());
    // The fixed types ignore a custom list.
    assert_eq!(steps_for(ScanType::Startup, &keys), vec![ScanStep::Startup]);
}

#[test]
fn step_keys_and_labels() {
    assert_eq!(ScanStep::Adapters.key(), "adapters");
    assert_eq!(ScanStep::Adapters.label(), "Checking network adapters");
    assert_eq!(ScanStep::Files.label(), "Checking recent file events");
}

#[test]
fn progress_counts_from_one() {
    assert_eq!(total_steps(0), 1);
    assert_eq!(total_steps(3), 3);
    let p = step_progress("scan-1", ScanStep::Ports, 0, 3, 2);
    assert_eq!(p.scan_id, "scan-1");
    assert_eq!(p.step_label, "Checking listening ports");
    assert_eq!(p.step_index, 1);
    assert_eq!(p.total_steps, 3);
    assert_eq!(p.findings_so_far, 2);
}

#[test]
fn port_step_flags_ports_outside_the_low_set() {
    let port = |port: u16, risk: PortRisk, pid: Option<u32>, name: Option<&str>| ListeningPort {
        protocol: PortProtocol::Tcp,
        local_address: "0.0.0.0".to_string(),
        port,
        pid,
        process_name: name.map(|s| s.to_string()),
        executable_path: None,
        status: "LISTENING".to_string(),
        risk,
        firewall_allowed: None,
    };
    let fs = ports_step_findings(&vec![
        port(80, PortRisk::Low, Some(4), Some("System")),
        port(4444, PortRisk::Medium, Some(1234), Some("nc.exe")),
        port(5555, PortRisk::High, None, None),
    ]);
    assert_eq!(fs.len(), 2);
    assert_eq!(fs[0].label, "Tcp port 4444 is listening");
    assert_eq!(fs[0].detail, "Owned by nc.exe (PID Some(1234)) \u{2014} risk: Medium");
    assert_eq!(fs[0].severity, Severity::Medium);
    assert_eq!(fs[1].detail, "Owned by unknown (PID None) \u{2014} risk: High");
    assert_eq!(fs[1].severity, Severity::High);
}

#[test]
fn firewall_step_flags_disabled_rules() {
    let rule = |name: &str, enabled: bool| FirewallRule {
        name: name.to_string(),
        description: None,
        protocol: FirewallProtocol::Tcp,
        direction: PortDirection::Inbound,
        action: FirewallAction::Allow,
        local_ports: None,
        remote_ports: None,
        remote_addresses: None,
        application_path: None,
        enabled,
        last_seen: "2024-01-01T00:00:00Z".to_string(),
    };
    let fs = firewall_step_findings(&vec![rule("a", true), rule("b", false)]);
    assert_eq!(fs.len(), 1);
    assert_eq!(fs[0].label, "Firewall rule 'b' is disabled");
    assert_eq!(fs[0].detail, "A VoidGuard-managed rule is currently disabled.");
    assert_eq!(fs[0].severity, Severity::Low);
}

#[test]
fn startup_step_reports_unknown_and_suspicious_entries() {
    let entry = |name: &str, c: StartupClassification, evidence: Vec<&str>| StartupEntry {
        id: "x".to_string(),
        name: name.to_string(),
        command: "cmd".to_string(),
        location_type: StartupLocationType::RegistryRun,
        classification: c,
        evidence: evidence.into_iter().map(|s| s.to_string()).collect(),
        first_seen: "t".to_string(),
        last_seen: "t".to_string(),
    };
    let fs = startup_step_findings(&vec![
        entry("ok", StartupClassification::Known, vec![]),
        entry("odd", StartupClassification::Suspicious, vec!["a", "b"]),
        entry("new", StartupClassification::Unknown, vec!["c"]),
    ]);
    assert_eq!(fs.len(), 2);
    assert_eq!(fs[0].label, "Startup entry 'odd' is Suspicious");
    assert_eq!(fs[0].detail, "a; b");
    assert_eq!(fs[0].severity, Severity::High);
    assert_eq!(fs[1].label, "Startup entry 'new' is Unknown");
    assert_eq!(fs[1].severity, Severity::Medium);
}

#[test]
fn count_and_service_steps() {
    let p = processes_step_findings(212);
    assert_eq!(p.len(), 1);
    assert_eq!(p[0].label, "212 processes currently running");
    assert_eq!(p[0].severity, Severity::Info);
    assert_eq!(files_step_findings(0).len(), 0);
    let f = files_step_findings(5);
    assert_eq!(f[0].label, "5 file event(s) in watched locations recently");
    assert_eq!(f[0].detail, "See the Files page for the full list.");
    let svc = |name: &str, status: ServiceStatus, protected: bool| ServiceInfo {
        name: name.to_string(),
        display_name: format!("{name} service"),
        status,
        startup_type: StartupType::Automatic,
        executable: None,
        description: None,
        protected,
    };
    let s = services_step_findings(&vec![
        svc("WinDefend", ServiceStatus::Stopped, true),
        svc("Spooler", ServiceStatus::Stopped, false),
        svc("EventLog", ServiceStatus::Running, true),
    ]);
    assert_eq!(s.len(), 1);
    assert_eq!(s[0].label, "Protected service 'WinDefend service' is not running");
    assert_eq!(s[0].detail, "Status: Stopped");
    assert_eq!(s[0].severity, Severity::High);
}

#[test]
fn adapter_step_lists_every_adapter() {
    let adapter = |name: &str, status: &str| NetworkAdapter {
        adapter_id: "{id}".to_string(),
        name: name.to_string(),
        description: String::new(),
        adapter_type: "Ethernet".to_string(),
        status: status.to_string(),
        mac_address: None,
        ipv4_addresses: vec![],
        ipv6_addresses: vec![],
        gateway: None,
        dns_servers: vec![],
        dhcp_enabled: None,
        link_speed_mbps: None,
    };
    let fs = adapters_step_findings(&vec![adapter("Ethernet", "Up"), adapter("Wi-Fi", "Down")]);
    assert_eq!(fs[0].label, "2 network adapter(s) found");
    assert_eq!(fs[0].detail, "Ethernet (Up), Wi-Fi (Down)");
}

#[test]
fn summary_partitions_findings() {
    assert_eq!(scan_summary(&vec![]), "No findings \u{2014} nothing stood out in this scan.");
    let fs = vec![
        finding(Severity::Critical),
        finding(Severity::High),
        finding(Severity::Medium),
        finding(Severity::Low),
        finding(Severity::Info),
        finding(Severity::Info),
    ];
    assert_eq!(scan_summary(&fs), "6 finding(s): 2 high/critical, 1 medium, 3 low/info.");
}

#[test]
fn scan_event_texts_and_severity() {
    assert_eq!(scan_event_severity(&vec![finding(Severity::Medium)]), Severity::Info);
    assert_eq!(scan_event_severity(&vec![finding(Severity::Low), finding(Severity::Critical)]), Severity::High);
    assert_eq!(scan_event_severity(&vec![]), Severity::Info);
    assert_eq!(scan_audit_target(ScanType::Quick), "Quick scan");
    assert_eq!(scan_event_description(ScanType::Network, "fine"), "Network scan completed: fine");
}

#[test]
fn steps_add_their_findings_in_order() {
    let mut all = vec![finding(Severity::Low)];
    let p = voidguard::scan::record_step(&mut all, vec![finding(Severity::High), finding(Severity::Info)], "s", ScanStep::Files, 2, 4);
    assert_eq!(all.len(), 3);
    assert_eq!(all[1].severity, Severity::High);
    assert_eq!(all[2].severity, Severity::Info);
    assert_eq!(p.scan_id, "s");
    assert_eq!(p.step_label, "Checking recent file events");
    assert_eq!(p.step_index, 3);
    assert_eq!(p.total_steps, 4);
    assert_eq!(p.findings_so_far, 3);
}
