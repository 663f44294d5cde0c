use voidguard::clock::{days_ago_rfc3339, days_before_rfc3339, hours_ago_rfc3339, hours_before_rfc3339, now_rfc3339};
use voidguard::events::{acting_user, audit_result_of, new_audit_entry, new_system_event};
use voidguard::files::{
    change_type_of, db_err, default_watch_scopes, file_event_category, file_event_description,
    fingerprint, hex_lower, lock_err, new_file_event, should_fingerprint, watch_failure_description,
    watcher_init_error, FsEventKind,
};
use voidguard::firewall::{
    com_error, db_error, describe_rule, enabled_state_text, lock_error, plan_firewall_rule,
    rule_event_text, rule_toggled_text, validate_rule_name,
};
use voidguard::models::firewall::{CreateFirewallRuleRequest, FirewallAction, FirewallProtocol};
use voidguard::models::monitoring::FileChangeType;
use voidguard::models::ports::PortDirection;
use voidguard::models::scan::RetentionSettings;
use voidguard::models::{AppError, AuditResult, EventCategory, Severity};
use voidguard::retention::{delete_statement, reported_count, retention_cutoff, retention_targets};
use voidguard::risk::{rule_multiple_new_startup_entries, rule_suspicious_startup_with_recent_network, FlaggedStartup};
use voidguard::system::{disk_metrics, termination_outcome};

fn is_uuid_v4(s: &str) -> bool {
    let b = s.as_bytes();
    b.len() == 36
        && b.iter().enumerate().all(|(i, c)| {
            if [8, 13, 18, 23].contains(&i) {
                *c == b'-'
            } else {
                c.is_ascii_digit() || (b'a'..=b'f').contains(c)
            }
        })
        && b[14] == b'4'
        && [b'8', b'9', b'a', b'b'].contains(&b[19])
}

#[test]
fn sha256_fingerprints() {
    let (hex, size) = fingerprint(b"abc");
    assert_eq!(hex, "ba7816bf8f01cfea414140de5dae2223b00361a396177a9cb410ff61f20015ad");
    assert_eq!(size, 3);
    let (hex, size) = fingerprint(b"");
    assert_eq!(hex, "e3b0c44298fc1c149afbf4c8996fb92427ae41e4649b934ca495991b7852b855");
    assert_eq!(size, 0);
}

#[test]
fn hex_rendering() {
    assert_eq!(hex_lower(&[0x00, 0x0f, 0xa0, 0xff]), "000fa0ff");
    assert_eq!(hex_lower(&[]), "");
}

#[test]
fn file_change_mapping() {
    assert_eq!(change_type_of(FsEventKind::Create), Some(FileChangeType::Created));
    assert_eq!(change_type_of(FsEventKind::Modify), Some(FileChangeType::Modified));
    assert_eq!(change_type_of(FsEventKind::Remove), Some(FileChangeType::Deleted));
    assert_eq!(change_type_of(FsEventKind::Other), None);
    assert_eq!(file_event_category(FileChangeType::Created), EventCategory::FileCreated);
    assert_eq!(file_event_category(FileChangeType::Deleted), EventCategory::FileDeleted);
    assert!(should_fingerprint(FileChangeType::Modified));
    assert!(!should_fingerprint(FileChangeType::Deleted));
    assert_eq!(
        file_event_description(FileChangeType::Modified, "C:\\hosts"),
        "Modified in a watched location: C:\\hosts"
    );
    assert_eq!(watch_failure_description("C:\\x", "denied"), "Could not watch 'C:\\x': denied");
}

#[test]
fn watch_scopes_from_environment() {
    let s = default_watch_scopes(&Some("D:\\Win".to_string()), &Some("C:\\Users\\bob".to_string()), &None);
    assert_eq!(s.len(), 3);
    assert_eq!(s[0].path, "D:\\Win\\System32\\drivers\\etc");
    assert!(!s[0].recursive);
    assert_eq!(s[0].label, "hosts file & DNS overrides");
    assert_eq!(s[1].path, "C:\\Users\\bob\\AppData\\Roaming\\Microsoft\\Windows\\Start Menu\\Programs\\Startup");
    assert_eq!(s[2].path, "C:\\ProgramData\\Microsoft\\Windows\\Start Menu\\Programs\\StartUp");
    assert!(s.iter().all(|w| w.built_in));
    let d = default_watch_scopes(&None, &None, &None);
    assert_eq!(d[0].path, "C:\\Windows\\System32\\drivers\\etc");
    assert_eq!(d[1].path, "\\AppData\\Roaming\\Microsoft\\Windows\\Start Menu\\Programs\\Startup");
}

#[test]
fn file_events_get_fresh_ids() {
    let a = new_file_event("C:\\f", FileChangeType::Created, Some("00".to_string()), Some(2));
    let b = new_file_event("C:\\f", FileChangeType::Created, None, None);
    assert!(is_uuid_v4(&a.id));
    assert!(is_uuid_v4(&b.id));
    assert_ne!(a.id, b.id);
    assert_eq!(a.path, "C:\\f");
    assert_eq!(a.sha256.as_deref(), Some("00"));
    assert_eq!(a.size_bytes, Some(2));
}

#[test]
fn error_constructors() {
    let e = lock_err();
    assert_eq!(e.code, "LOCK_ERROR");
    assert_eq!(e.message, "Internal lock error.");
    let e = db_err("disk full");
    assert_eq!(e.code, "DB_ERROR");
    assert_eq!(e.details.as_deref(), Some("disk full"));
    let e = watcher_init_error("no inotify");
    assert_eq!(e.code, "WATCHER_INIT_FAILED");
    let e = lock_error("poisoned");
    assert_eq!(e.code, "DB_LOCK_FAILED");
    let e = db_error("no table");
    assert_eq!(e.code, "DB_QUERY_FAILED");
    let e = com_error("Could not add rule", "0x80070005");
    assert_eq!(e.code, "FIREWALL_COM_ERROR");
    assert_eq!(e.message, "Could not add rule");
    let e = AppError::not_supported("Firewall");
    assert!(!e.recoverable);
}

#[test]
fn system_events_and_audit_entries() {
    let e = new_system_event(EventCategory::PortOpened, Severity::Medium, "ports", "opened", Some("x".to_string()));
    assert!(is_uuid_v4(&e.id));
    assert_eq!(e.category, EventCategory::PortOpened);
    assert_eq!(e.source, "ports");
    assert_eq!(e.risk_score, 0);
    assert!(e.previous_state.is_none());
    let a = new_audit_entry("bob", "OPEN_PORT", "Tcp port 1", None, Some("open".to_string()), AuditResult::Success, "ui", "0.1.0");
    assert!(is_uuid_v4(&a.id));
    assert_eq!(a.action, "OPEN_PORT");
    assert_eq!(a.result, AuditResult::Success);
    assert_eq!(audit_result_of(&Ok(())), AuditResult::Success);
    assert_eq!(audit_result_of(&Err(AppError::not_supported("x"))), AuditResult::Failure);
    assert_eq!(acting_user(Some("a".to_string()), Some("b".to_string())), "a");
    assert_eq!(acting_user(None, Some("b".to_string())), "b");
    assert_eq!(acting_user(None, None), "unknown");
}

#[test]
fn firewall_rule_names_and_plans() {
    assert!(validate_rule_name("Allow web").is_ok());
    assert!(validate_rule_name(&"x".repeat(200)).is_ok());
    let e = validate_rule_name(&"x".repeat(201)).unwrap_err();
    assert_eq!(e.code, "FIREWALL_VALIDATION_FAILED");
    assert_eq!(e.message, "Rule name must be between 1 and 200 characters.");
    assert!(validate_rule_name("   ").is_err());
    assert!(validate_rule_name("").is_err());
    // 100 two-byte characters are 200 bytes; 101 are too many.
    assert!(validate_rule_name(&"\u{e9}".repeat(100)).is_ok());
    assert!(validate_rule_name(&"\u{e9}".repeat(101)).is_err());
    let req = CreateFirewallRuleRequest {
        name: "Web".to_string(),
        description: None,
        protocol: FirewallProtocol::Tcp,
        direction: PortDirection::Inbound,
        action: FirewallAction::Allow,
        local_ports: Some("80,443".to_string()),
        remote_ports: Some(String::new()),
        remote_addresses: None,
        application_path: None,
        enabled: true,
    };
    assert_eq!(describe_rule(&req), "Allow Inbound Tcp local=80,443 remote=any app=any");
    let p = plan_firewall_rule(&req);
    assert_eq!(p.name, "Web");
    assert_eq!(p.protocol_number, 6);
    assert_eq!(p.local_ports.as_deref(), Some("80,443"));
    assert!(p.remote_ports.is_none());
    assert!(p.enabled);
    assert_eq!(enabled_state_text(true), "ENABLED");
    assert_eq!(enabled_state_text(false), "DISABLED");
    assert_eq!(rule_event_text("Web", "created"), "Firewall rule 'Web' created");
    assert_eq!(rule_toggled_text("Web", false), "Firewall rule 'Web' disabled");
}

#[test]
fn retention_plan() {
    let t = retention_targets(&RetentionSettings::default());
    assert_eq!(t.len(), 3);
    assert_eq!((t[0].table, t[0].days), ("events", 30));
    assert_eq!((t[1].table, t[1].days), ("process_snapshots", 7));
    assert_eq!((t[2].table, t[2].timestamp_column, t[2].days), ("port_snapshots", "timestamp", 7));
    assert!(retention_cutoff(0).is_none());
    let c = retention_cutoff(30).unwrap();
    assert!(c.contains('T'));
    assert_eq!(delete_statement("events", "timestamp"), "DELETE FROM events WHERE timestamp < ?1");
    assert_eq!(reported_count(12), 12);
}

#[test]
fn risk_rules() {
    assert!(rule_multiple_new_startup_entries(2).is_empty());
    let r = rule_multiple_new_startup_entries(4);
    assert_eq!(r.len(), 1);
    assert_eq!(r[0].title, "Multiple new startup entries in a short window");
    assert_eq!(r[0].description, "4 new startup entries were first observed within the last hour.");
    assert_eq!(r[0].evidence, vec!["4 new entries in under an hour".to_string()]);
    assert_eq!(r[0].severity, Severity::Medium);
    assert!(is_uuid_v4(&r[0].id));
    let flagged = vec![
        FlaggedStartup { name: "x".to_string(), command: "x.exe".to_string(), classification: "SUSPICIOUS".to_string() },
        FlaggedStartup { name: "y".to_string(), command: "y.exe".to_string(), classification: "UNKNOWN".to_string() },
    ];
    assert!(rule_suspicious_startup_with_recent_network(&flagged, 0).is_empty());
    let r = rule_suspicious_startup_with_recent_network(&flagged, 2);
    assert_eq!(r.len(), 2);
    assert_eq!(r[0].title, "Startup entry 'x' combined with new network activity");
    assert_eq!(r[0].severity, Severity::High);
    assert_eq!(r[1].severity, Severity::Medium);
    assert_eq!(
        r[1].evidence,
        vec![
            "Startup entry classification: UNKNOWN".to_string(),
            "2 new listening port(s) observed in the last 24 hours".to_string(),
        ]
    );
}

#[test]
fn disks_and_termination() {
    let d = disk_metrics("C:\\", 100, 30);
    assert_eq!(d.used_bytes, 70);
    assert_eq!(d.total_bytes, 100);
    assert_eq!(disk_metrics("D:\\", 10, 30).used_bytes, 0);
    let e = termination_outcome(42, false, false).unwrap_err();
    assert_eq!(e.code, "PROCESS_NOT_FOUND");
    assert_eq!(e.message, "No running process with PID 42.");
    let e = termination_outcome(42, true, false).unwrap_err();
    assert_eq!(e.code, "TERMINATE_FAILED");
    assert!(termination_outcome(42, true, true).is_ok());
}

fn is_utc_rfc3339(s: &str) -> bool {
    let c: Vec<char> = s.chars().collect();
    let Some(t) = c.iter().position(|&x| x == 'T') else { return false };
    let y = t - 6;
    let digits = |lo: usize, hi: usize| c[lo..hi].iter().all(|x| x.is_ascii_digit());
    let year_ok = (y == 4 && digits(0, 4)) || (y >= 5 && (c[0] == '+' || c[0] == '-') && digits(1, y));
    let f = c.len() as isize - (y + 21) as isize;
    year_ok
        && c[y] == '-' && digits(y + 1, y + 3) && c[y + 3] == '-' && digits(y + 4, y + 6)
        && digits(y + 7, y + 9) && c[y + 9] == ':' && digits(y + 10, y + 12) && c[y + 12] == ':' && digits(y + 13, y + 15)
        && (f == 0 || ((f == 4 || f == 7 || f == 10) && c[y + 15] == '.' && digits(y + 16, y + 15 + f as usize)))
        && s.ends_with("+00:00")
}

#[test]
fn rule_windows_are_utc_rfc3339_in_the_past() {
    let day = voidguard::risk::recent_network_window_start();
    let hour = voidguard::risk::new_entries_window_start();
    assert!(is_utc_rfc3339(&day), "{day}");
    assert!(is_utc_rfc3339(&hour), "{hour}");
    // Same layout, so text order is time order: a day ago is before an hour ago.
    assert!(day < hour);
}

#[test]
fn clock_texts_from_given_instants() {
    assert_eq!(hours_before_rfc3339(86_400, 0, 24), "1970-01-01T00:00:00+00:00");
    assert_eq!(days_before_rfc3339(0, 0, 1), "1969-12-31T00:00:00+00:00");
    assert_eq!(days_before_rfc3339(1_700_000_000, 500_000_000, 1), "2023-11-13T22:13:20.500+00:00");
    assert_eq!(hours_before_rfc3339(1_700_000_000, 123_000, 0), "2023-11-14T22:13:20.000123+00:00");
    assert_eq!(hours_before_rfc3339(1_700_000_000, 123_456, 1), "2023-11-14T21:13:20.000123456+00:00");
    // Far back, the year gets a sign.
    assert_eq!(days_before_rfc3339(0, 0, 96_465_292), "-262143-01-01T00:00:00+00:00");
    assert!(is_utc_rfc3339("-262143-01-01T00:00:00+00:00"));
}

#[test]
fn clock_readings_and_stamps_are_utc_rfc3339() {
    let now = now_rfc3339();
    let hour = hours_ago_rfc3339(1);
    let month = days_ago_rfc3339(30);
    for t in [&now, &hour, &month] {
        assert!(is_utc_rfc3339(t), "{t}");
    }
    assert!(month < hour && hour < now);
    let e = new_system_event(EventCategory::SystemStarted, Severity::Info, "app", "started", None);
    assert!(is_utc_rfc3339(&e.timestamp));
    let a = new_audit_entry("u", "A", "t", None, None, AuditResult::Success, "s", "1");
    assert!(is_utc_rfc3339(&a.timestamp));
    let f = new_file_event("p", FileChangeType::Deleted, None, None);
    assert!(is_utc_rfc3339(&f.timestamp));
    let r = rule_multiple_new_startup_entries(3);
    assert!(is_utc_rfc3339(&r[0].timestamp));
    let c = retention_cutoff(7).unwrap();
    assert!(is_utc_rfc3339(&c) && c < now);
}

#[test]
fn system_error_constructors() {
    let e = voidguard::dns::dns_change_error(87);
    assert_eq!(e.code, "DNS_CHANGE_FAILED");
    assert_eq!(e.message, "Windows rejected the DNS configuration change.");
    assert_eq!(e.details.as_deref(), Some("Win32 error code 87"));
    assert!(e.recoverable);
    let e = voidguard::network::adapter_enum_error(8);
    assert_eq!(e.code, "ADAPTER_ENUM_FAILED");
    assert_eq!(e.details.as_deref(), Some("Win32 error code 8"));
    let e = voidguard::services::service_enum_error();
    assert_eq!(e.code, "SERVICE_ENUM_FAILED");
    assert!(e.details.is_none());
    let e = voidguard::system::process_lock_error("poisoned");
    assert_eq!((e.code.as_str(), e.message.as_str()), ("LOCK_ERROR", "poisoned"));
    let e = voidguard::startup::startup_lock_error();
    assert_eq!((e.code.as_str(), e.message.as_str()), ("LOCK_ERROR", "Internal lock error."));
    let e = voidguard::startup::startup_db_error("no such table");
    assert_eq!(e.code, "DB_ERROR");
    assert_eq!(e.details.as_deref(), Some("no such table"));
    let e = voidguard::startup::entry_not_found();
    assert_eq!((e.code.as_str(), e.recoverable), ("NOT_FOUND", false));
    let e = voidguard::startup::registry_removal_error();
    assert_eq!(e.message, "Could not remove the registry startup entry.");
    let e = voidguard::startup::shortcut_removal_error("denied");
    assert_eq!(e.details.as_deref(), Some("denied"));
    let e = voidguard::startup::task_not_found_error();
    assert_eq!(e.message, "Could not find that scheduled task \u{2014} it may already be gone.");
    assert!(!e.recoverable);
}

#[test]
fn process_targets_and_long_hour_windows() {
    assert_eq!(voidguard::system::process_target(4321), "pid 4321");
    assert_eq!(hours_before_rfc3339(0, 0, 2_315_167_008), "-262143-01-01T00:00:00+00:00");
}
