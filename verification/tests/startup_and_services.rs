use voidguard::models::monitoring::{StartupClassification, StartupEntry, StartupLocationType};
use voidguard::models::system_control::{ServiceAction, ServiceStatus, StartupType};
use voidguard::models::Severity;
use voidguard::services::{
    is_protected, map_start_type, map_status, restart_outcome, scm_error, service_action_event,
    service_action_name, service_info, start_code_for, startup_type_event, RestartOutcome,
};
use voidguard::startup::{
    classify, extract_command, extract_tag, new_entry_description, plan_startup_sync,
    registry_text_len, removal_target, severity_for_new_entry, task_parent_folder, EntryKey,
    RemovalTarget,
};

fn entry(name: &str, command: &str) -> StartupEntry {
    StartupEntry {
        id: "id".to_string(),
        name: name.to_string(),
        command: command.to_string(),
        location_type: StartupLocationType::RegistryRun,
        classification: StartupClassification::Unknown,
        evidence: vec![],
        first_seen: "t".to_string(),
        last_seen: "t".to_string(),
    }
}

fn key(name: &str, command: &str) -> EntryKey {
    EntryKey { name: name.to_string(), command: command.to_string() }
}

#[test]
fn ordinary_commands_are_unknown_with_a_note() {
    let (c, evidence) = classify("\"C:\\Program Files\\App\\app.exe\" --minimized");
    assert_eq!(c, StartupClassification::Unknown);
    assert_eq!(evidence, vec!["Signature/publisher not yet checked (Phase 3 follow-up)".to_string()]);
}

#[test]
fn temp_locations_and_scripts_are_suspicious() {
    let (c, evidence) = classify("C:\\Users\\bob\\AppData\\Local\\Temp\\x.VBS");
    assert_eq!(c, StartupClassification::Suspicious);
    assert_eq!(
        evidence,
        vec![
            "Runs from a commonly-abused location (\\temp\\)".to_string(),
            "Runs from a commonly-abused location (\\appdata\\local\\temp\\)".to_string(),
            "Uses a script interpreter rather than a compiled executable".to_string(),
        ]
    );
    let (c, evidence) = classify("C:\\Users\\bob\\Downloads\\setup.exe");
    assert_eq!(c, StartupClassification::Suspicious);
    assert_eq!(evidence, vec!["Runs from a commonly-abused location (\\downloads\\)".to_string()]);
}

#[test]
fn encoded_powershell_is_suspicious() {
    let (c, evidence) = classify("PowerShell.exe -NoP -Enc SQBFAFgA");
    assert_eq!(c, StartupClassification::Suspicious);
    assert_eq!(evidence, vec!["Invokes PowerShell with an encoded/obfuscated command".to_string()]);
    let (c, _) = classify("powershell.exe -File C:\\scripts\\ok.exe");
    assert_eq!(c, StartupClassification::Unknown);
}

#[test]
fn new_entry_event_texts() {
    assert_eq!(severity_for_new_entry(StartupClassification::Suspicious), Severity::High);
    assert_eq!(severity_for_new_entry(StartupClassification::Unknown), Severity::Medium);
    assert_eq!(severity_for_new_entry(StartupClassification::Known), Severity::Info);
    assert_eq!(
        new_entry_description(&entry("Updater", "C:\\u.exe")),
        "New startup entry detected: Updater (C:\\u.exe)"
    );
}

#[test]
fn task_xml_fields() {
    let xml = "<Task><Actions><Exec>\n  <Command> C:\\tools\\run.exe </Command>\n  <Arguments>-q</Arguments>\n</Exec></Actions></Task>";
    assert_eq!(extract_tag(xml, "Command").as_deref(), Some("C:\\tools\\run.exe"));
    assert_eq!(extract_command(xml).as_deref(), Some("C:\\tools\\run.exe -q"));
    let no_args = "<Exec><Command>a.exe</Command><Arguments>  </Arguments></Exec>";
    assert_eq!(extract_command(no_args).as_deref(), Some("a.exe"));
    assert_eq!(extract_command("<Exec><Arguments>-q</Arguments></Exec>"), None);
    assert_eq!(extract_tag("<Command>unterminated", "Command"), None);
}

#[test]
fn task_folders() {
    assert_eq!(task_parent_folder("\\Microsoft\\Windows\\Defrag\\ScheduledDefrag"), "\\Microsoft\\Windows\\Defrag");
    assert_eq!(task_parent_folder("\\MyTask"), "\\");
    assert_eq!(task_parent_folder("MyTask"), "\\");
}

#[test]
fn registry_string_lengths() {
    assert_eq!(registry_text_len(0), 0);
    assert_eq!(registry_text_len(1), 0);
    assert_eq!(registry_text_len(2), 0);
    assert_eq!(registry_text_len(22), 10);
    assert_eq!(registry_text_len(23), 10);
}

#[test]
fn sync_flags_each_new_identity_once() {
    let entries = vec![
        entry("A", "a.exe"),
        entry("B", "b.exe"),
        entry("A", "a.exe"),
        entry("A", "other.exe"),
    ];
    let known = vec![key("B", "b.exe")];
    assert_eq!(plan_startup_sync(&entries, &known), vec![true, false, false, true]);
    let stored = vec![key("B", "b.exe"), key("A", "a.exe"), key("A", "other.exe")];
    assert_eq!(plan_startup_sync(&entries, &stored), vec![false, false, false, false]);
    assert_eq!(plan_startup_sync(&vec![], &known), Vec::<bool>::new());
}

#[test]
fn removal_targets_by_location() {
    match removal_target("App", "C:\\a.exe", StartupLocationType::RegistryRun) {
        RemovalTarget::RegistryValue { subkey, value_name } => {
            assert_eq!(subkey, "Software\\Microsoft\\Windows\\CurrentVersion\\Run");
            assert_eq!(value_name, "App");
        }
        other => panic!("unexpected {other:?}"),
    }
    match removal_target("App", "C:\\a.exe", StartupLocationType::RegistryRunOnce) {
        RemovalTarget::RegistryValue { subkey, .. } => {
            assert_eq!(subkey, "Software\\Microsoft\\Windows\\CurrentVersion\\RunOnce")
        }
        other => panic!("unexpected {other:?}"),
    }
    match removal_target("App.lnk", "C:\\Startup\\App.lnk", StartupLocationType::StartupFolder) {
        RemovalTarget::File { path } => assert_eq!(path, "C:\\Startup\\App.lnk"),
        other => panic!("unexpected {other:?}"),
    }
    match removal_target("T", "run.exe", StartupLocationType::ScheduledTask) {
        RemovalTarget::ScheduledTask { name, command } => {
            assert_eq!(name, "T");
            assert_eq!(command, "run.exe");
        }
        other => panic!("unexpected {other:?}"),
    }
}

#[test]
fn protected_services_ignore_case() {
    assert!(is_protected("WinDefend"));
    assert!(is_protected("windefend"));
    assert!(is_protected("EVENTLOG"));
    assert!(is_protected("Dnscache"));
    assert!(!is_protected("Spooler"));
    assert!(!is_protected("WinDefend "));
    assert!(!is_protected(""));
}

#[test]
fn status_and_start_codes() {
    assert_eq!(map_status(1), ServiceStatus::Stopped);
    assert_eq!(map_status(2), ServiceStatus::StartPending);
    assert_eq!(map_status(3), ServiceStatus::StopPending);
    assert_eq!(map_status(4), ServiceStatus::Running);
    assert_eq!(map_status(7), ServiceStatus::Unknown);
    assert_eq!(map_start_type(2), StartupType::Automatic);
    assert_eq!(map_start_type(3), StartupType::Manual);
    assert_eq!(map_start_type(4), StartupType::Disabled);
    assert_eq!(map_start_type(0), StartupType::Unknown);
    assert_eq!(start_code_for(StartupType::Automatic).unwrap(), 2);
    assert_eq!(start_code_for(StartupType::AutomaticDelayed).unwrap(), 2);
    assert_eq!(start_code_for(StartupType::Manual).unwrap(), 3);
    assert_eq!(start_code_for(StartupType::Disabled).unwrap(), 4);
    let e = start_code_for(StartupType::Unknown).unwrap_err();
    assert_eq!(e.code, "INVALID_STARTUP_TYPE");
    assert_eq!(e.message, "Cannot set startup type to 'Unknown'.");
}

#[test]
fn configured_startup_types_read_back() {
    for t in [StartupType::Automatic, StartupType::Manual, StartupType::Disabled] {
        assert_eq!(map_start_type(start_code_for(t).unwrap()), t);
    }
    assert_eq!(map_start_type(start_code_for(StartupType::AutomaticDelayed).unwrap()), StartupType::Automatic);
}

#[test]
fn service_rows() {
    let s = service_info("windefend", "Microsoft Defender", 4, &Some((2, Some("C:\\d.exe".to_string()))));
    assert_eq!(s.name, "windefend");
    assert_eq!(s.display_name, "Microsoft Defender");
    assert_eq!(s.status, ServiceStatus::Running);
    assert_eq!(s.startup_type, StartupType::Automatic);
    assert_eq!(s.executable.as_deref(), Some("C:\\d.exe"));
    assert!(s.protected);
    let t = service_info("Spooler", "Print Spooler", 1, &None);
    assert_eq!(t.startup_type, StartupType::Unknown);
    assert!(t.executable.is_none());
    assert!(!t.protected);
}

#[test]
fn service_texts_and_outcomes() {
    assert_eq!(service_action_name(ServiceAction::Start), "START_SERVICE");
    assert_eq!(service_action_name(ServiceAction::Restart), "RESTART_SERVICE");
    assert_eq!(service_action_event("Spooler", ServiceAction::Stop), "Service 'Spooler' was Stoped by the user");
    assert_eq!(service_action_event("Spooler", ServiceAction::Start), "Service 'Spooler' was Started by the user");
    assert_eq!(startup_type_event("Spooler", StartupType::Manual), "Startup type for 'Spooler' changed to Manual");
    assert_eq!(restart_outcome(true, true), RestartOutcome::Restarted);
    assert_eq!(restart_outcome(false, true), RestartOutcome::Restarted);
    assert_eq!(restart_outcome(false, false), RestartOutcome::StopRefused);
    assert_eq!(restart_outcome(true, false), RestartOutcome::StartRefused);
    let e = scm_error("Could not open service", "Access is denied.");
    assert_eq!(e.code, "SCM_ERROR");
    assert_eq!(e.details.as_deref(), Some("Access is denied."));
    assert!(e.recoverable);
}

#[test]
fn classification_ignores_ascii_case() {
    let a = classify("C:\\TEMP\\Payload.EXE");
    let b = classify("c:\\temp\\payload.exe");
    assert_eq!(a, b);
    assert_eq!(a.0, StartupClassification::Suspicious);
}

#[test]
fn task_scheduler_errors_carry_the_system_message() {
    let e = voidguard::startup::task_error("Could not access Task Scheduler.", "Access is denied.");
    assert_eq!(e.code, "TASK_SCHEDULER_COM_ERROR");
    assert_eq!(e.message, "Could not access Task Scheduler.");
    assert_eq!(e.details.as_deref(), Some("Access is denied."));
    assert!(e.recoverable);
}

#[test]
fn restart_results_tell_the_refused_step() {
    assert!(voidguard::services::restart_result(RestartOutcome::Restarted, "").is_ok());
    let e = voidguard::services::restart_result(RestartOutcome::StopRefused, "Access is denied.").unwrap_err();
    assert_eq!(e.code, "SCM_ERROR");
    assert_eq!(e.message, "Windows refused to restart the service.");
    assert_eq!(e.details.as_deref(), Some("Access is denied."));
    let e = voidguard::services::restart_result(RestartOutcome::StartRefused, "The service did not start.").unwrap_err();
    assert_eq!(e.message, "Windows stopped the service but refused to start it again.");
    assert_eq!(e.details.as_deref(), Some("The service did not start."));
}
