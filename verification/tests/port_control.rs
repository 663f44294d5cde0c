use voidguard::models::ports::{PortDirection, PortProtocol, PortRisk, PortRuleRequest};
use voidguard::ports::{
    classify_risk, enumerate_ports, format_ipv4, idle_process_image, is_listening_tcp,
    plan_port_rule, port_action_event, port_action_target, port_from_raw, port_owner_event,
    port_owner_target, port_rule_name, process_image_from_path, table_error, PortRulePlan,
    ProcessImage, TcpRow, UdpRow,
};

fn req(port: u16, protocol: PortProtocol, direction: PortDirection) -> PortRuleRequest {
    PortRuleRequest { port, protocol, direction }
}

#[test]
fn risk_labels_follow_the_documented_rule() {
    for p in [80u16, 443, 53, 445, 135, 3389, 0, 22, 1023] {
        assert_eq!(classify_risk(p), PortRisk::Low, "port {p}");
    }
    for p in [1024u16, 4444, 8080, 65535] {
        assert_eq!(classify_risk(p), PortRisk::Medium, "port {p}");
    }
}

#[test]
fn ipv4_rendering_is_least_significant_byte_first() {
    assert_eq!(format_ipv4(0), "0.0.0.0");
    assert_eq!(format_ipv4(0x0100_007F), "127.0.0.1");
    assert_eq!(format_ipv4(0xFFFF_FFFF), "255.255.255.255");
    assert_eq!(format_ipv4(0x0A01_A8C0), "192.168.1.10");
}

#[test]
fn rendered_addresses_pass_the_strict_check() {
    for a in [0u32, 1, 0x0100_007F, 0x0A01_A8C0, 0x8000_0000, 0xFFFF_FFFF, 0x0A0A_0A0A] {
        assert!(voidguard::dns::is_valid_ipv4(&format_ipv4(a)), "{a:#x}");
    }
}

#[test]
fn ports_are_stored_in_network_byte_order() {
    assert_eq!(port_from_raw(0x5000), 80);
    assert_eq!(port_from_raw(0xBB01), 443);
    assert_eq!(port_from_raw(0x5C11), 4444);
    assert_eq!(port_from_raw(0xFFFF_5000), 80);
}

#[test]
fn process_images() {
    let img = process_image_from_path("C:\\Windows\\System32\\svchost.exe");
    assert_eq!(img.name.as_deref(), Some("svchost.exe"));
    assert_eq!(img.path.as_deref(), Some("C:\\Windows\\System32\\svchost.exe"));
    let img = process_image_from_path("/usr/bin/thing");
    assert_eq!(img.name.as_deref(), Some("thing"));
    let img = process_image_from_path("plain.exe");
    assert_eq!(img.name.as_deref(), Some("plain.exe"));
    let idle = idle_process_image();
    assert_eq!(idle.name.as_deref(), Some("System Idle"));
    assert!(idle.path.is_none());
}

#[test]
fn enumeration_keeps_listening_tcp_then_all_udp() {
    let tcp = vec![
        TcpRow { state: 2, local_addr: 0, local_port: 0x5000, owning_pid: 4 },
        TcpRow { state: 5, local_addr: 0x0100_007F, local_port: 0x5C11, owning_pid: 99 },
        TcpRow { state: 2, local_addr: 0x0100_007F, local_port: 0x901F, owning_pid: 1234 },
    ];
    assert!(is_listening_tcp(&tcp[0]));
    assert!(!is_listening_tcp(&tcp[1]));
    let tcp_images = vec![
        ProcessImage { name: Some("System".to_string()), path: None },
        ProcessImage { name: None, path: None },
        process_image_from_path("C:\\apps\\server.exe"),
    ];
    let udp = vec![UdpRow { local_addr: 0, local_port: 0x3500, owning_pid: 0 }];
    let udp_images = vec![idle_process_image()];
    let ports = enumerate_ports(&tcp, &tcp_images, &udp, &udp_images);
    assert_eq!(ports.len(), 3);
    assert_eq!(ports[0].protocol, PortProtocol::Tcp);
    assert_eq!(ports[0].port, 80);
    assert_eq!(ports[0].local_address, "0.0.0.0");
    assert_eq!(ports[0].status, "LISTENING");
    assert_eq!(ports[0].pid, Some(4));
    assert_eq!(ports[0].risk, PortRisk::Low);
    assert_eq!(ports[1].port, 8080);
    assert_eq!(ports[1].local_address, "127.0.0.1");
    assert_eq!(ports[1].process_name.as_deref(), Some("server.exe"));
    assert_eq!(ports[1].risk, PortRisk::Medium);
    assert!(ports[1].firewall_allowed.is_none());
    assert_eq!(ports[2].protocol, PortProtocol::Udp);
    assert_eq!(ports[2].port, 53);
    assert_eq!(ports[2].status, "BOUND");
    assert_eq!(ports[2].process_name.as_deref(), Some("System Idle"));
}

#[test]
fn table_errors_name_the_protocol() {
    let e = table_error("TCP", 122);
    assert_eq!(e.code, "TCP_TABLE_READ_FAILED");
    assert_eq!(e.message, "Failed to read the TCP connection table from Windows.");
    assert_eq!(e.details.as_deref(), Some("Win32 error code 122"));
    assert!(e.recoverable);
}

#[test]
fn rule_names_and_plans() {
    let r = req(4444, PortProtocol::Tcp, PortDirection::Inbound);
    assert_eq!(port_rule_name(&r), "VoidGuard - Tcp 4444 (Inbound)");
    match plan_port_rule(&r, true) {
        PortRulePlan::Add(rule) => {
            assert_eq!(rule.name, "VoidGuard - Tcp 4444 (Inbound)");
            assert_eq!(rule.description, "Created by VoidGuard's port control panel.");
            assert_eq!(rule.protocol_number, 6);
            assert_eq!(rule.local_ports, "4444");
            assert_eq!(rule.direction, PortDirection::Inbound);
        }
        other => panic!("expected an added rule, got {other:?}"),
    }
    match plan_port_rule(&r, false) {
        PortRulePlan::Remove { rule_name } => assert_eq!(rule_name, "VoidGuard - Tcp 4444 (Inbound)"),
        other => panic!("expected a removal, got {other:?}"),
    }
    let u = req(53, PortProtocol::Udp, PortDirection::Outbound);
    assert_eq!(port_rule_name(&u), "VoidGuard - Udp 53 (Outbound)");
    match plan_port_rule(&u, true) {
        PortRulePlan::Add(rule) => assert_eq!(rule.protocol_number, 17),
        other => panic!("expected an added rule, got {other:?}"),
    }
}

#[test]
fn distinct_requests_name_distinct_rules() {
    let all = [
        req(44, PortProtocol::Tcp, PortDirection::Inbound),
        req(4, PortProtocol::Tcp, PortDirection::Inbound),
        req(444, PortProtocol::Tcp, PortDirection::Inbound),
        req(44, PortProtocol::Udp, PortDirection::Inbound),
        req(44, PortProtocol::Tcp, PortDirection::Outbound),
    ];
    for (i, a) in all.iter().enumerate() {
        for (j, b) in all.iter().enumerate() {
            assert_eq!(i == j, port_rule_name(a) == port_rule_name(b));
        }
    }
}

#[test]
fn port_audit_texts() {
    let r = req(8080, PortProtocol::Tcp, PortDirection::Inbound);
    let target = port_action_target(&r);
    assert_eq!(target, "Tcp port 8080 (Inbound)");
    assert_eq!(port_action_event("Port opened", &target), "Port opened for Tcp port 8080 (Inbound)");
    assert_eq!(port_owner_target(4444, 1234), "port 4444 (pid 1234)");
    assert_eq!(port_owner_event(4444), "Process owning port 4444 was terminated by the user");
}
