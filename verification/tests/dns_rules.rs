use voidguard::dns::{
    check_dns_request, dns_change_summary, dns_change_target, dns_event_description,
    dns_name_server_list, is_valid_ipv4, parse_guid, validation_error,
};
use voidguard::models::{DnsMode, DnsSettingsRequest};

fn request(mode: DnsMode, primary: Option<&str>, secondary: Option<&str>) -> DnsSettingsRequest {
    DnsSettingsRequest {
        adapter_id: "{4D36E972-E325-11CE-BFC1-08002BE10318}".to_string(),
        mode,
        primary_dns: primary.map(|s| s.to_string()),
        secondary_dns: secondary.map(|s| s.to_string()),
    }
}

#[test]
fn ipv4_accepts_plain_literals() {
    assert!(is_valid_ipv4("1.1.1.1"));
    assert!(is_valid_ipv4("8.8.4.4"));
    assert!(is_valid_ipv4("0.0.0.0"));
    assert!(is_valid_ipv4("255.255.255.255"));
    assert!(is_valid_ipv4("192.168.10.200"));
}

#[test]
fn ipv4_rejects_leading_zeros_and_bad_shapes() {
    assert!(!is_valid_ipv4("01.2.3.4"));
    assert!(!is_valid_ipv4("1.2.3.04"));
    assert!(!is_valid_ipv4("256.1.1.1"));
    assert!(!is_valid_ipv4("1.2.3"));
    assert!(!is_valid_ipv4("1.2.3.4.5"));
    assert!(!is_valid_ipv4("1..3.4"));
    assert!(!is_valid_ipv4(""));
    assert!(!is_valid_ipv4(" 1.2.3.4"));
    assert!(!is_valid_ipv4("a.b.c.d"));
    assert!(!is_valid_ipv4("1.2.3.-4"));
}

#[test]
fn ipv4_octets_are_one_to_three_digits_without_sign() {
    assert!(!is_valid_ipv4("+1.2.3.4"));
    assert!(!is_valid_ipv4("1.+2.3.4"));
    assert!(!is_valid_ipv4("++1.2.3.4"));
    assert!(!is_valid_ipv4("+.2.3.4"));
    assert!(!is_valid_ipv4("0000.1.1.1"));
    assert!(!is_valid_ipv4("1.2.3.1000"));
    assert!(!is_valid_ipv4("1.2.3.\u{0664}"));
    assert!(is_valid_ipv4("10.0.0.255"));
}

#[test]
fn dhcp_request_needs_no_servers() {
    assert!(check_dns_request(&request(DnsMode::Dhcp, None, None)).is_ok());
    assert!(check_dns_request(&request(DnsMode::Dhcp, Some("garbage"), None)).is_ok());
}

#[test]
fn static_request_needs_primary() {
    let e = check_dns_request(&request(DnsMode::Static, None, None)).unwrap_err();
    assert_eq!(e.code, "DNS_VALIDATION_FAILED");
    assert_eq!(e.message, "A primary DNS server is required for a static configuration.");
    assert!(e.details.is_none());
    assert!(!e.recoverable);
    let e = check_dns_request(&request(DnsMode::Static, Some(""), Some("1.1.1.1"))).unwrap_err();
    assert_eq!(e.message, "A primary DNS server is required for a static configuration.");
}

#[test]
fn static_request_rejects_invalid_servers() {
    let e = check_dns_request(&request(DnsMode::Static, Some("1.1.1"), None)).unwrap_err();
    assert_eq!(e.message, "'1.1.1' is not a valid IPv4 address.");
    let e = check_dns_request(&request(DnsMode::Static, Some("1.1.1.1"), Some("8.8.08.8")))
        .unwrap_err();
    assert_eq!(e.message, "'8.8.08.8' is not a valid IPv4 address.");
}

#[test]
fn static_request_with_valid_servers_passes() {
    assert!(check_dns_request(&request(DnsMode::Static, Some("1.1.1.1"), None)).is_ok());
    assert!(check_dns_request(&request(DnsMode::Static, Some("1.1.1.1"), Some(""))).is_ok());
    assert!(check_dns_request(&request(DnsMode::Static, Some("1.1.1.1"), Some("8.8.8.8"))).is_ok());
}

#[test]
fn name_server_list_and_summary() {
    let both = request(DnsMode::Static, Some("1.1.1.1"), Some("8.8.8.8"));
    assert_eq!(dns_name_server_list(&both), "1.1.1.1,8.8.8.8");
    assert_eq!(dns_change_summary(&both), "1.1.1.1, 8.8.8.8");
    let one = request(DnsMode::Static, Some("9.9.9.9"), Some(""));
    assert_eq!(dns_name_server_list(&one), "9.9.9.9");
    assert_eq!(dns_change_summary(&one), "9.9.9.9");
    let dhcp = request(DnsMode::Dhcp, Some("1.1.1.1"), None);
    assert_eq!(dns_name_server_list(&dhcp), "");
    assert_eq!(dns_change_summary(&dhcp), "DHCP (automatic)");
}

#[test]
fn dns_audit_texts() {
    let r = request(DnsMode::Dhcp, None, None);
    let target = dns_change_target(&r);
    assert_eq!(target, "adapter {4D36E972-E325-11CE-BFC1-08002BE10318}");
    assert_eq!(
        dns_event_description(&target, "DHCP (automatic)"),
        "DNS for adapter {4D36E972-E325-11CE-BFC1-08002BE10318} changed to DHCP (automatic)"
    );
    let e = validation_error("bad");
    assert_eq!(e.code, "DNS_VALIDATION_FAILED");
    assert_eq!(e.message, "bad");
}

#[test]
fn guid_parses_with_and_without_braces() {
    let g = parse_guid("{4D36E972-E325-11CE-BFC1-08002BE10318}").unwrap();
    assert_eq!(g.data1, 0x4D36E972);
    assert_eq!(g.data2, 0xE325);
    assert_eq!(g.data3, 0x11CE);
    assert_eq!(g.data4, [0xBF, 0xC1, 0x08, 0x00, 0x2B, 0xE1, 0x03, 0x18]);
    let h = parse_guid("  4d36e972-e325-11ce-bfc1-08002be10318 ").unwrap();
    assert_eq!(g, h);
}

#[test]
fn guid_rejects_malformed_text() {
    for bad in ["", "not-a-guid", "4D36E972-E325-11CE-BFC1", "4D36E972E-E325-11CE-BFC1-08002BE10318",
        "4D36E972-E325-11CE-BFC1-08002BE1031Z", "{4D36E972-E325-11CE-BFC1-08002BE10318-00}"] {
        let e = parse_guid(bad).unwrap_err();
        assert_eq!(e.code, "DNS_VALIDATION_FAILED");
        assert_eq!(e.message, "Invalid network adapter reference.");
        assert!(!e.recoverable);
    }
}

fn adapter(id: &str, dns: &[&str]) -> voidguard::models::system_control::NetworkAdapter {
    voidguard::models::system_control::NetworkAdapter {
        adapter_id: id.to_string(),
        name: "n".to_string(),
        description: String::new(),
        adapter_type: "Ethernet".to_string(),
        status: "Up".to_string(),
        mac_address: None,
        ipv4_addresses: vec![],
        ipv6_addresses: vec![],
        gateway: None,
        dns_servers: dns.iter().map(|s| s.to_string()).collect(),
        dhcp_enabled: None,
        link_speed_mbps: None,
    }
}

#[test]
fn dns_before_value_reads_the_targeted_adapter() {
    let adapters = vec![adapter("{A}", &["9.9.9.9"]), adapter("{B}", &["1.1.1.1", "8.8.8.8"]), adapter("{B}", &["x"])];
    assert_eq!(voidguard::dns::dns_before_value(&adapters, "{B}").as_deref(), Some("1.1.1.1, 8.8.8.8"));
    assert_eq!(voidguard::dns::dns_before_value(&adapters, "{A}").as_deref(), Some("9.9.9.9"));
    assert_eq!(voidguard::dns::dns_before_value(&adapters, "{C}"), None);
    assert_eq!(voidguard::dns::dns_before_value(&vec![adapter("{D}", &[])], "{D}").as_deref(), Some(""));
}
