use voidguard::network::{format_ipv6, format_mac, ipv4_addresses, ipv6_addresses, parse_adapter, RawAdapter, SockAddr};

fn fe80_words() -> [u16; 8] {
    // Words as read from memory on a little-endian machine.
    [0x80fe, 0, 0, 0, 0x0100, 0x0002, 0, 0x0100]
}

#[test]
fn ipv6_and_mac_texts() {
    assert_eq!(format_ipv6(&fe80_words()), "fe80:0:0:0:1:200:0:1");
    assert_eq!(format_ipv6(&[0; 8]), "0:0:0:0:0:0:0:0");
    assert_eq!(format_mac(&vec![0x00, 0x1a, 0x2B, 0xff, 0x05, 0x60]), "00:1A:2B:FF:05:60");
    assert_eq!(format_mac(&vec![]), "");
}

#[test]
fn address_lists_keep_their_family() {
    let addrs = vec![
        SockAddr::V4 { addr: 0x0A01_A8C0 },
        SockAddr::V6 { words: fe80_words() },
        SockAddr::Other,
        SockAddr::V4 { addr: 0x0100_007F },
    ];
    assert_eq!(ipv4_addresses(&addrs), vec!["192.168.1.10".to_string(), "127.0.0.1".to_string()]);
    assert_eq!(ipv6_addresses(&addrs), vec!["fe80:0:0:0:1:200:0:1".to_string()]);
}

#[test]
fn adapter_records_become_adapter_views() {
    let raw = RawAdapter {
        adapter_name: "{4D36E972-E325-11CE-BFC1-08002BE10318}".to_string(),
        friendly_name: "Wi-Fi".to_string(),
        description: "Intel Wireless".to_string(),
        if_type: 71,
        oper_status: 1,
        physical_address: vec![0xAA, 0xBB, 0xCC, 0x00, 0x11, 0x22],
        unicast: vec![SockAddr::V4 { addr: 0x0A01_A8C0 }, SockAddr::V6 { words: fe80_words() }],
        first_gateway: Some(SockAddr::V4 { addr: 0x0101_A8C0 }),
        dns_servers: vec![SockAddr::V4 { addr: 0x0101_0101 }, SockAddr::V6 { words: [0; 8] }],
        flags: 0x4,
        transmit_link_speed: 866_700_000,
    };
    let a = parse_adapter(&raw);
    assert_eq!(a.adapter_id, "{4D36E972-E325-11CE-BFC1-08002BE10318}");
    assert_eq!(a.name, "Wi-Fi");
    assert_eq!(a.adapter_type, "Wi-Fi");
    assert_eq!(a.status, "Up");
    assert_eq!(a.mac_address.as_deref(), Some("AA:BB:CC:00:11:22"));
    assert_eq!(a.ipv4_addresses, vec!["192.168.1.10".to_string()]);
    assert_eq!(a.ipv6_addresses, vec!["fe80:0:0:0:1:200:0:1".to_string()]);
    assert_eq!(a.gateway.as_deref(), Some("192.168.1.1"));
    assert_eq!(a.dns_servers, vec!["1.1.1.1".to_string()]);
    assert_eq!(a.dhcp_enabled, Some(true));
    assert_eq!(a.link_speed_mbps, Some(866));

    let other = RawAdapter {
        if_type: 999,
        oper_status: 2,
        physical_address: vec![],
        first_gateway: Some(SockAddr::V6 { words: [0; 8] }),
        flags: 0,
        transmit_link_speed: 0,
        ..raw
    };
    let b = parse_adapter(&other);
    assert_eq!(b.adapter_type, "Other");
    assert_eq!(b.status, "Down");
    assert!(b.mac_address.is_none());
    assert!(b.gateway.is_none());
    assert_eq!(b.dhcp_enabled, Some(false));
    assert!(b.link_speed_mbps.is_none());
}
