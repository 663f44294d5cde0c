//! Network adapters: turning one adapter record of the system's adapter
//! list into the `NetworkAdapter` shown on the Network page.
use vstd::prelude::*;

use crate::models::system_control::NetworkAdapter;
use crate::models::AppError;
use crate::ports::{format_ipv4, ipv4_text};
use crate::split::{join_strings, join_with, views};
use crate::text::{dec, hex2_upper, hex_num, owned, push_decimal, push_hex2, push_hex_num};

verus! {

/// A socket address of an adapter record.
#[derive(Debug, Clone, Copy)]
pub enum SockAddr {
    /// An IPv4 address, stored least-significant byte first.
    V4 { addr: u32 },
    /// An IPv6 address as its eight 16-bit words in network byte order.
    V6 { words: [u16; 8] },
    /// Any other address family.
    Other,
}

/// The fields of one adapter record that the adapter view is made from.
#[derive(Debug, Clone)]
pub struct RawAdapter {
    /// The adapter's GUID text (its ANSI `AdapterName`).
    pub adapter_name: String,
    pub friendly_name: String,
    pub description: String,
    /// The interface type code (`IfType`).
    pub if_type: u32,
    /// The operational status code (`OperStatus`).
    pub oper_status: i32,
    /// The physical address bytes (exactly `PhysicalAddressLength` of them).
    pub physical_address: Vec<u8>,
    /// The unicast addresses, in list order.
    pub unicast: Vec<SockAddr>,
    /// The first gateway address, if any.
    pub first_gateway: Option<SockAddr>,
    /// The DNS server addresses, in list order.
    pub dns_servers: Vec<SockAddr>,
    /// The adapter flags word.
    pub flags: u32,
    /// The transmit link speed in bits per second.
    pub transmit_link_speed: u64,
}

/// The adapter kind for an interface type code.
pub open spec fn adapter_type_text(if_type: u32) -> Seq<char> {
    if if_type == 6 {
        "Ethernet"@
    } else if if_type == 71 {
        "Wi-Fi"@
    } else if if_type == 23 {
        "VPN"@
    } else if if_type == 24 {
        "Loopback"@
    } else {
        "Other"@
    }
}

/// The status text for an operational status code (1 up, 2 down).
pub open spec fn adapter_status_text(oper_status: i32) -> Seq<char> {
    if oper_status == 1 {
        "Up"@
    } else if oper_status == 2 {
        "Down"@
    } else {
        "Unknown"@
    }
}

/// A 16-bit word read in network byte order.
pub open spec fn swap16(w: u16) -> nat {
    ((w % 0x100) * 0x100 + w / 0x100) as nat
}

/// The text of an IPv6 address: its eight words in lower-case
/// hexadecimal without leading zeros, joined by `:`.
pub open spec fn ipv6_text(words: Seq<u16>) -> Seq<char> {
    join_with(Seq::new(8, |i: int| hex_num(swap16(words[i]))), ":"@)
}

/// The text of a physical address: each byte as two upper-case
/// hexadecimal digits, joined by `:`.
pub open spec fn mac_text(bytes: Seq<u8>) -> Seq<char> {
    join_with(Seq::new(bytes.len(), |i: int| hex2_upper(bytes[i])), ":"@)
}

/// The texts of the IPv4 addresses in a list, in order.
pub open spec fn v4_texts(addrs: Seq<SockAddr>) -> Seq<Seq<char>>
    decreases addrs.len(),
{
    if addrs.len() == 0 {
        Seq::<Seq<char>>::empty()
    } else {
        let rest = v4_texts(addrs.drop_last());
        match addrs.last() {
            SockAddr::V4 { addr } => rest.push(ipv4_text(addr)),
            _ => rest,
        }
    }
}

/// The texts of the IPv6 addresses in a list, in order.
pub open spec fn v6_texts(addrs: Seq<SockAddr>) -> Seq<Seq<char>>
    decreases addrs.len(),
{
    if addrs.len() == 0 {
        Seq::<Seq<char>>::empty()
    } else {
        let rest = v6_texts(addrs.drop_last());
        match addrs.last() {
            SockAddr::V6 { words } => rest.push(ipv6_text(words@)),
            _ => rest,
        }
    }
}

/// The view of an optional string.
pub open spec fn opt_text(o: Option<String>) -> Option<Seq<char>> {
    match o {
        Some(s) => Some(s@),
        None => None,
    }
}

/// Renders an IPv6 address.
pub fn format_ipv6(words: &[u16; 8]) -> (s: String)
    ensures
        s@ == ipv6_text(words@),
{
    let mut segs: Vec<String> = Vec::new();
    let mut i: usize = 0;
    while i < 8
        invariant
            i <= 8,
            segs@.len() == i,
            forall|k: int| 0 <= k < i ==> #[trigger] segs@[k]@ == hex_num(swap16(words@[k])),
        decreases 8 - i,
    {
        let w = words[i];
        let v: u64 = ((w % 0x100) as u64) * 0x100 + (w / 0x100) as u64;
        let mut seg = String::new();
        push_hex_num(&mut seg, v);
        assert(Seq::<char>::empty() + hex_num(v as nat) == hex_num(v as nat));
        segs.push(seg);
        i = i + 1;
    }
    assert(views(segs@) =~= Seq::new(8, |k: int| hex_num(swap16(words@[k]))));
    join_strings(&segs, ":")
}

/// Renders a physical address.
pub fn format_mac(bytes: &Vec<u8>) -> (s: String)
    ensures
        s@ == mac_text(bytes@),
{
    let mut parts: Vec<String> = Vec::new();
    let mut i: usize = 0;
    while i < bytes.len()
        invariant
            i <= bytes.len(),
            parts@.len() == i,
            forall|k: int| 0 <= k < i ==> #[trigger] parts@[k]@ == hex2_upper(bytes@[k]),
        decreases bytes.len() - i,
    {
        let mut part = String::new();
        push_hex2(&mut part, bytes[i], true);
        assert(Seq::<char>::empty() + hex2_upper(bytes@[i as int]) == hex2_upper(bytes@[i as int]));
        parts.push(part);
        i = i + 1;
    }
    assert(views(parts@) =~= Seq::new(bytes@.len(), |k: int| hex2_upper(bytes@[k])));
    join_strings(&parts, ":")
}

/// The texts of the IPv4 addresses of a list.
pub fn ipv4_addresses(addrs: &Vec<SockAddr>) -> (r: Vec<String>)
    ensures
        views(r@) == v4_texts(addrs@),
{
    let mut r: Vec<String> = Vec::new();
    let mut i: usize = 0;
    while i < addrs.len()
        invariant
            i <= addrs.len(),
            views(r@) == v4_texts(addrs@.subrange(0, i as int)),
        decreases addrs.len() - i,
    {
        let ghost pre = addrs@.subrange(0, i as int);
        assert(addrs@.subrange(0, i + 1).drop_last() == pre);
        match addrs[i] {
            SockAddr::V4 { addr } => {
                let t = format_ipv4(addr);
                r.push(t);
                assert(views(r@) =~= views(r@.drop_last()).push(t@));
            },
            _ => {},
        }
        i = i + 1;
    }
    assert(addrs@.subrange(0, addrs.len() as int) == addrs@);
    r
}

/// The texts of the IPv6 addresses of a list.
pub fn ipv6_addresses(addrs: &Vec<SockAddr>) -> (r: Vec<String>)
    ensures
        views(r@) == v6_texts(addrs@),
{
    let mut r: Vec<String> = Vec::new();
    let mut i: usize = 0;
    while i < addrs.len()
        invariant
            i <= addrs.len(),
            views(r@) == v6_texts(addrs@.subrange(0, i as int)),
        decreases addrs.len() - i,
    {
        let ghost pre = addrs@.subrange(0, i as int);
        assert(addrs@.subrange(0, i + 1).drop_last() == pre);
        match addrs[i] {
            SockAddr::V6 { words } => {
                let t = format_ipv6(&words);
                r.push(t);
                assert(views(r@) =~= views(r@.drop_last()).push(t@));
            },
            _ => {},
        }
        i = i + 1;
    }
    assert(addrs@.subrange(0, addrs.len() as int) == addrs@);
    r
}

/// `a` is the adapter view of the raw record `raw`.
pub open spec fn adapter_matches(a: NetworkAdapter, raw: RawAdapter) -> bool {
    &&& a.adapter_id@ == raw.adapter_name@
    &&& a.name@ == raw.friendly_name@
    &&& a.description@ == raw.description@
    &&& a.adapter_type@ == adapter_type_text(raw.if_type)
    &&& a.status@ == adapter_status_text(raw.oper_status)
    &&& opt_text(a.mac_address) == if raw.physical_address@.len() > 0 {
        Some(mac_text(raw.physical_address@))
    } else {
        None
    }
    &&& views(a.ipv4_addresses@) == v4_texts(raw.unicast@)
    &&& views(a.ipv6_addresses@) == v6_texts(raw.unicast@)
    &&& opt_text(a.gateway) == match raw.first_gateway {
        Some(SockAddr::V4 { addr }) => Some(ipv4_text(addr)),
        _ => None,
    }
    &&& views(a.dns_servers@) == v4_texts(raw.dns_servers@)
    &&& a.dhcp_enabled == Some((raw.flags / 4) % 2 == 1)
    &&& a.link_speed_mbps == if raw.transmit_link_speed > 0 {
        Some((raw.transmit_link_speed / 1_000_000) as u64)
    } else {
        None
    }
}

/// Builds the adapter view of one adapter record: its kind and status
/// texts, physical address, IPv4/IPv6 unicast addresses, IPv4 gateway and
/// DNS servers, DHCP flag (bit 0x4) and link speed in Mbit/s.
pub fn parse_adapter(raw: &RawAdapter) -> (a: NetworkAdapter)
    ensures
        adapter_matches(a, *raw),
{
    let adapter_type = if raw.if_type == 6 {
        owned("Ethernet")
    } else if raw.if_type == 71 {
        owned("Wi-Fi")
    } else if raw.if_type == 23 {
        owned("VPN")
    } else if raw.if_type == 24 {
        owned("Loopback")
    } else {
        owned("Other")
    };
    let status = if raw.oper_status == 1 {
        owned("Up")
    } else if raw.oper_status == 2 {
        owned("Down")
    } else {
        owned("Unknown")
    };
    let mac_address = if raw.physical_address.len() > 0 {
        Some(format_mac(&raw.physical_address))
    } else {
        None
    };
    let gateway = match raw.first_gateway {
        Some(SockAddr::V4 { addr }) => Some(format_ipv4(addr)),
        _ => None,
    };
    let link_speed_mbps = if raw.transmit_link_speed > 0 {
        Some(raw.transmit_link_speed / 1_000_000)
    } else {
        None
    };
    NetworkAdapter {
        adapter_id: raw.adapter_name.clone(),
        name: raw.friendly_name.clone(),
        description: raw.description.clone(),
        adapter_type,
        status,
        mac_address,
        ipv4_addresses: ipv4_addresses(&raw.unicast),
        ipv6_addresses: ipv6_addresses(&raw.unicast),
        gateway,
        dns_servers: ipv4_addresses(&raw.dns_servers),
        dhcp_enabled: Some((raw.flags / 4) % 2 == 1),
        link_speed_mbps,
    }
}

/// The error for an adapter listing the system refused, with its error code.
pub fn adapter_enum_error(win32_err: u32) -> (e: AppError)
    ensures
        e.code@ == "ADAPTER_ENUM_FAILED"@,
        e.message@ == "Failed to enumerate network adapters."@,
        e.details matches Some(d) && d@ == "Win32 error code "@ + dec(win32_err as nat),
        e.recoverable,
{
    let mut details = owned("Win32 error code ");
    push_decimal(&mut details, win32_err as u64);
    AppError {
        code: owned("ADAPTER_ENUM_FAILED"),
        message: owned("Failed to enumerate network adapters."),
        details: Some(details),
        recoverable: true,
    }
}

} // verus!
