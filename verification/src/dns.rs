//! Validation and shaping of per-interface DNS changes: strict IPv4
//! literals, the static/DHCP request check, the name-server list handed
//! to the system, the audit and event texts, and the adapter GUID parse.
use vstd::prelude::*;

use crate::models::system_control::NetworkAdapter;
use crate::models::{AppError, DnsMode, DnsSettingsRequest};
use crate::split::{join_strings, join_with, split_chars, split_on, views};
use crate::text::{
    all_digits, chars_of, dec, digit_value, digits_value, is_digit, owned, push_decimal, push_str,
    trim, trimmed,
};

verus! {

/// The view of an optional string.
pub open spec fn opt_view(o: Option<String>) -> Option<Seq<char>> {
    match o {
        Some(s) => Some(s@),
        None => None,
    }
}

// ---------------------------------------------------------------------
// Decimal octets and IPv4 literals
// ---------------------------------------------------------------------

/// The digits of an unsigned hexadecimal field as `from_str_radix`
/// reads them: one leading `+` is accepted and dropped.
pub open spec fn unsigned_digits(p: Seq<char>) -> Seq<char> {
    if p.len() > 0 && p[0] == '+' {
        p.drop_first()
    } else {
        p
    }
}

/// One dotted part of a strict IPv4 literal, as Windows reads one: one
/// to three ASCII decimal digits (no sign), no leading zero unless the
/// part is a single digit, denoting at most 255.
pub open spec fn valid_octet(p: Seq<char>) -> bool {
    &&& 1 <= p.len() <= 3
    &&& all_digits(p)
    &&& (p.len() == 1 || p[0] != '0')
    &&& digits_value(p) <= 255
}

/// A strict IPv4 literal: exactly four dot-separated valid octets.
pub open spec fn ipv4_text_ok(s: Seq<char>) -> bool {
    let parts = split_on(s, '.');
    &&& parts.len() == 4
    &&& forall|i: int| 0 <= i < 4 ==> valid_octet(#[trigger] parts[i])
}

/// A decimal value that grows by one more digit can only grow past 255.
proof fn lemma_digits_step(d: Seq<char>, c: char)
    requires
        is_digit(c),
    ensures
        digits_value(d.push(c)) == digits_value(d) * 10 + digit_value(c),
{
    assert(d.push(c).drop_last() == d);
}

/// Decides `valid_octet`.
pub fn valid_octet_chars(p: &Vec<char>) -> (b: bool)
    ensures
        b == valid_octet(p@),
{
    if p.len() == 0 || p.len() > 3 {
        return false;
    }
    if p.len() != 1 && p[0] == '0' {
        return false;
    }
    let mut acc: u32 = 0;
    let mut i: usize = 0;
    while i < p.len()
        invariant
            p.len() <= 3,
            i <= p.len(),
            all_digits(p@.subrange(0, i as int)),
            acc == digits_value(p@.subrange(0, i as int)),
            i == 0 ==> acc == 0,
            i <= 1 ==> acc < 10,
            i <= 2 ==> acc < 100,
            acc < 1000,
        decreases p.len() - i,
    {
        let c = p[i];
        if !('0' <= c && c <= '9') {
            assert(!is_digit(p@[i as int]));
            return false;
        }
        let ghost pre = p@.subrange(0, i as int);
        assert(p@.subrange(0, i + 1) == pre.push(c));
        proof {
            lemma_digits_step(pre, c);
        }
        acc = acc * 10 + ((c as u32) - 48);
        i = i + 1;
        assert(all_digits(p@.subrange(0, i as int))) by {
            assert forall|j: int| 0 <= j < i implies is_digit(#[trigger] p@.subrange(0, i as int)[j]) by {
                if j < i - 1 {
                    assert(p@.subrange(0, i as int)[j] == pre[j]);
                }
            }
        }
    }
    assert(p@.subrange(0, p.len() as int) == p@);
    acc <= 255
}

/// Strict IPv4 literal check, as strict as Windows: exactly four
/// dot-separated parts, each of one to three ASCII digits with no sign
/// and no leading zero (like "01"), denoting at most 255.
pub fn is_valid_ipv4(s: &str) -> (b: bool)
    ensures
        b == ipv4_text_ok(s@),
{
    let v = chars_of(s);
    let parts = split_chars(&v, '.');
    if parts.len() != 4 {
        return false;
    }
    let mut i: usize = 0;
    while i < 4
        invariant
            parts@.len() == 4,
            split_on(s@, '.').len() == 4,
            v@ == s@,
            forall|k: int| 0 <= k < parts@.len() ==> #[trigger] parts@[k]@ == split_on(v@, '.')[k],
            i <= 4,
            forall|k: int| 0 <= k < i ==> valid_octet(#[trigger] split_on(s@, '.')[k]),
        decreases 4 - i,
    {
        assert(parts@[i as int]@ == split_on(s@, '.')[i as int]);
        if !valid_octet_chars(&parts[i]) {
            return false;
        }
        i = i + 1;
    }
    true
}

// ---------------------------------------------------------------------
// DNS change requests
// ---------------------------------------------------------------------

/// An error for a DNS request that does not pass validation.
pub fn validation_error(message: &str) -> (e: AppError)
    ensures
        e.code@ == "DNS_VALIDATION_FAILED"@,
        e.message@ == message@,
        e.details is None,
        !e.recoverable,
{
    AppError::plain("DNS_VALIDATION_FAILED", message, false)
}

/// An optional server that counts as given: present and non-empty.
pub open spec fn given(o: Option<Seq<char>>) -> Option<Seq<char>> {
    match o {
        Some(s) => if s.len() > 0 {
            Some(s)
        } else {
            None
        },
        None => None,
    }
}

/// Why a DNS request is refused, if it is: a static configuration needs
/// a primary server, and every given server must be a strict IPv4
/// literal.
pub open spec fn dns_rejection(
    mode: DnsMode,
    primary: Option<Seq<char>>,
    secondary: Option<Seq<char>>,
) -> Option<Seq<char>> {
    if mode == DnsMode::Static {
        match given(primary) {
            None => Some("A primary DNS server is required for a static configuration."@),
            Some(p) => if !ipv4_text_ok(p) {
                Some("'"@ + p + "' is not a valid IPv4 address."@)
            } else {
                match given(secondary) {
                    Some(q) => if !ipv4_text_ok(q) {
                        Some("'"@ + q + "' is not a valid IPv4 address."@)
                    } else {
                        None
                    },
                    None => None,
                }
            },
        }
    } else {
        None
    }
}

/// The message for a server that is not a valid IPv4 literal.
fn not_ipv4_message(server: &str) -> (m: String)
    ensures
        m@ == "'"@ + server@ + "' is not a valid IPv4 address."@,
{
    let mut m = owned("'");
    push_str(&mut m, server);
    push_str(&mut m, "' is not a valid IPv4 address.");
    m
}

/// The server of an optional entry that counts as given.
fn given_server(o: &Option<String>) -> (r: Option<&String>)
    ensures
        match r {
            Some(s) => given(opt_view(*o)) == Some(s@),
            None => given(opt_view(*o)) is None,
        },
{
    match o {
        Some(s) => {
            if s.as_str().is_empty() {
                None
            } else {
                Some(s)
            }
        },
        None => None,
    }
}

/// Server-side re-validation of a DNS request before anything reaches
/// the system.
pub fn check_dns_request(req: &DnsSettingsRequest) -> (r: Result<(), AppError>)
    ensures
        match r {
            Ok(()) => dns_rejection(req.mode, opt_view(req.primary_dns), opt_view(
                req.secondary_dns,
            )) is None,
            Err(e) => {
                &&& dns_rejection(req.mode, opt_view(req.primary_dns), opt_view(req.secondary_dns))
                    == Some(e.message@)
                &&& e.code@ == "DNS_VALIDATION_FAILED"@
                &&& e.details is None
                &&& !e.recoverable
            },
        },
{
    match req.mode {
        DnsMode::Static => {
            let primary = match given_server(&req.primary_dns) {
                Some(p) => p,
                None => {
                    return Err(
                        validation_error(
                            "A primary DNS server is required for a static configuration.",
                        ),
                    );
                },
            };
            if !is_valid_ipv4(primary.as_str()) {
                let m = not_ipv4_message(primary.as_str());
                return Err(validation_error(m.as_str()));
            }
            match given_server(&req.secondary_dns) {
                Some(q) => {
                    if !is_valid_ipv4(q.as_str()) {
                        let m = not_ipv4_message(q.as_str());
                        return Err(validation_error(m.as_str()));
                    }
                },
                None => {},
            }
            Ok(())
        },
        DnsMode::Dhcp => Ok(()),
    }
}

/// The servers of a static configuration in order: the primary (empty
/// when absent) and the secondary when it is given.
pub open spec fn static_servers(primary: Option<Seq<char>>, secondary: Option<Seq<char>>) -> Seq<
    Seq<char>,
> {
    let first = match primary {
        Some(p) => p,
        None => Seq::<char>::empty(),
    };
    match given(secondary) {
        Some(q) => seq![first, q],
        None => seq![first],
    }
}

/// The static servers joined by `sep`.
fn join_servers(req: &DnsSettingsRequest, sep: &str) -> (r: String)
    ensures
        r@ == join_with(static_servers(opt_view(req.primary_dns), opt_view(req.secondary_dns)), sep@),
{
    let mut r = match &req.primary_dns {
        Some(p) => p.clone(),
        None => String::new(),
    };
    let ghost first = r@;
    match given_server(&req.secondary_dns) {
        Some(q) => {
            push_str(&mut r, sep);
            push_str(&mut r, q.as_str());
            let ghost pieces = seq![first, q@];
            assert(pieces.drop_last() =~= seq![first]);
            assert(join_with(pieces, sep@) == join_with(seq![first], sep@) + sep@ + q@);
        },
        None => {},
    }
    r
}

/// The audit "after" text of a DNS change: `DHCP (automatic)`, or the
/// static servers joined by `", "`.
pub fn dns_change_summary(req: &DnsSettingsRequest) -> (r: String)
    ensures
        r@ == match req.mode {
            DnsMode::Dhcp => "DHCP (automatic)"@,
            DnsMode::Static => join_with(
                static_servers(opt_view(req.primary_dns), opt_view(req.secondary_dns)),
                ", "@,
            ),
        },
{
    match req.mode {
        DnsMode::Dhcp => owned("DHCP (automatic)"),
        DnsMode::Static => join_servers(req, ", "),
    }
}

/// The name-server list handed to the system: empty for DHCP (which
/// reverts the interface to automatic DNS), otherwise the static servers
/// joined by `","`.
pub fn dns_name_server_list(req: &DnsSettingsRequest) -> (r: String)
    ensures
        r@ == match req.mode {
            DnsMode::Dhcp => Seq::<char>::empty(),
            DnsMode::Static => join_with(
                static_servers(opt_view(req.primary_dns), opt_view(req.secondary_dns)),
                ","@,
            ),
        },
{
    match req.mode {
        DnsMode::Dhcp => String::new(),
        DnsMode::Static => join_servers(req, ","),
    }
}

/// The audit target of a DNS change: `adapter <id>`.
pub fn dns_change_target(req: &DnsSettingsRequest) -> (r: String)
    ensures
        r@ == "adapter "@ + req.adapter_id@,
{
    let mut r = owned("adapter ");
    push_str(&mut r, req.adapter_id.as_str());
    r
}

/// The event text of an applied DNS change.
pub fn dns_event_description(target: &str, after: &str) -> (r: String)
    ensures
        r@ == "DNS for "@ + target@ + " changed to "@ + after@,
{
    let mut r = owned("DNS for ");
    push_str(&mut r, target);
    push_str(&mut r, " changed to ");
    push_str(&mut r, after);
    r
}

// ---------------------------------------------------------------------
// Adapter GUIDs
// ---------------------------------------------------------------------

/// A GUID in its four-field binary layout.
#[derive(Debug, Clone, Copy, PartialEq, Eq)]
pub struct Guid {
    pub data1: u32,
    pub data2: u16,
    pub data3: u16,
    pub data4: [u8; 8],
}

/// A hexadecimal digit of either case.
pub open spec fn is_hex_digit(c: char) -> bool {
    ||| '0' <= c <= '9'
    ||| 'a' <= c <= 'f'
    ||| 'A' <= c <= 'F'
}

/// The value of a hexadecimal digit.
pub open spec fn hex_value(c: char) -> nat {
    if '0' <= c <= '9' {
        ((c as u32) - 48) as nat
    } else if 'a' <= c <= 'f' {
        ((c as u32) - 87) as nat
    } else {
        ((c as u32) - 55) as nat
    }
}

/// All characters are hexadecimal digits.
pub open spec fn all_hex(s: Seq<char>) -> bool {
    forall|i: int| 0 <= i < s.len() ==> is_hex_digit(#[trigger] s[i])
}

/// The number that a sequence of hexadecimal digits denotes.
pub open spec fn hex_digits_value(s: Seq<char>) -> nat
    decreases s.len(),
{
    if s.len() == 0 {
        0
    } else {
        hex_digits_value(s.drop_last()) * 16 + hex_value(s.last())
    }
}

/// What `from_str_radix(p, 16)` gives for an unsigned type whose values
/// are at most `max`: an optional `+`, then at least one hexadecimal
/// digit, denoting at most `max`.
pub open spec fn parse_hex_text(p: Seq<char>, max: nat) -> Option<nat> {
    let d = unsigned_digits(p);
    if d.len() > 0 && all_hex(d) && hex_digits_value(d) <= max {
        Some(hex_digits_value(d))
    } else {
        None
    }
}

/// A prefix of a digit sequence never denotes more than the whole.
proof fn lemma_hex_prefix_le(d: Seq<char>, n: int)
    requires
        0 <= n <= d.len(),
    ensures
        hex_digits_value(d.subrange(0, n)) <= hex_digits_value(d),
    decreases d.len(),
{
    if n == d.len() {
        assert(d.subrange(0, n) == d);
    } else {
        assert(d.drop_last().subrange(0, n) == d.subrange(0, n));
        lemma_hex_prefix_le(d.drop_last(), n);
    }
}

/// Parses an unsigned hexadecimal literal whose value must not exceed
/// `max` (`from_str_radix(_, 16)`).
pub fn parse_hex_chars(p: &Vec<char>, max: u64) -> (r: Option<u64>)
    ensures
        match r {
            Some(x) => parse_hex_text(p@, max as nat) == Some(x as nat),
            None => parse_hex_text(p@, max as nat) is None,
        },
{
    let start: usize = if p.len() > 0 && p[0] == '+' {
        1
    } else {
        0
    };
    let ghost d = unsigned_digits(p@);
    assert(d == p@.subrange(start as int, p.len() as int));
    if start >= p.len() {
        return None;
    }
    let mut acc: u64 = 0;
    let mut i: usize = start;
    while i < p.len()
        invariant
            start <= i <= p.len(),
            d == p@.subrange(start as int, p.len() as int),
            d == unsigned_digits(p@),
            all_hex(p@.subrange(start as int, i as int)),
            hex_digits_value(p@.subrange(start as int, i as int)) == acc,
            acc <= max,
        decreases p.len() - i,
    {
        let c = p[i];
        let ghost pre = p@.subrange(start as int, i as int);
        assert(p@.subrange(start as int, i + 1) == pre.push(c));
        assert(p@.subrange(start as int, i + 1).drop_last() == pre);
        let dv: u64 = if '0' <= c && c <= '9' {
            (c as u64) - 48
        } else if 'a' <= c && c <= 'f' {
            (c as u64) - 87
        } else if 'A' <= c && c <= 'F' {
            (c as u64) - 55
        } else {
            assert(d[i - start] == c);
            assert(!is_hex_digit(d[i - start]));
            return None;
        };
        assert(dv == hex_value(c));
        if dv > max || acc > (max - dv) / 16 {
            if dv > max {
                proof {
                    assert(hex_digits_value(pre.push(c)) == acc * 16 + dv);
                    assert(d.subrange(0, i - start + 1) == pre.push(c));
                    lemma_hex_prefix_le(d, i - start + 1);
                    assert(hex_digits_value(d) > max);
                }
                return None;
            }
            // the value only grows from here, so it exceeds `max`
            proof {
                assert(acc * 16 + dv > max) by (nonlinear_arith)
                    requires
                        acc > (max - dv) / 16,
                        dv <= max,
                ;
                assert(hex_digits_value(pre.push(c)) == acc * 16 + dv);
                assert(d.subrange(0, i - start + 1) == pre.push(c));
                lemma_hex_prefix_le(d, i - start + 1);
                assert(hex_digits_value(d) > max);
            }
            return None;
        }
        assert(acc * 16 + dv <= max) by (nonlinear_arith)
            requires
                acc <= (max - dv) / 16,
                dv <= max,
        ;
        acc = acc * 16 + dv;
        i = i + 1;
        assert(all_hex(p@.subrange(start as int, i as int))) by {
            assert forall|j: int| 0 <= j < i - start implies is_hex_digit(
                #[trigger] p@.subrange(start as int, i as int)[j],
            ) by {
                if j < i - 1 - start {
                    assert(p@.subrange(start as int, i as int)[j] == pre[j]);
                }
            }
        }
    }
    assert(p@.subrange(start as int, p.len() as int) == d);
    Some(acc)
}

/// The text with every leading `c` removed (`str::trim_start_matches`).
pub open spec fn strip_leading(s: Seq<char>, c: char) -> Seq<char>
    decreases s.len(),
{
    if s.len() > 0 && s[0] == c {
        strip_leading(s.drop_first(), c)
    } else {
        s
    }
}

/// The text with every trailing `c` removed (`str::trim_end_matches`).
pub open spec fn strip_trailing(s: Seq<char>, c: char) -> Seq<char>
    decreases s.len(),
{
    if s.len() > 0 && s.last() == c {
        strip_trailing(s.drop_last(), c)
    } else {
        s
    }
}

/// The GUID text without surrounding whitespace and braces.
pub open spec fn guid_core(s: Seq<char>) -> Seq<char> {
    strip_trailing(strip_leading(trim(s), '{'), '}')
}

/// The five hexadecimal fields of a GUID text, if it has five
/// dash-separated fields that fit 32, 16, 16, 16 and 64 bits.
pub open spec fn guid_fields(s: Seq<char>) -> Option<(nat, nat, nat, nat, nat)> {
    let parts = split_on(guid_core(s), '-');
    if parts.len() != 5 {
        None
    } else {
        match (
            parse_hex_text(parts[0], 0xFFFF_FFFF),
            parse_hex_text(parts[1], 0xFFFF),
            parse_hex_text(parts[2], 0xFFFF),
            parse_hex_text(parts[3], 0xFFFF),
            parse_hex_text(parts[4], 0xFFFF_FFFF_FFFF_FFFF),
        ) {
            (Some(a), Some(b), Some(c), Some(d), Some(e)) => Some((a, b, c, d, e)),
            _ => None,
        }
    }
}

/// The eight trailing bytes of a GUID: the fourth field big-endian, then
/// the low 48 bits of the fifth field big-endian.
pub open spec fn guid_tail(hi: nat, lo: nat) -> Seq<u8> {
    seq![
        (hi / 0x100) as u8,
        (hi % 0x100) as u8,
        ((lo / 0x100_0000_0000) % 0x100) as u8,
        ((lo / 0x1_0000_0000) % 0x100) as u8,
        ((lo / 0x100_0000) % 0x100) as u8,
        ((lo / 0x1_0000) % 0x100) as u8,
        ((lo / 0x100) % 0x100) as u8,
        (lo % 0x100) as u8,
    ]
}

/// Removes every leading `c`.
fn strip_leading_chars(v: &Vec<char>, c: char) -> (r: Vec<char>)
    ensures
        r@ == strip_leading(v@, c),
{
    let n = v.len();
    let mut i: usize = 0;
    assert(v@.subrange(0, n as int) == v@);
    while i < n && v[i] == c
        invariant
            n == v.len(),
            i <= n,
            strip_leading(v@, c) == strip_leading(v@.subrange(i as int, n as int), c),
        decreases n - i,
    {
        assert(v@.subrange(i as int, n as int).drop_first() == v@.subrange(i + 1, n as int));
        i = i + 1;
    }
    crate::text::sub_chars(v, i, n)
}

/// Removes every trailing `c`.
fn strip_trailing_chars(v: &Vec<char>, c: char) -> (r: Vec<char>)
    ensures
        r@ == strip_trailing(v@, c),
{
    let mut j: usize = v.len();
    assert(v@.subrange(0, j as int) == v@);
    while j > 0 && v[j - 1] == c
        invariant
            j <= v.len(),
            strip_trailing(v@, c) == strip_trailing(v@.subrange(0, j as int), c),
        decreases j,
    {
        assert(v@.subrange(0, j as int).drop_last() == v@.subrange(0, j - 1));
        j = j - 1;
    }
    crate::text::sub_chars(v, 0, j)
}

/// The error for an adapter reference that is not a GUID.
fn bad_adapter_reference() -> (e: AppError)
    ensures
        e.code@ == "DNS_VALIDATION_FAILED"@,
        e.message@ == "Invalid network adapter reference."@,
        e.details is None,
        !e.recoverable,
{
    AppError::plain("DNS_VALIDATION_FAILED", "Invalid network adapter reference.", false)
}

/// Parses an adapter GUID such as `{4D36E972-E325-11CE-BFC1-08002BE10318}`
/// (braces optional) into its binary layout.
pub fn parse_guid(s: &str) -> (r: Result<Guid, AppError>)
    ensures
        match r {
            Ok(g) => guid_fields(s@) matches Some((a, b, c, d, e)) && g.data1 == a && g.data2
                == b && g.data3 == c && g.data4@ == guid_tail(d, e),
            Err(err) => {
                &&& guid_fields(s@) is None
                &&& err.code@ == "DNS_VALIDATION_FAILED"@
                &&& err.message@ == "Invalid network adapter reference."@
                &&& err.details is None
                &&& !err.recoverable
            },
        },
{
    let t = trimmed(s);
    let t1 = strip_leading_chars(&t, '{');
    let core = strip_trailing_chars(&t1, '}');
    assert(core@ == guid_core(s@));
    let parts = split_chars(&core, '-');
    if parts.len() != 5 {
        return Err(bad_adapter_reference());
    }
    let ghost sp = split_on(guid_core(s@), '-');
    assert(parts@[0]@ == sp[0]);
    assert(parts@[1]@ == sp[1]);
    assert(parts@[2]@ == sp[2]);
    assert(parts@[3]@ == sp[3]);
    assert(parts@[4]@ == sp[4]);
    let data1 = match parse_hex_chars(&parts[0], 0xFFFF_FFFF) {
        Some(x) => x,
        None => {
            return Err(bad_adapter_reference());
        },
    };
    let data2 = match parse_hex_chars(&parts[1], 0xFFFF) {
        Some(x) => x,
        None => {
            return Err(bad_adapter_reference());
        },
    };
    let data3 = match parse_hex_chars(&parts[2], 0xFFFF) {
        Some(x) => x,
        None => {
            return Err(bad_adapter_reference());
        },
    };
    let hi = match parse_hex_chars(&parts[3], 0xFFFF) {
        Some(x) => x,
        None => {
            return Err(bad_adapter_reference());
        },
    };
    let lo = match parse_hex_chars(&parts[4], 0xFFFF_FFFF_FFFF_FFFF) {
        Some(x) => x,
        None => {
            return Err(bad_adapter_reference());
        },
    };
    let data4: [u8; 8] = [
        (hi / 0x100) as u8,
        (hi % 0x100) as u8,
        ((lo / 0x100_0000_0000) % 0x100) as u8,
        ((lo / 0x1_0000_0000) % 0x100) as u8,
        ((lo / 0x100_0000) % 0x100) as u8,
        ((lo / 0x1_0000) % 0x100) as u8,
        ((lo / 0x100) % 0x100) as u8,
        (lo % 0x100) as u8,
    ];
    assert(data4@ =~= guid_tail(hi as nat, lo as nat));
    Ok(Guid { data1: data1 as u32, data2: data2 as u16, data3: data3 as u16, data4 })
}

/// The error for a DNS change the system refused, with its error code.
pub fn dns_change_error(win32_err: u32) -> (e: AppError)
    ensures
        e.code@ == "DNS_CHANGE_FAILED"@,
        e.message@ == "Windows rejected the DNS configuration change."@,
        e.details matches Some(d) && d@ == "Win32 error code "@ + dec(win32_err as nat),
        e.recoverable,
{
    let mut details = owned("Win32 error code ");
    push_decimal(&mut details, win32_err as u64);
    AppError {
        code: owned("DNS_CHANGE_FAILED"),
        message: owned("Windows rejected the DNS configuration change."),
        details: Some(details),
        recoverable: true,
    }
}

/// The audit "before" value of a DNS change: the DNS servers the first
/// adapter with the request's GUID currently uses, joined by `", "`, or
/// nothing when no listed adapter has that GUID.
pub open spec fn dns_before_text(adapters: Seq<NetworkAdapter>, adapter_id: Seq<char>) -> Option<
    Seq<char>,
>
    decreases adapters.len(),
{
    if adapters.len() == 0 {
        None
    } else {
        match dns_before_text(adapters.drop_last(), adapter_id) {
            Some(t) => Some(t),
            None => if adapters.last().adapter_id@ == adapter_id {
                Some(join_with(views(adapters.last().dns_servers@), ", "@))
            } else {
                None
            },
        }
    }
}

/// Reads the current DNS configuration of the adapter a request targets
/// from the adapter listing, for the audit "before" value.
pub fn dns_before_value(adapters: &Vec<NetworkAdapter>, adapter_id: &str) -> (r: Option<String>)
    ensures
        match r {
            Some(t) => dns_before_text(adapters@, adapter_id@) == Some(t@),
            None => dns_before_text(adapters@, adapter_id@) is None,
        },
{
    let id = chars_of(adapter_id);
    let mut i: usize = 0;
    while i < adapters.len()
        invariant
            i <= adapters.len(),
            id@ == adapter_id@,
            dns_before_text(adapters@.subrange(0, i as int), adapter_id@) is None,
        decreases adapters.len() - i,
    {
        let a = chars_of(adapters[i].adapter_id.as_str());
        assert(adapters@.subrange(0, i + 1).drop_last() == adapters@.subrange(0, i as int));
        if crate::text::chars_eq(&a, &id) {
            let t = join_strings(&adapters[i].dns_servers, ", ");
            assert(dns_before_text(adapters@.subrange(0, i + 1), adapter_id@) == Some(t@));
            proof {
                lemma_dns_before_prefix(adapters@, adapter_id@, i + 1);
            }
            return Some(t);
        }
        i = i + 1;
    }
    assert(adapters@.subrange(0, adapters.len() as int) == adapters@);
    None
}

/// Once a prefix of the listing decides the "before" value, the whole
/// listing gives the same.
proof fn lemma_dns_before_prefix(adapters: Seq<NetworkAdapter>, adapter_id: Seq<char>, n: int)
    requires
        0 <= n <= adapters.len(),
        dns_before_text(adapters.subrange(0, n), adapter_id) is Some,
    ensures
        dns_before_text(adapters, adapter_id) == dns_before_text(adapters.subrange(0, n), adapter_id),
    decreases adapters.len() - n,
{
    if n < adapters.len() {
        assert(adapters.subrange(0, n + 1).drop_last() == adapters.subrange(0, n));
        lemma_dns_before_prefix(adapters, adapter_id, n + 1);
    } else {
        assert(adapters.subrange(0, n) == adapters);
    }
}

} // verus!
