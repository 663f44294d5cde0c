//! Listening ports: turning the system's TCP/UDP owner tables into
//! `ListeningPort` rows with a coarse risk label, and the single-port
//! firewall rules behind the open/close port actions.
use vstd::prelude::*;

use crate::models::AppError;
use crate::models::ports::{ListeningPort, PortDirection, PortProtocol, PortRisk, PortRuleRequest};
use crate::text::{chars_of, dec, owned, push_char, push_decimal, push_str, string_of};

verus! {

// ---------------------------------------------------------------------
// Risk and raw-row decoding
// ---------------------------------------------------------------------

/// The risk label of a listening port: well-known infrastructure ports
/// (80, 443, 53, 445, 135, 3389) and every port below 1024 are Low,
/// anything else Medium.
pub open spec fn port_risk(port: u16) -> PortRisk {
    if port == 80 || port == 443 || port == 53 || port == 445 || port == 135 || port == 3389 {
        PortRisk::Low
    } else if port <= 1023 {
        PortRisk::Low
    } else {
        PortRisk::Medium
    }
}

/// Labels a listening port with its coarse risk.
pub fn classify_risk(port: u16) -> (r: PortRisk)
    ensures
        r == port_risk(port),
{
    if port == 80 || port == 443 || port == 53 || port == 445 || port == 135 || port == 3389 {
        PortRisk::Low
    } else if port <= 1023 {
        PortRisk::Low
    } else {
        PortRisk::Medium
    }
}

/// The dotted text of an IPv4 address stored least-significant byte
/// first, as the system's tables hold it.
pub open spec fn ipv4_text(addr: u32) -> Seq<char> {
    dec((addr % 0x100) as nat) + "."@ + dec(((addr / 0x100) % 0x100) as nat) + "."@ + dec(
        ((addr / 0x1_0000) % 0x100) as nat,
    ) + "."@ + dec((addr / 0x100_0000) as nat)
}

/// Renders an address as dotted decimal.
pub fn format_ipv4(addr: u32) -> (s: String)
    ensures
        s@ == ipv4_text(addr),
{
    let mut s = String::new();
    push_decimal(&mut s, (addr % 0x100) as u64);
    push_str(&mut s, ".");
    push_decimal(&mut s, ((addr / 0x100) % 0x100) as u64);
    push_str(&mut s, ".");
    push_decimal(&mut s, ((addr / 0x1_0000) % 0x100) as u64);
    push_str(&mut s, ".");
    push_decimal(&mut s, (addr / 0x100_0000) as u64);
    assert(Seq::<char>::empty() + dec((addr % 0x100) as nat) == dec((addr % 0x100) as nat));
    s
}

/// The port number held in network byte order in the low 16 bits of a
/// table field.
pub open spec fn net_port(raw: u32) -> u16 {
    (((raw % 0x100) * 0x100) + ((raw / 0x100) % 0x100)) as u16
}

/// Decodes a table's port field.
pub fn port_from_raw(raw: u32) -> (p: u16)
    ensures
        p == net_port(raw),
{
    (((raw % 0x100) * 0x100) + ((raw / 0x100) % 0x100)) as u16
}

/// The TCP state code for a listening socket.
pub open spec fn tcp_listen_state() -> u32 {
    2
}

/// One row of the TCP owner-PID table.
#[derive(Debug, Clone, Copy)]
pub struct TcpRow {
    pub state: u32,
    pub local_addr: u32,
    pub local_port: u32,
    pub owning_pid: u32,
}

/// One row of the UDP owner-PID table.
#[derive(Debug, Clone, Copy)]
pub struct UdpRow {
    pub local_addr: u32,
    pub local_port: u32,
    pub owning_pid: u32,
}

/// A TCP row describes a listening socket.
pub fn is_listening_tcp(row: &TcpRow) -> (b: bool)
    ensures
        b == (row.state == tcp_listen_state()),
{
    row.state == 2
}

/// What is known of the process that owns a socket: its image name and
/// full path, where it could be resolved.
#[derive(Debug, Clone)]
pub struct ProcessImage {
    pub name: Option<String>,
    pub path: Option<String>,
}

/// The last component of a path, after the last `\` or `/` (the whole
/// text when it has neither).
pub open spec fn last_component(path: Seq<char>) -> Seq<char>
    decreases path.len(),
{
    if path.len() == 0 {
        path
    } else if path.last() == '\\' || path.last() == '/' {
        Seq::<char>::empty()
    } else {
        last_component(path.drop_last()).push(path.last())
    }
}

/// The image of a process resolved to a full path: its name is the
/// path's last component.
pub fn process_image_from_path(path: &str) -> (img: ProcessImage)
    ensures
        img.path matches Some(p) && p@ == path@,
        img.name matches Some(n) && n@ == last_component(path@),
{
    let v = chars_of(path);
    let mut start: usize = v.len();
    assert(v@.subrange(0, v.len() as int) == v@);
    assert(last_component(v@) + v@.subrange(v.len() as int, v.len() as int) == last_component(
        v@,
    ));
    while start > 0 && v[start - 1] != '\\' && v[start - 1] != '/'
        invariant
            start <= v.len(),
            last_component(v@) == last_component(v@.subrange(0, start as int)) + v@.subrange(
                start as int,
                v.len() as int,
            ),
        decreases start,
    {
        let ghost pre = v@.subrange(0, start as int);
        assert(pre.drop_last() == v@.subrange(0, start - 1));
        assert(v@.subrange(start - 1, v.len() as int) == seq![pre.last()] + v@.subrange(
            start as int,
            v.len() as int,
        ));
        assert(last_component(pre) == last_component(pre.drop_last()).push(pre.last()));
        assert(last_component(pre.drop_last()).push(pre.last()) + v@.subrange(
            start as int,
            v.len() as int,
        ) == last_component(pre.drop_last()) + v@.subrange(start - 1, v.len() as int));
        start = start - 1;
    }
    assert(last_component(v@.subrange(0, start as int)) == Seq::<char>::empty());
    assert(v@.subrange(0, v.len() as int) == v@);
    let name = crate::text::sub_chars(&v, start, v.len());
    assert(Seq::<char>::empty() + name@ == name@);
    ProcessImage { name: Some(string_of(&name)), path: Some(owned(path)) }
}

/// The image reported for process id 0.
pub fn idle_process_image() -> (img: ProcessImage)
    ensures
        img.name matches Some(n) && n@ == "System Idle"@,
        img.path is None,
{
    ProcessImage { name: Some(owned("System Idle")), path: None }
}

/// The view of an optional string.
pub open spec fn opt_text(o: Option<String>) -> Option<Seq<char>> {
    match o {
        Some(s) => Some(s@),
        None => None,
    }
}

/// `p` is the row that a socket of the given protocol, address, port
/// field, owner and status text becomes.
pub open spec fn port_row_matches(
    p: ListeningPort,
    protocol: PortProtocol,
    addr: u32,
    raw_port: u32,
    pid: u32,
    image: ProcessImage,
    status: Seq<char>,
) -> bool {
    &&& p.protocol == protocol
    &&& p.local_address@ == ipv4_text(addr)
    &&& p.port == net_port(raw_port)
    &&& p.pid == Some(pid)
    &&& opt_text(p.process_name) == opt_text(image.name)
    &&& opt_text(p.executable_path) == opt_text(image.path)
    &&& p.status@ == status
    &&& p.risk == port_risk(net_port(raw_port))
    &&& p.firewall_allowed is None
}

fn clone_opt(o: &Option<String>) -> (r: Option<String>)
    ensures
        opt_text(r) == opt_text(*o),
{
    match o {
        Some(s) => Some(s.clone()),
        None => None,
    }
}

/// The listening-port row for a listening TCP socket.
pub fn tcp_listening_port(row: &TcpRow, image: &ProcessImage) -> (p: ListeningPort)
    ensures
        port_row_matches(
            p,
            PortProtocol::Tcp,
            row.local_addr,
            row.local_port,
            row.owning_pid,
            *image,
            "LISTENING"@,
        ),
{
    let port = port_from_raw(row.local_port);
    ListeningPort {
        protocol: PortProtocol::Tcp,
        local_address: format_ipv4(row.local_addr),
        port,
        pid: Some(row.owning_pid),
        process_name: clone_opt(&image.name),
        executable_path: clone_opt(&image.path),
        status: owned("LISTENING"),
        risk: classify_risk(port),
        firewall_allowed: None,
    }
}

/// The listening-port row for a bound UDP socket.
pub fn udp_bound_port(row: &UdpRow, image: &ProcessImage) -> (p: ListeningPort)
    ensures
        port_row_matches(
            p,
            PortProtocol::Udp,
            row.local_addr,
            row.local_port,
            row.owning_pid,
            *image,
            "BOUND"@,
        ),
{
    let port = port_from_raw(row.local_port);
    ListeningPort {
        protocol: PortProtocol::Udp,
        local_address: format_ipv4(row.local_addr),
        port,
        pid: Some(row.owning_pid),
        process_name: clone_opt(&image.name),
        executable_path: clone_opt(&image.path),
        status: owned("BOUND"),
        risk: classify_risk(port),
        firewall_allowed: None,
    }
}

/// The positions of the listening rows among the first `n` TCP rows,
/// in order.
pub open spec fn listening_positions(rows: Seq<TcpRow>, n: int) -> Seq<int>
    decreases n,
{
    if n <= 0 {
        Seq::<int>::empty()
    } else if rows[n - 1].state == tcp_listen_state() {
        listening_positions(rows, n - 1).push(n - 1)
    } else {
        listening_positions(rows, n - 1)
    }
}

/// The rows of the listening-port table: every listening TCP socket in
/// table order, then every bound UDP socket in table order. `tcp_images`
/// and `udp_images` hold the resolved owner of each row.
pub fn enumerate_ports(
    tcp: &Vec<TcpRow>,
    tcp_images: &Vec<ProcessImage>,
    udp: &Vec<UdpRow>,
    udp_images: &Vec<ProcessImage>,
) -> (r: Vec<ListeningPort>)
    requires
        tcp_images.len() == tcp.len(),
        udp_images.len() == udp.len(),
    ensures
        ({
            let pos = listening_positions(tcp@, tcp@.len() as int);
            &&& r@.len() == pos.len() + udp@.len()
            &&& forall|k: int|
                0 <= k < pos.len() ==> port_row_matches(
                    #[trigger] r@[k],
                    PortProtocol::Tcp,
                    tcp@[pos[k]].local_addr,
                    tcp@[pos[k]].local_port,
                    tcp@[pos[k]].owning_pid,
                    tcp_images@[pos[k]],
                    "LISTENING"@,
                )
            &&& forall|k: int|
                0 <= k < udp@.len() ==> port_row_matches(
                    #[trigger] r@[pos.len() + k],
                    PortProtocol::Udp,
                    udp@[k].local_addr,
                    udp@[k].local_port,
                    udp@[k].owning_pid,
                    udp_images@[k],
                    "BOUND"@,
                )
        }),
{
    let mut r: Vec<ListeningPort> = Vec::new();
    let mut i: usize = 0;
    while i < tcp.len()
        invariant
            i <= tcp.len(),
            tcp_images.len() == tcp.len(),
            r@.len() == listening_positions(tcp@, i as int).len(),
            forall|k: int|
                0 <= k < r@.len() ==> port_row_matches(
                    #[trigger] r@[k],
                    PortProtocol::Tcp,
                    tcp@[listening_positions(tcp@, i as int)[k]].local_addr,
                    tcp@[listening_positions(tcp@, i as int)[k]].local_port,
                    tcp@[listening_positions(tcp@, i as int)[k]].owning_pid,
                    tcp_images@[listening_positions(tcp@, i as int)[k]],
                    "LISTENING"@,
                ),
        decreases tcp.len() - i,
    {
        if is_listening_tcp(&tcp[i]) {
            let p = tcp_listening_port(&tcp[i], &tcp_images[i]);
            r.push(p);
        }
        i = i + 1;
        assert(forall|k: int|
            0 <= k < listening_positions(tcp@, i - 1).len() ==> listening_positions(tcp@, i as int)[k]
                == listening_positions(tcp@, i - 1)[k]);
    }
    let ghost pos = listening_positions(tcp@, tcp@.len() as int);
    let ghost n_tcp = r@.len();
    let mut j: usize = 0;
    while j < udp.len()
        invariant
            j <= udp.len(),
            udp_images.len() == udp.len(),
            n_tcp == pos.len(),
            r@.len() == n_tcp + j,
            forall|k: int|
                0 <= k < n_tcp ==> port_row_matches(
                    #[trigger] r@[k],
                    PortProtocol::Tcp,
                    tcp@[pos[k]].local_addr,
                    tcp@[pos[k]].local_port,
                    tcp@[pos[k]].owning_pid,
                    tcp_images@[pos[k]],
                    "LISTENING"@,
                ),
            forall|k: int|
                0 <= k < j ==> port_row_matches(
                    #[trigger] r@[n_tcp + k],
                    PortProtocol::Udp,
                    udp@[k].local_addr,
                    udp@[k].local_port,
                    udp@[k].owning_pid,
                    udp_images@[k],
                    "BOUND"@,
                ),
        decreases udp.len() - j,
    {
        let p = udp_bound_port(&udp[j], &udp_images[j]);
        r.push(p);
        j = j + 1;
        assert(r@[n_tcp + (j - 1)] == p);
    }
    r
}

/// The error for a connection table that could not be read.
pub fn table_error(proto: &str, win32_err: u32) -> (e: AppError)
    ensures
        e.code@ == proto@ + "_TABLE_READ_FAILED"@,
        e.message@ == "Failed to read the "@ + proto@ + " connection table from Windows."@,
        e.details matches Some(d) && d@ == "Win32 error code "@ + dec(win32_err as nat),
        e.recoverable,
{
    let mut code = owned(proto);
    push_str(&mut code, "_TABLE_READ_FAILED");
    let mut message = owned("Failed to read the ");
    push_str(&mut message, proto);
    push_str(&mut message, " connection table from Windows.");
    let mut details = owned("Win32 error code ");
    push_decimal(&mut details, win32_err as u64);
    AppError { code, message, details: Some(details), recoverable: true }
}

// ---------------------------------------------------------------------
// Single-port firewall rules
// ---------------------------------------------------------------------

/// The name of the firewall rule behind a port action:
/// `VoidGuard - <Proto> <port> (<Direction>)`.
pub open spec fn port_rule_name_text(req: PortRuleRequest) -> Seq<char> {
    "VoidGuard - "@ + req.protocol.name_text() + " "@ + dec(req.port as nat) + " ("@
        + req.direction.name_text() + ")"@
}

/// Computes `port_rule_name_text`.
pub fn port_rule_name(req: &PortRuleRequest) -> (s: String)
    ensures
        s@ == port_rule_name_text(*req),
{
    let mut s = owned("VoidGuard - ");
    push_str(&mut s, req.protocol.debug_name());
    push_str(&mut s, " ");
    push_decimal(&mut s, req.port as u64);
    push_str(&mut s, " (");
    push_str(&mut s, req.direction.debug_name());
    push_str(&mut s, ")");
    s
}

/// The IP protocol number of a port protocol (TCP 6, UDP 17).
pub open spec fn ip_protocol_number(p: PortProtocol) -> i32 {
    match p {
        PortProtocol::Tcp => 6,
        PortProtocol::Udp => 17,
    }
}

/// A narrowly scoped allow rule for exactly one port, protocol and
/// direction, enabled for every profile.
#[derive(Debug, Clone)]
pub struct PortAllowRule {
    pub name: String,
    pub description: String,
    pub protocol_number: i32,
    pub local_ports: String,
    pub direction: PortDirection,
}

/// What a port action does to the firewall.
#[derive(Debug, Clone)]
pub enum PortRulePlan {
    /// Remove the named rule; a missing rule is not an error.
    Remove { rule_name: String },
    /// Add the allow rule.
    Add(PortAllowRule),
}

/// Plans the firewall change of an open (`allow`) or close port action:
/// close removes the rule named after the request, open adds an allow
/// rule with that name scoped to exactly the requested port, protocol
/// and direction.
pub fn plan_port_rule(req: &PortRuleRequest, allow: bool) -> (plan: PortRulePlan)
    ensures
        allow ==> (plan matches PortRulePlan::Add(rule) && rule.name@ == port_rule_name_text(*req)
            && rule.description@ == "Created by VoidGuard's port control panel."@
            && rule.protocol_number == ip_protocol_number(req.protocol) && rule.local_ports@
            == dec(req.port as nat) && rule.direction == req.direction),
        !allow ==> (plan matches PortRulePlan::Remove { rule_name } && rule_name@
            == port_rule_name_text(*req)),
{
    let name = port_rule_name(req);
    if !allow {
        return PortRulePlan::Remove { rule_name: name };
    }
    let protocol_number: i32 = match req.protocol {
        PortProtocol::Tcp => 6,
        PortProtocol::Udp => 17,
    };
    let mut local_ports = String::new();
    push_decimal(&mut local_ports, req.port as u64);
    assert(Seq::<char>::empty() + dec(req.port as nat) == dec(req.port as nat));
    PortRulePlan::Add(
        PortAllowRule {
            name,
            description: owned("Created by VoidGuard's port control panel."),
            protocol_number,
            local_ports,
            direction: req.direction,
        },
    )
}

/// The audit target of a port action: `<Proto> port <port> (<Direction>)`.
pub fn port_action_target(req: &PortRuleRequest) -> (s: String)
    ensures
        s@ == req.protocol.name_text() + " port "@ + dec(req.port as nat) + " ("@
            + req.direction.name_text() + ")"@,
{
    let mut s = owned(req.protocol.debug_name());
    push_str(&mut s, " port ");
    push_decimal(&mut s, req.port as u64);
    push_str(&mut s, " (");
    push_str(&mut s, req.direction.debug_name());
    push_str(&mut s, ")");
    s
}

/// The event text of an applied port action: `<ACTION> for <target>`.
pub fn port_action_event(action: &str, target: &str) -> (s: String)
    ensures
        s@ == action@ + " for "@ + target@,
{
    let mut s = owned(action);
    push_str(&mut s, " for ");
    push_str(&mut s, target);
    s
}

/// The audit target of terminating a port's owner: `port <port> (pid <pid>)`.
pub fn port_owner_target(port: u16, pid: u32) -> (s: String)
    ensures
        s@ == "port "@ + dec(port as nat) + " (pid "@ + dec(pid as nat) + ")"@,
{
    let mut s = owned("port ");
    push_decimal(&mut s, port as u64);
    push_str(&mut s, " (pid ");
    push_decimal(&mut s, pid as u64);
    push_str(&mut s, ")");
    s
}

/// The event text of terminating a port's owner.
pub fn port_owner_event(port: u16) -> (s: String)
    ensures
        s@ == "Process owning port "@ + dec(port as nat) + " was terminated by the user"@,
{
    let mut s = owned("Process owning port ");
    push_decimal(&mut s, port as u64);
    push_str(&mut s, " was terminated by the user");
    s
}

} // verus!
