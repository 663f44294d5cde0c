//! Scans: which steps a scan type runs, what each step reports as
//! findings, the progress records and the summary of a finished scan.
use vstd::prelude::*;

use crate::models::firewall::FirewallRule;
use crate::models::monitoring::{StartupClassification, StartupEntry};
use crate::models::ports::{ListeningPort, PortRisk};
use crate::models::scan::{ScanFinding, ScanProgress, ScanType};
use crate::models::system_control::{NetworkAdapter, ServiceInfo, ServiceStatus};
use crate::models::Severity;
use crate::split::{join_strings, join_with, views};
use crate::text::{chars_eq, chars_of, dec, owned, push_decimal, push_str};

verus! {

// ---------------------------------------------------------------------
// Steps
// ---------------------------------------------------------------------

/// One unit of scan work: each step performs one real enumeration.
#[derive(Debug, Clone, Copy, PartialEq, Eq, Structural)]
pub enum ScanStep {
    Ports,
    Firewall,
    Startup,
    Processes,
    Services,
    Adapters,
    Files,
}

impl ScanStep {
    /// The key that selects the step.
    pub open spec fn key_text(self) -> Seq<char> {
        match self {
            ScanStep::Ports => "ports"@,
            ScanStep::Firewall => "firewall"@,
            ScanStep::Startup => "startup"@,
            ScanStep::Processes => "processes"@,
            ScanStep::Services => "services"@,
            ScanStep::Adapters => "adapters"@,
            ScanStep::Files => "files"@,
        }
    }

    /// The label shown while the step runs.
    pub open spec fn label_text(self) -> Seq<char> {
        match self {
            ScanStep::Ports => "Checking listening ports"@,
            ScanStep::Firewall => "Checking firewall rules"@,
            ScanStep::Startup => "Checking startup entries"@,
            ScanStep::Processes => "Checking running processes"@,
            ScanStep::Services => "Checking services"@,
            ScanStep::Adapters => "Checking network adapters"@,
            ScanStep::Files => "Checking recent file events"@,
        }
    }

    /// Computes `key_text`.
    pub fn key(&self) -> (s: &'static str)
        ensures
            s@ == self.key_text(),
    {
        match self {
            ScanStep::Ports => "ports",
            ScanStep::Firewall => "firewall",
            ScanStep::Startup => "startup",
            ScanStep::Processes => "processes",
            ScanStep::Services => "services",
            ScanStep::Adapters => "adapters",
            ScanStep::Files => "files",
        }
    }

    /// Computes `label_text`.
    pub fn label(&self) -> (s: &'static str)
        ensures
            s@ == self.label_text(),
    {
        match self {
            ScanStep::Ports => "Checking listening ports",
            ScanStep::Firewall => "Checking firewall rules",
            ScanStep::Startup => "Checking startup entries",
            ScanStep::Processes => "Checking running processes",
            ScanStep::Services => "Checking services",
            ScanStep::Adapters => "Checking network adapters",
            ScanStep::Files => "Checking recent file events",
        }
    }
}

/// The full catalogue of steps, in the order they run.
pub open spec fn all_steps() -> Seq<ScanStep> {
    seq![
        ScanStep::Ports,
        ScanStep::Firewall,
        ScanStep::Startup,
        ScanStep::Processes,
        ScanStep::Services,
        ScanStep::Adapters,
        ScanStep::Files,
    ]
}

/// The catalogue entry at a position.
fn catalogue(i: usize) -> (s: ScanStep)
    requires
        i < 7,
    ensures
        s == all_steps()[i as int],
{
    if i == 0 {
        ScanStep::Ports
    } else if i == 1 {
        ScanStep::Firewall
    } else if i == 2 {
        ScanStep::Startup
    } else if i == 3 {
        ScanStep::Processes
    } else if i == 4 {
        ScanStep::Services
    } else if i == 5 {
        ScanStep::Adapters
    } else {
        ScanStep::Files
    }
}

/// The step keys a scan type selects; a custom scan selects the keys it
/// was given (none when it was given no list).
pub open spec fn scan_keys(scan_type: ScanType, custom: Option<Seq<Seq<char>>>) -> Seq<Seq<char>> {
    match scan_type {
        ScanType::Quick => seq!["ports"@, "firewall"@, "startup"@],
        ScanType::System => seq!["processes"@, "services"@, "startup"@, "firewall"@],
        ScanType::Network => seq!["adapters"@, "ports"@],
        ScanType::Startup => seq!["startup"@],
        ScanType::Integrity => seq!["files"@],
        ScanType::Custom => match custom {
            Some(keys) => keys,
            None => Seq::empty(),
        },
    }
}

/// The first `n` catalogue steps whose key is among `keys`, in catalogue
/// order.
pub open spec fn selected_steps(keys: Seq<Seq<char>>, n: int) -> Seq<ScanStep>
    decreases n,
{
    if n <= 0 {
        Seq::empty()
    } else if keys.contains(all_steps()[n - 1].key_text()) {
        selected_steps(keys, n - 1).push(all_steps()[n - 1])
    } else {
        selected_steps(keys, n - 1)
    }
}

/// The view of an optional list of strings.
pub open spec fn opt_views(o: Option<Vec<String>>) -> Option<Seq<Seq<char>>> {
    match o {
        Some(v) => Some(views(v@)),
        None => None,
    }
}

/// The views of a list of string slices.
pub open spec fn str_views(v: Seq<&str>) -> Seq<Seq<char>> {
    v.map_values(|k: &str| k@)
}

/// `keys` holds `key`.
fn has_key(keys: &Vec<&str>, key: &str) -> (b: bool)
    ensures
        b == str_views(keys@).contains(key@),
{
    let kv = chars_of(key);
    let mut i: usize = 0;
    while i < keys.len()
        invariant
            i <= keys.len(),
            kv@ == key@,
            forall|j: int| 0 <= j < i ==> keys@[j]@ != key@,
        decreases keys.len() - i,
    {
        let c = chars_of(keys[i]);
        if chars_eq(&c, &kv) {
            assert(str_views(keys@)[i as int] == key@);
            return true;
        }
        i = i + 1;
    }
    let ghost m = str_views(keys@);
    assert(!m.contains(key@)) by {
        if m.contains(key@) {
            let j = choose|j: int| 0 <= j < m.len() && #[trigger] m[j] == key@;
            assert(keys@[j]@ == key@);
        }
    }
    false
}

/// The keys a scan type selects, as slices.
fn keys_for<'a>(scan_type: ScanType, custom: &'a Option<Vec<String>>) -> (r: Vec<&'a str>)
    ensures
        str_views(r@) == scan_keys(scan_type, opt_views(*custom)),
{
    let mut r: Vec<&'a str> = Vec::new();
    match scan_type {
        ScanType::Quick => {
            r.push("ports");
            r.push("firewall");
            r.push("startup");
        },
        ScanType::System => {
            r.push("processes");
            r.push("services");
            r.push("startup");
            r.push("firewall");
        },
        ScanType::Network => {
            r.push("adapters");
            r.push("ports");
        },
        ScanType::Startup => {
            r.push("startup");
        },
        ScanType::Integrity => {
            r.push("files");
        },
        ScanType::Custom => {
            match custom {
                Some(v) => {
                    let mut i: usize = 0;
                    while i < v.len()
                        invariant
                            i <= v.len(),
                            r@.len() == i,
                            str_views(r@) == views(v@.subrange(0, i as int)),
                        decreases v.len() - i,
                    {
                        let ghost before = r@;
                        let k: &str = v[i].as_str();
                        r.push(k);
                        assert(r@ == before.push(k));
                        assert(k@ == v@[i as int]@);
                        i = i + 1;
                        assert forall|j: int| 0 <= j < i implies #[trigger] str_views(r@)[j] == views(v@.subrange(0, i as int))[j] by {
                            if j < i - 1 {
                                assert(r@[j] == before[j]);
                                assert(str_views(before)[j] == views(v@.subrange(0, i - 1))[j]);
                                assert(v@.subrange(0, i - 1)[j] == v@.subrange(0, i as int)[j]);
                            } else {
                                assert(r@[j] == k);
                                assert(v@.subrange(0, i as int)[j] == v@[j]);
                            }
                        }
                        assert(str_views(r@) =~= views(v@.subrange(0, i as int)));
                    }
                    assert(v@.subrange(0, v.len() as int) == v@);
                },
                None => {},
            }
        },
    }
    assert(str_views(r@) =~= scan_keys(scan_type, opt_views(*custom)));
    r
}

/// The steps a scan runs, in catalogue order: the fixed subset of its
/// type, or for a custom scan the catalogue steps whose keys were given
/// (unknown keys select nothing, repeated keys select a step once).
pub fn steps_for(scan_type: ScanType, custom: &Option<Vec<String>>) -> (r: Vec<ScanStep>)
    ensures
        r@ == selected_steps(scan_keys(scan_type, opt_views(*custom)), 7),
{
    let keys = keys_for(scan_type, custom);
    let ghost kv = scan_keys(scan_type, opt_views(*custom));
    let mut r: Vec<ScanStep> = Vec::new();
    let mut i: usize = 0;
    while i < 7
        invariant
            i <= 7,
            str_views(keys@) == kv,
            r@ == selected_steps(kv, i as int),
        decreases 7 - i,
    {
        let s = catalogue(i);
        if has_key(&keys, s.key()) {
            r.push(s);
        }
        i = i + 1;
    }
    r
}

/// The step count a scan reports: the number of steps, at least one, as
/// a 32-bit count (taken modulo 2^32, as the conversion does).
pub fn total_steps(n: usize) -> (t: u32)
    ensures
        t == if n == 0 {
            1
        } else {
            n as nat % 0x1_0000_0000
        },
{
    if n == 0 {
        1
    } else {
        ((n as u64) % 0x1_0000_0000) as u32
    }
}

/// The progress record emitted after step `i` (counting from zero) of a
/// scan finished.
pub fn step_progress(
    scan_id: &str,
    step: ScanStep,
    i: u32,
    total_steps: u32,
    findings_so_far: u32,
) -> (p: ScanProgress)
    requires
        i < u32::MAX,
    ensures
        p.scan_id@ == scan_id@,
        p.step_label@ == step.label_text(),
        p.step_index == i + 1,
        p.total_steps == total_steps,
        p.findings_so_far == findings_so_far,
{
    ScanProgress {
        scan_id: owned(scan_id),
        step_label: owned(step.label()),
        step_index: i + 1,
        total_steps,
        findings_so_far,
    }
}

/// Adds the findings of step `i` (counting from zero) to those of the
/// scan so far, in order, and returns the progress record for it, whose
/// count of findings so far is taken modulo 2^32 as the conversion does.
pub fn record_step(
    findings: &mut Vec<ScanFinding>,
    step_findings: Vec<ScanFinding>,
    scan_id: &str,
    step: ScanStep,
    i: u32,
    total_steps: u32,
) -> (p: ScanProgress)
    requires
        i < u32::MAX,
    ensures
        final(findings)@ == old(findings)@ + step_findings@,
        p.scan_id@ == scan_id@,
        p.step_label@ == step.label_text(),
        p.step_index == i + 1,
        p.total_steps == total_steps,
        p.findings_so_far as nat == final(findings)@.len() % 0x1_0000_0000,
{
    let mut added = step_findings;
    findings.append(&mut added);
    let so_far = ((findings.len() as u64) % 0x1_0000_0000) as u32;
    step_progress(scan_id, step, i, total_steps, so_far)
}

// ---------------------------------------------------------------------
// Findings of each step
// ---------------------------------------------------------------------

/// A finding as plain values: label, detail, severity.
pub open spec fn finding_view(f: ScanFinding) -> (Seq<char>, Seq<char>, Severity) {
    (f.label@, f.detail@, f.severity)
}

/// The views of a list of findings.
pub open spec fn findings_view(fs: Seq<ScanFinding>) -> Seq<(Seq<char>, Seq<char>, Severity)> {
    fs.map_values(|f: ScanFinding| finding_view(f))
}

/// `Some(<n>)` or `None`, as `{:?}` prints an optional number.
pub open spec fn opt_u32_debug(o: Option<u32>) -> Seq<char> {
    match o {
        Some(n) => "Some("@ + dec(n as nat) + ")"@,
        None => "None"@,
    }
}

/// The finding for a listening port outside the low-risk set.
pub open spec fn port_finding(p: ListeningPort) -> (Seq<char>, Seq<char>, Severity) {
    (
        p.protocol.name_text() + " port "@ + dec(p.port as nat) + " is listening"@,
        "Owned by "@ + (match p.process_name {
            Some(n) => n@,
            None => "unknown"@,
        }) + " (PID "@ + opt_u32_debug(p.pid) + ") \u{2014} risk: "@ + p.risk.name_text(),
        if p.risk == PortRisk::High {
            Severity::High
        } else {
            Severity::Medium
        },
    )
}

/// The findings of the ports step: one per port whose risk is not Low.
pub open spec fn port_findings(ps: Seq<ListeningPort>) -> Seq<(Seq<char>, Seq<char>, Severity)>
    decreases ps.len(),
{
    if ps.len() == 0 {
        Seq::empty()
    } else if ps.last().risk != PortRisk::Low {
        port_findings(ps.drop_last()).push(port_finding(ps.last()))
    } else {
        port_findings(ps.drop_last())
    }
}

fn push_opt_u32_debug(s: &mut String, o: Option<u32>)
    ensures
        final(s)@ == old(s)@ + opt_u32_debug(o),
{
    match o {
        Some(n) => {
            push_str(s, "Some(");
            push_decimal(s, n as u64);
            push_str(s, ")");
        },
        None => {
            push_str(s, "None");
        },
    }
}

fn make_port_finding(p: &ListeningPort) -> (f: ScanFinding)
    ensures
        finding_view(f) == port_finding(*p),
{
    let mut label = owned(p.protocol.debug_name());
    push_str(&mut label, " port ");
    push_decimal(&mut label, p.port as u64);
    push_str(&mut label, " is listening");
    let mut detail = owned("Owned by ");
    match &p.process_name {
        Some(n) => push_str(&mut detail, n.as_str()),
        None => push_str(&mut detail, "unknown"),
    }
    push_str(&mut detail, " (PID ");
    push_opt_u32_debug(&mut detail, p.pid);
    push_str(&mut detail, ") \u{2014} risk: ");
    push_str(&mut detail, p.risk.debug_name());
    let severity = if p.risk == PortRisk::High {
        Severity::High
    } else {
        Severity::Medium
    };
    ScanFinding { label, detail, severity }
}

/// The findings of the ports step.
pub fn ports_step_findings(ports: &Vec<ListeningPort>) -> (r: Vec<ScanFinding>)
    ensures
        findings_view(r@) == port_findings(ports@),
{
    let mut r: Vec<ScanFinding> = Vec::new();
    let mut i: usize = 0;
    while i < ports.len()
        invariant
            i <= ports.len(),
            findings_view(r@) == port_findings(ports@.subrange(0, i as int)),
        decreases ports.len() - i,
    {
        assert(ports@.subrange(0, i + 1).drop_last() == ports@.subrange(0, i as int));
        if ports[i].risk != PortRisk::Low {
            let f = make_port_finding(&ports[i]);
            r.push(f);
        }
        i = i + 1;
        assert(findings_view(r@) =~= port_findings(ports@.subrange(0, i as int)));
    }
    assert(ports@.subrange(0, ports.len() as int) == ports@);
    r
}

/// The findings of the firewall step: one per disabled managed rule.
pub open spec fn firewall_findings(rs: Seq<FirewallRule>) -> Seq<(Seq<char>, Seq<char>, Severity)>
    decreases rs.len(),
{
    if rs.len() == 0 {
        Seq::empty()
    } else if !rs.last().enabled {
        firewall_findings(rs.drop_last()).push(
            (
                "Firewall rule '"@ + rs.last().name@ + "' is disabled"@,
                "A VoidGuard-managed rule is currently disabled."@,
                Severity::Low,
            ),
        )
    } else {
        firewall_findings(rs.drop_last())
    }
}

/// The findings of the firewall step.
pub fn firewall_step_findings(rules: &Vec<FirewallRule>) -> (r: Vec<ScanFinding>)
    ensures
        findings_view(r@) == firewall_findings(rules@),
{
    let mut r: Vec<ScanFinding> = Vec::new();
    let mut i: usize = 0;
    while i < rules.len()
        invariant
            i <= rules.len(),
            findings_view(r@) == firewall_findings(rules@.subrange(0, i as int)),
        decreases rules.len() - i,
    {
        assert(rules@.subrange(0, i + 1).drop_last() == rules@.subrange(0, i as int));
        if !rules[i].enabled {
            let mut label = owned("Firewall rule '");
            push_str(&mut label, rules[i].name.as_str());
            push_str(&mut label, "' is disabled");
            r.push(
                ScanFinding {
                    label,
                    detail: owned("A VoidGuard-managed rule is currently disabled."),
                    severity: Severity::Low,
                },
            );
        }
        i = i + 1;
        assert(findings_view(r@) =~= firewall_findings(rules@.subrange(0, i as int)));
    }
    assert(rules@.subrange(0, rules.len() as int) == rules@);
    r
}

/// The findings of the startup step: one per entry not classified Known,
/// with its evidence joined by `"; "`.
pub open spec fn startup_findings(es: Seq<StartupEntry>) -> Seq<(Seq<char>, Seq<char>, Severity)>
    decreases es.len(),
{
    if es.len() == 0 {
        Seq::empty()
    } else if es.last().classification != StartupClassification::Known {
        startup_findings(es.drop_last()).push(
            (
                "Startup entry '"@ + es.last().name@ + "' is "@
                    + es.last().classification.name_text(),
                join_with(views(es.last().evidence@), "; "@),
                if es.last().classification == StartupClassification::Suspicious {
                    Severity::High
                } else {
                    Severity::Medium
                },
            ),
        )
    } else {
        startup_findings(es.drop_last())
    }
}

/// The findings of the startup step.
pub fn startup_step_findings(entries: &Vec<StartupEntry>) -> (r: Vec<ScanFinding>)
    ensures
        findings_view(r@) == startup_findings(entries@),
{
    let mut r: Vec<ScanFinding> = Vec::new();
    let mut i: usize = 0;
    while i < entries.len()
        invariant
            i <= entries.len(),
            findings_view(r@) == startup_findings(entries@.subrange(0, i as int)),
        decreases entries.len() - i,
    {
        assert(entries@.subrange(0, i + 1).drop_last() == entries@.subrange(0, i as int));
        let e = &entries[i];
        if e.classification != StartupClassification::Known {
            let mut label = owned("Startup entry '");
            push_str(&mut label, e.name.as_str());
            push_str(&mut label, "' is ");
            push_str(&mut label, e.classification.debug_name());
            let detail = join_strings(&e.evidence, "; ");
            let severity = if e.classification == StartupClassification::Suspicious {
                Severity::High
            } else {
                Severity::Medium
            };
            r.push(ScanFinding { label, detail, severity });
        }
        i = i + 1;
        assert(findings_view(r@) =~= startup_findings(entries@.subrange(0, i as int)));
    }
    assert(entries@.subrange(0, entries.len() as int) == entries@);
    r
}

/// The finding of the processes step: how many processes run.
pub fn processes_step_findings(process_count: usize) -> (r: Vec<ScanFinding>)
    ensures
        findings_view(r@) == seq![
            (
                dec(process_count as nat) + " processes currently running"@,
                "Signature/publisher checking isn't implemented yet, so processes aren't individually flagged here."@,
                Severity::Info,
            ),
        ],
{
    let mut label = String::new();
    push_decimal(&mut label, process_count as u64);
    push_str(&mut label, " processes currently running");
    assert(Seq::<char>::empty() + dec(process_count as nat) == dec(process_count as nat));
    let mut r: Vec<ScanFinding> = Vec::new();
    r.push(
        ScanFinding {
            label,
            detail: owned(
                "Signature/publisher checking isn't implemented yet, so processes aren't individually flagged here.",
            ),
            severity: Severity::Info,
        },
    );
    assert(findings_view(r@) =~= seq![
        (
            dec(process_count as nat) + " processes currently running"@,
            "Signature/publisher checking isn't implemented yet, so processes aren't individually flagged here."@,
            Severity::Info,
        ),
    ]);
    r
}

/// The findings of the services step: one per protected service that is
/// not running.
pub open spec fn service_findings(ss: Seq<ServiceInfo>) -> Seq<(Seq<char>, Seq<char>, Severity)>
    decreases ss.len(),
{
    if ss.len() == 0 {
        Seq::empty()
    } else if ss.last().protected && ss.last().status != ServiceStatus::Running {
        service_findings(ss.drop_last()).push(
            (
                "Protected service '"@ + ss.last().display_name@ + "' is not running"@,
                "Status: "@ + ss.last().status.name_text(),
                Severity::High,
            ),
        )
    } else {
        service_findings(ss.drop_last())
    }
}

/// The findings of the services step.
pub fn services_step_findings(services: &Vec<ServiceInfo>) -> (r: Vec<ScanFinding>)
    ensures
        findings_view(r@) == service_findings(services@),
{
    let mut r: Vec<ScanFinding> = Vec::new();
    let mut i: usize = 0;
    while i < services.len()
        invariant
            i <= services.len(),
            findings_view(r@) == service_findings(services@.subrange(0, i as int)),
        decreases services.len() - i,
    {
        assert(services@.subrange(0, i + 1).drop_last() == services@.subrange(0, i as int));
        let s = &services[i];
        if s.protected && s.status != ServiceStatus::Running {
            let mut label = owned("Protected service '");
            push_str(&mut label, s.display_name.as_str());
            push_str(&mut label, "' is not running");
            let mut detail = owned("Status: ");
            push_str(&mut detail, s.status.debug_name());
            r.push(ScanFinding { label, detail, severity: Severity::High });
        }
        i = i + 1;
        assert(findings_view(r@) =~= service_findings(services@.subrange(0, i as int)));
    }
    assert(services@.subrange(0, services.len() as int) == services@);
    r
}

/// `<name> (<status>)` for each adapter.
pub open spec fn adapter_briefs(adapters: Seq<NetworkAdapter>) -> Seq<Seq<char>> {
    adapters.map_values(|a: NetworkAdapter| a.name@ + " ("@ + a.status@ + ")"@)
}

/// The finding of the adapters step: how many adapters exist, with each
/// one's name and status.
pub fn adapters_step_findings(adapters: &Vec<NetworkAdapter>) -> (r: Vec<ScanFinding>)
    ensures
        findings_view(r@) == seq![
            (
                dec(adapters@.len()) + " network adapter(s) found"@,
                join_with(adapter_briefs(adapters@), ", "@),
                Severity::Info,
            ),
        ],
{
    let mut briefs: Vec<String> = Vec::new();
    let mut i: usize = 0;
    while i < adapters.len()
        invariant
            i <= adapters.len(),
            briefs@.len() == i,
            views(briefs@) == adapter_briefs(adapters@.subrange(0, i as int)),
        decreases adapters.len() - i,
    {
        let mut b = adapters[i].name.clone();
        push_str(&mut b, " (");
        push_str(&mut b, adapters[i].status.as_str());
        push_str(&mut b, ")");
        let ghost before = briefs@;
        let ghost bv = b@;
        assert(bv == adapters@[i as int].name@ + " ("@ + adapters@[i as int].status@ + ")"@);
        briefs.push(b);
        i = i + 1;
        assert forall|j: int| 0 <= j < i implies #[trigger] views(briefs@)[j] == adapter_briefs(
            adapters@.subrange(0, i as int),
        )[j] by {
            if j < i - 1 {
                assert(briefs@[j] == before[j]);
                assert(views(before)[j] == adapter_briefs(adapters@.subrange(0, i - 1))[j]);
                assert(adapters@.subrange(0, i as int)[j] == adapters@.subrange(0, i - 1)[j]);
            } else {
                assert(briefs@[j]@ == bv);
                assert(adapters@.subrange(0, i as int)[j] == adapters@[j]);
            }
        }
        assert(views(briefs@) =~= adapter_briefs(adapters@.subrange(0, i as int)));
    }
    assert(adapters@.subrange(0, adapters.len() as int) == adapters@);
    let mut label = String::new();
    push_decimal(&mut label, adapters.len() as u64);
    push_str(&mut label, " network adapter(s) found");
    assert(Seq::<char>::empty() + dec(adapters@.len()) == dec(adapters@.len()));
    let detail = join_strings(&briefs, ", ");
    let mut r: Vec<ScanFinding> = Vec::new();
    r.push(ScanFinding { label, detail, severity: Severity::Info });
    assert(findings_view(r@) =~= seq![
        (
            dec(adapters@.len()) + " network adapter(s) found"@,
            join_with(adapter_briefs(adapters@), ", "@),
            Severity::Info,
        ),
    ]);
    r
}

/// The finding of the files step: how many recent file events exist in
/// watched locations, or nothing when there are none.
pub fn files_step_findings(event_count: usize) -> (r: Vec<ScanFinding>)
    ensures
        event_count == 0 ==> r@.len() == 0,
        event_count > 0 ==> findings_view(r@) == seq![
            (
                dec(event_count as nat) + " file event(s) in watched locations recently"@,
                "See the Files page for the full list."@,
                Severity::Low,
            ),
        ],
{
    let mut r: Vec<ScanFinding> = Vec::new();
    if event_count > 0 {
        let mut label = String::new();
        push_decimal(&mut label, event_count as u64);
        push_str(&mut label, " file event(s) in watched locations recently");
        assert(Seq::<char>::empty() + dec(event_count as nat) == dec(event_count as nat));
        r.push(
            ScanFinding {
                label,
                detail: owned("See the Files page for the full list."),
                severity: Severity::Low,
            },
        );
        assert(findings_view(r@) =~= seq![
            (
                dec(event_count as nat) + " file event(s) in watched locations recently"@,
                "See the Files page for the full list."@,
                Severity::Low,
            ),
        ]);
    }
    r
}

// ---------------------------------------------------------------------
// Summary
// ---------------------------------------------------------------------

/// The number of findings whose severity level lies in `lo..=hi`.
pub open spec fn count_levels(fs: Seq<ScanFinding>, lo: nat, hi: nat) -> nat
    decreases fs.len(),
{
    if fs.len() == 0 {
        0
    } else {
        count_levels(fs.drop_last(), lo, hi) + if lo <= fs.last().severity.level() <= hi {
            1nat
        } else {
            0nat
        }
    }
}

/// Counts the findings whose severity level lies in `lo..=hi`.
fn count_findings(fs: &Vec<ScanFinding>, lo: u8, hi: u8) -> (n: usize)
    ensures
        n == count_levels(fs@, lo as nat, hi as nat),
        n <= fs@.len(),
{
    let mut n: usize = 0;
    let mut i: usize = 0;
    while i < fs.len()
        invariant
            i <= fs.len(),
            n == count_levels(fs@.subrange(0, i as int), lo as nat, hi as nat),
            n <= i,
        decreases fs.len() - i,
    {
        assert(fs@.subrange(0, i + 1).drop_last() == fs@.subrange(0, i as int));
        let r = fs[i].severity.rank();
        if lo <= r && r <= hi {
            n = n + 1;
        }
        i = i + 1;
    }
    assert(fs@.subrange(0, fs.len() as int) == fs@);
    n
}

/// The summary text of a finished scan: a fixed sentence without
/// findings, otherwise the number of findings split into high/critical,
/// medium and low/info.
pub open spec fn summary_text(fs: Seq<ScanFinding>) -> Seq<char> {
    if fs.len() == 0 {
        "No findings \u{2014} nothing stood out in this scan."@
    } else {
        dec(fs.len()) + " finding(s): "@ + dec(count_levels(fs, 3, 4)) + " high/critical, "@
            + dec(count_levels(fs, 2, 2)) + " medium, "@ + dec(count_levels(fs, 0, 1))
            + " low/info."@
    }
}

/// Computes the summary text of a finished scan.
pub fn scan_summary(findings: &Vec<ScanFinding>) -> (s: String)
    ensures
        s@ == summary_text(findings@),
{
    if findings.len() == 0 {
        return owned("No findings \u{2014} nothing stood out in this scan.");
    }
    let mut s = String::new();
    push_decimal(&mut s, findings.len() as u64);
    push_str(&mut s, " finding(s): ");
    push_decimal(&mut s, count_findings(findings, 3, 4) as u64);
    push_str(&mut s, " high/critical, ");
    push_decimal(&mut s, count_findings(findings, 2, 2) as u64);
    push_str(&mut s, " medium, ");
    push_decimal(&mut s, count_findings(findings, 0, 1) as u64);
    push_str(&mut s, " low/info.");
    assert(Seq::<char>::empty() + dec(findings@.len()) == dec(findings@.len()));
    s
}

/// Some finding is High or Critical.
pub open spec fn any_high(fs: Seq<ScanFinding>) -> bool {
    exists|i: int| 0 <= i < fs.len() && fs[i].severity.level() >= 3
}

/// The severity of the event that records a finished scan: High when a
/// finding is at least High, Info otherwise.
pub fn scan_event_severity(findings: &Vec<ScanFinding>) -> (s: Severity)
    ensures
        s == if any_high(findings@) {
            Severity::High
        } else {
            Severity::Info
        },
        (exists|i: int|
            0 <= i < findings@.len() && findings@[i].severity.level() >= Severity::High.level())
            ==> s == Severity::High,
        (forall|i: int|
            0 <= i < findings@.len() ==> findings@[i].severity.level() < Severity::High.level())
            ==> s == Severity::Info,
{
    let mut i: usize = 0;
    while i < findings.len()
        invariant
            i <= findings.len(),
            forall|j: int| 0 <= j < i ==> findings@[j].severity.level() < 3,
        decreases findings.len() - i,
    {
        if findings[i].severity.rank() >= 3 {
            return Severity::High;
        }
        i = i + 1;
    }
    Severity::Info
}

/// The audit target of a scan: `<Type> scan`.
pub fn scan_audit_target(scan_type: ScanType) -> (s: String)
    ensures
        s@ == scan_type.name_text() + " scan"@,
{
    let mut s = owned(scan_type.debug_name());
    push_str(&mut s, " scan");
    s
}

/// The event text of a finished scan: `<Type> scan completed: <summary>`.
pub fn scan_event_description(scan_type: ScanType, summary: &str) -> (s: String)
    ensures
        s@ == scan_type.name_text() + " scan completed: "@ + summary@,
{
    let mut s = owned(scan_type.debug_name());
    push_str(&mut s, " scan completed: ");
    push_str(&mut s, summary);
    s
}

} // verus!
