//! Properties that span several operations of the library: what one
//! operation produces, another accepts; what every call keeps.
use vstd::prelude::*;

use crate::dns::{
    dns_rejection, given, ipv4_text_ok, static_servers, valid_octet,
};
use crate::models::monitoring::{StartupClassification, StartupEntry};
use crate::models::ports::{PortRisk, PortRuleRequest};
use crate::models::scan::ScanFinding;
use crate::models::system_control::StartupType;
use crate::models::{DnsMode, Severity};
use crate::ports::{ipv4_text, port_rule_name_text};
use crate::scan::{all_steps, any_high, count_levels, selected_steps, ScanStep};
use crate::files::category_of_change;
use crate::firewall::rule_protocol_number;
use crate::models::firewall::FirewallProtocol;
use crate::models::monitoring::FileChangeType;
use crate::models::EventCategory;
use crate::score::{
    clamp_percent, count_class, count_elevated, expected_score, finding_reasons, firewall_reasons,
    lemma_part_totals, lemma_signal_impacts, port_reasons, shown_reasons, signal_reasons,
    startup_reasons, total_impact, ScoreSignals,
};
use crate::services::{
    is_protected_name, lemma_protected_iff_listed, start_code_of, startup_of_start_code,
};
use crate::split::{
    join_with, lemma_split_append_piece, lemma_split_no_sep, lemma_split_nonempty, split_on,
};
use crate::startup::{
    classification_of, entry_key, is_new_entry, lemma_scripts_are_suspicious, suspicion_lines,
};
use crate::text::{
    all_digits, ascii_lower_seq, dec, eq_ignore_ascii_case, is_digit, lemma_dec_facts,
    lemma_dec_injective,
};

verus! {

// ---------------------------------------------------------------------
// Addresses
// ---------------------------------------------------------------------

/// A decimal rendering of a byte is a valid octet and holds no dot.
proof fn lemma_byte_octet(n: nat)
    requires
        n <= 255,
    ensures
        valid_octet(dec(n)),
        !dec(n).contains('.'),
{
    lemma_dec_facts(n);
    let d = dec(n);
    if n >= 10 {
        lemma_dec_facts(n / 10);
        assert(d.len() == dec(n / 10).len() + 1);
        if n / 10 >= 10 {
            assert(dec(n / 10).len() == dec(n / 100).len() + 1);
            assert(n / 100 < 10);
            lemma_dec_facts(n / 100);
        }
    }
    assert(d.len() <= 3);
    if d.contains('.') {
        let k = choose|k: int| 0 <= k < d.len() && d[k] == '.';
        assert(is_digit(d[k]));
    }
}

/// Every address the library renders as dotted text is accepted by the
/// strict IPv4 check: `is_valid_ipv4(&format_ipv4(a))` holds for every
/// `a`.
pub proof fn law_rendered_ipv4_is_valid(addr: u32)
    ensures
        ipv4_text_ok(ipv4_text(addr)),
{
    let d0 = dec((addr % 0x100) as nat);
    let d1 = dec(((addr / 0x100) % 0x100) as nat);
    let d2 = dec(((addr / 0x1_0000) % 0x100) as nat);
    let d3 = dec((addr / 0x100_0000) as nat);
    lemma_byte_octet((addr % 0x100) as nat);
    lemma_byte_octet(((addr / 0x100) % 0x100) as nat);
    lemma_byte_octet(((addr / 0x1_0000) % 0x100) as nat);
    lemma_byte_octet((addr / 0x100_0000) as nat);
    reveal_strlit(".");
    let dot = "."@;
    assert(d0 + dot == d0.push('.'));
    lemma_split_no_sep(d0, '.');
    lemma_split_append_piece(d0, d1, '.');
    let p1 = d0 + dot + d1;
    assert(p1 + dot == p1.push('.'));
    lemma_split_append_piece(p1, d2, '.');
    let p2 = p1 + dot + d2;
    assert(p2 + dot == p2.push('.'));
    lemma_split_append_piece(p2, d3, '.');
    assert(ipv4_text(addr) == p2 + dot + d3);
    let parts = split_on(ipv4_text(addr), '.');
    assert(parts =~= seq![d0, d1, d2, d3]);
    assert(forall|i: int| 0 <= i < 4 ==> valid_octet(#[trigger] parts[i])) by {
        assert(parts[0] == d0);
        assert(parts[1] == d1);
        assert(parts[2] == d2);
        assert(parts[3] == d3);
    }
}

/// A character other than the separator lies in some piece.
proof fn lemma_split_keeps_char(s: Seq<char>, sep: char, c: char)
    requires
        s.contains(c),
        c != sep,
    ensures
        exists|i: int| 0 <= i < split_on(s, sep).len() && (#[trigger] split_on(s, sep)[i]).contains(c),
    decreases s.len(),
{
    lemma_split_nonempty(s, sep);
    let init = s.drop_last();
    let rest = split_on(init, sep);
    lemma_split_nonempty(init, sep);
    let k = choose|k: int| 0 <= k < s.len() && s[k] == c;
    if k == s.len() - 1 {
        assert(s.last() == c);
        let last = rest.last().push(c);
        assert(split_on(s, sep)[rest.len() - 1] == last);
        assert(last[last.len() - 1] == c);
    } else {
        assert(init[k] == c);
        lemma_split_keeps_char(init, sep, c);
        let i = choose|i: int| 0 <= i < rest.len() && (#[trigger] rest[i]).contains(c);
        let j = choose|j: int| 0 <= j < rest[i].len() && rest[i][j] == c;
        if s.last() == sep {
            assert(split_on(s, sep)[i] == rest[i]);
        } else if i == rest.len() - 1 {
            let last = rest.last().push(s.last());
            assert(split_on(s, sep)[i] == last);
            assert(last[j] == c);
        } else {
            assert(split_on(s, sep)[i] == rest[i]);
        }
    }
}

/// A strict IPv4 literal holds no comma.
proof fn lemma_ipv4_has_no_comma(s: Seq<char>)
    requires
        ipv4_text_ok(s),
    ensures
        !s.contains(','),
{
    if s.contains(',') {
        lemma_split_keeps_char(s, '.', ',');
        let parts = split_on(s, '.');
        let i = choose|i: int| 0 <= i < parts.len() && (#[trigger] parts[i]).contains(',');
        let p = parts[i];
        assert(valid_octet(p));
        let j = choose|j: int| 0 <= j < p.len() && p[j] == ',';
        assert(is_digit(p[j]));
    }
}

/// An accepted DNS request hands the system only what was validated:
/// in static mode every server in the name-server list is a strict IPv4
/// literal, and the comma-joined list splits back into exactly the
/// requested servers, primary first.
pub proof fn law_accepted_dns_servers_are_valid(
    primary: Option<Seq<char>>,
    secondary: Option<Seq<char>>,
)
    requires
        dns_rejection(DnsMode::Static, primary, secondary) is None,
    ensures
        forall|i: int|
            0 <= i < static_servers(primary, secondary).len() ==> ipv4_text_ok(
                #[trigger] static_servers(primary, secondary)[i],
            ),
        split_on(join_with(static_servers(primary, secondary), ","@), ',') == static_servers(
            primary,
            secondary,
        ),
        static_servers(primary, secondary)[0] == given(primary)->0,
{
    reveal_strlit(",");
    let servers = static_servers(primary, secondary);
    let p = given(primary)->0;
    assert(servers[0] == p);
    lemma_ipv4_has_no_comma(p);
    lemma_split_no_sep(p, ',');
    assert(join_with(seq![p], ","@) == p);
    match given(secondary) {
        Some(q) => {
            lemma_ipv4_has_no_comma(q);
            assert(servers.drop_last() =~= seq![p]);
            assert(join_with(servers, ","@) == p + ","@ + q);
            assert(p + ","@ == p.push(','));
            lemma_split_append_piece(p, q, ',');
            assert(seq![p].push(q) =~= servers);
        },
        None => {},
    }
}

// ---------------------------------------------------------------------
// Scans
// ---------------------------------------------------------------------

/// The position of a step in the catalogue.
spec fn step_index(s: ScanStep) -> int {
    match s {
        ScanStep::Ports => 0,
        ScanStep::Firewall => 1,
        ScanStep::Startup => 2,
        ScanStep::Processes => 3,
        ScanStep::Services => 4,
        ScanStep::Adapters => 5,
        ScanStep::Files => 6,
    }
}

/// The first `n` catalogue steps that were asked for, each once.
proof fn lemma_selected_steps(keys: Seq<Seq<char>>, n: int)
    requires
        0 <= n <= 7,
    ensures
        forall|s: ScanStep|
            #[trigger] selected_steps(keys, n).contains(s) <==> (step_index(s) < n && keys.contains(
                s.key_text(),
            )),
        selected_steps(keys, n).no_duplicates(),
    decreases n,
{
    assert(forall|s: ScanStep| #[trigger] all_steps()[step_index(s)] == s);
    if n > 0 {
        lemma_selected_steps(keys, n - 1);
        let prev = selected_steps(keys, n - 1);
        let t = all_steps()[n - 1];
        assert(step_index(t) == n - 1);
        if keys.contains(t.key_text()) {
            let cur = prev.push(t);
            assert(selected_steps(keys, n) == cur);
            assert forall|s: ScanStep| #[trigger] cur.contains(s) <==> (step_index(s) < n
                && keys.contains(s.key_text())) by {
                if cur.contains(s) {
                    let k = choose|k: int| 0 <= k < cur.len() && cur[k] == s;
                    if k < prev.len() {
                        assert(prev[k] == s);
                        assert(prev.contains(s));
                    }
                }
                if step_index(s) < n && keys.contains(s.key_text()) {
                    if step_index(s) == n - 1 {
                        assert(s == t);
                        assert(cur[prev.len() as int] == t);
                    } else {
                        assert(prev.contains(s));
                        let k = choose|k: int| 0 <= k < prev.len() && prev[k] == s;
                        assert(cur[k] == s);
                    }
                }
            }
            assert(!prev.contains(t));
            assert forall|a: int, b: int|
                0 <= a < cur.len() && 0 <= b < cur.len() && a != b implies cur[a] != cur[b] by {
                if a < prev.len() && b < prev.len() {
                    assert(cur[a] == prev[a] && cur[b] == prev[b]);
                } else if a < prev.len() {
                    assert(cur[a] == prev[a]);
                    assert(prev.contains(prev[a]));
                } else if b < prev.len() {
                    assert(cur[b] == prev[b]);
                    assert(prev.contains(prev[b]));
                }
            }
        }
    }
}

/// A scan runs exactly the catalogue steps whose keys it was given, each
/// once, whatever the order and repetitions of the keys.
pub proof fn law_scan_runs_each_requested_step_once(keys: Seq<Seq<char>>, step: ScanStep)
    ensures
        selected_steps(keys, 7).contains(step) <==> keys.contains(step.key_text()),
        selected_steps(keys, 7).no_duplicates(),
{
    lemma_selected_steps(keys, 7);
}

/// The scan summary puts every finding in exactly one of its groups:
/// high/critical, medium and low/info together count every finding.
pub proof fn law_summary_counts_every_finding(fs: Seq<ScanFinding>)
    ensures
        count_levels(fs, 3, 4) + count_levels(fs, 2, 2) + count_levels(fs, 0, 1) == fs.len(),
    decreases fs.len(),
{
    if fs.len() > 0 {
        law_summary_counts_every_finding(fs.drop_last());
    }
}

// ---------------------------------------------------------------------
// Security score
// ---------------------------------------------------------------------

/// A security score lies in `0..=100`, always comes with at least one
/// reason, no reason raises it, it is 100 plus the impacts of its
/// reasons (clamped), and it is 100 exactly when no reason deducts
/// anything.
pub proof fn law_score_explained(sig: ScoreSignals)
    ensures
        0 <= expected_score(sig) <= 100,
        shown_reasons(sig).len() >= 1,
        forall|i: int| 0 <= i < shown_reasons(sig).len() ==> #[trigger] shown_reasons(sig)[i].1 <= 0,
        expected_score(sig) == clamp_percent(100 + total_impact(shown_reasons(sig))),
        expected_score(sig) == 100 <==> (forall|i: int|
            0 <= i < shown_reasons(sig).len() ==> #[trigger] shown_reasons(sig)[i].1 == 0),
{
    lemma_signal_impacts(sig);
    let rs = shown_reasons(sig);
    if signal_reasons(sig).len() == 0 {
        reveal_with_fuel(total_impact, 2);
        assert(total_impact(rs) == 0);
    }
    lemma_nonpositive_total(rs);
}

/// A sum of non-positive impacts is zero exactly when each is zero.
proof fn lemma_nonpositive_total(rs: Seq<(Seq<char>, int, Severity)>)
    requires
        forall|i: int| 0 <= i < rs.len() ==> #[trigger] rs[i].1 <= 0,
    ensures
        total_impact(rs) <= 0,
        total_impact(rs) == 0 <==> (forall|i: int| 0 <= i < rs.len() ==> #[trigger] rs[i].1 == 0),
    decreases rs.len(),
{
    if rs.len() > 0 {
        let init = rs.drop_last();
        assert forall|i: int| 0 <= i < init.len() implies #[trigger] init[i].1 <= 0 by {
            assert(init[i] == rs[i]);
        }
        lemma_nonpositive_total(init);
        assert(rs.last() == rs[rs.len() - 1]);
        if total_impact(rs) == 0 {
            assert forall|i: int| 0 <= i < rs.len() implies #[trigger] rs[i].1 == 0 by {
                if i < init.len() {
                    assert(init[i] == rs[i]);
                }
            }
        }
        if forall|i: int| 0 <= i < rs.len() ==> #[trigger] rs[i].1 == 0 {
            assert forall|i: int| 0 <= i < init.len() implies #[trigger] init[i].1 == 0 by {
                assert(init[i] == rs[i]);
            }
        }
    }
}

/// The score as 100 plus the closed-form deductions of each check.
proof fn lemma_score_parts(sig: ScoreSignals)
    ensures
        expected_score(sig) == clamp_percent(
            100 + total_impact(firewall_reasons(sig.firewall)) + total_impact(
                startup_reasons(sig.startup),
            ) + total_impact(port_reasons(sig.ports)) + total_impact(
                finding_reasons(sig.recent_high_findings),
            ),
        ),
{
    lemma_signal_impacts(sig);
}

/// More recent high/critical findings never raise the security score.
pub proof fn law_score_falls_with_findings(a: ScoreSignals, b: ScoreSignals)
    requires
        a.firewall == b.firewall,
        a.startup == b.startup,
        a.ports == b.ports,
        a.recent_high_findings <= b.recent_high_findings,
    ensures
        expected_score(b) <= expected_score(a),
{
    lemma_score_parts(a);
    lemma_score_parts(b);
    lemma_part_totals(a);
    lemma_part_totals(b);
}

/// One more startup entry never raises the security score.
pub proof fn law_score_falls_with_startup_entries(
    a: ScoreSignals,
    b: ScoreSignals,
    entry: StartupClassification,
)
    requires
        a.firewall == b.firewall,
        a.ports == b.ports,
        a.recent_high_findings == b.recent_high_findings,
        a.startup is Some,
        b.startup is Some,
        b.startup->0@ == a.startup->0@.push(entry),
    ensures
        expected_score(b) <= expected_score(a),
{
    lemma_score_parts(a);
    lemma_score_parts(b);
    lemma_part_totals(a);
    lemma_part_totals(b);
    let v = a.startup->0@;
    assert(v.push(entry).drop_last() == v);
    assert(count_class(v.push(entry), StartupClassification::Suspicious) >= count_class(
        v,
        StartupClassification::Suspicious,
    ));
    assert(count_class(v.push(entry), StartupClassification::Unknown) >= count_class(
        v,
        StartupClassification::Unknown,
    ));
}

/// One more listening port never raises the security score.
pub proof fn law_score_falls_with_ports(a: ScoreSignals, b: ScoreSignals, port: PortRisk)
    requires
        a.firewall == b.firewall,
        a.startup == b.startup,
        a.recent_high_findings == b.recent_high_findings,
        a.ports is Some,
        b.ports is Some,
        b.ports->0@ == a.ports->0@.push(port),
    ensures
        expected_score(b) <= expected_score(a),
{
    lemma_score_parts(a);
    lemma_score_parts(b);
    lemma_part_totals(a);
    lemma_part_totals(b);
    let v = a.ports->0@;
    assert(v.push(port).drop_last() == v);
    assert(count_elevated(v.push(port)) >= count_elevated(v));
}

// ---------------------------------------------------------------------
// Port rules
// ---------------------------------------------------------------------

/// Digits followed by a non-digit split apart in one way only.
proof fn lemma_digits_then_text(x: Seq<char>, r1: Seq<char>, y: Seq<char>, r2: Seq<char>)
    requires
        all_digits(x),
        all_digits(y),
        r1.len() > 0,
        r2.len() > 0,
        !is_digit(r1[0]),
        !is_digit(r2[0]),
        x + r1 == y + r2,
    ensures
        x == y,
        r1 == r2,
{
    if x.len() < y.len() {
        assert((x + r1)[x.len() as int] == r1[0]);
        assert((y + r2)[x.len() as int] == y[x.len() as int]);
        assert(is_digit(y[x.len() as int]));
    } else if y.len() < x.len() {
        assert((y + r2)[y.len() as int] == r2[0]);
        assert((x + r1)[y.len() as int] == x[y.len() as int]);
        assert(is_digit(x[y.len() as int]));
    }
    assert(x =~= (x + r1).subrange(0, x.len() as int));
    assert(y =~= (y + r2).subrange(0, y.len() as int));
    assert(r1 =~= (x + r1).subrange(x.len() as int, (x + r1).len() as int));
    assert(r2 =~= (y + r2).subrange(y.len() as int, (y + r2).len() as int));
}

/// Distinct port requests name distinct firewall rules, all under the
/// `VoidGuard - ` prefix, so closing one port never removes the rule
/// that opened another.
pub proof fn law_port_rule_names_distinct(a: PortRuleRequest, b: PortRuleRequest)
    requires
        a != b,
    ensures
        port_rule_name_text(a) != port_rule_name_text(b),
        port_rule_name_text(a).subrange(0, 12) == "VoidGuard - "@,
{
    reveal_strlit("VoidGuard - ");
    assert(port_rule_name_text(a).subrange(0, 12) =~= "VoidGuard - "@);
    reveal_strlit("Tcp");
    reveal_strlit("Udp");
    reveal_strlit(" ");
    reveal_strlit(" (");
    reveal_strlit("Inbound");
    reveal_strlit("Outbound");
    reveal_strlit(")");
    let head_a = "VoidGuard - "@ + a.protocol.name_text() + " "@;
    let head_b = "VoidGuard - "@ + b.protocol.name_text() + " "@;
    let rest_a = " ("@ + a.direction.name_text() + ")"@;
    let rest_b = " ("@ + b.direction.name_text() + ")"@;
    let da = dec(a.port as nat);
    let db = dec(b.port as nat);
    assert(port_rule_name_text(a) =~= head_a + (da + rest_a));
    assert(port_rule_name_text(b) =~= head_b + (db + rest_b));
    if port_rule_name_text(a) == port_rule_name_text(b) {
        let s = port_rule_name_text(a);
        assert(head_a.len() == 16 && head_b.len() == 16);
        assert(head_a =~= s.subrange(0, 16));
        assert(head_b =~= s.subrange(0, 16));
        assert(da + rest_a =~= s.subrange(16, s.len() as int));
        assert(db + rest_b =~= s.subrange(16, s.len() as int));
        assert(head_a[12] == head_b[12]);
        assert(a.protocol == b.protocol);
        lemma_dec_facts(a.port as nat);
        lemma_dec_facts(b.port as nat);
        assert(rest_a[0] == ' ' && rest_b[0] == ' ');
        lemma_digits_then_text(da, rest_a, db, rest_b);
        lemma_dec_injective(a.port as nat, b.port as nat);
        assert(rest_a[2] == rest_b[2]);
        assert(a.direction == b.direction);
    }
}

// ---------------------------------------------------------------------
// Services
// ---------------------------------------------------------------------

/// A startup type written to a service reads back as itself, except
/// that delayed automatic start reads back as plain automatic start.
pub proof fn law_startup_type_reads_back(t: StartupType)
    requires
        start_code_of(t) is Some,
    ensures
        startup_of_start_code(start_code_of(t)->0) == (if t == StartupType::AutomaticDelayed {
            StartupType::Automatic
        } else {
            t
        }),
{
}

/// Whether a service is protected does not depend on ASCII case.
pub proof fn law_protection_ignores_case(a: Seq<char>, b: Seq<char>)
    requires
        eq_ignore_ascii_case(a, b),
    ensures
        is_protected_name(a) == is_protected_name(b),
{
}

// ---------------------------------------------------------------------
// Startup entries
// ---------------------------------------------------------------------

/// A startup command is never labelled without evidence: it is Suspicious
/// exactly when it shows a reason for suspicion, otherwise Unknown; it
/// is never labelled Known; it always comes with at least one line of
/// evidence; and the label does not depend on ASCII case.
pub proof fn law_classification_has_evidence(command: Seq<char>, other: Seq<char>)
    ensures
        classification_of(command).1.len() >= 1,
        classification_of(command).0 != StartupClassification::Known,
        classification_of(command).0 == StartupClassification::Suspicious <==> suspicion_lines(
            command,
        ).len() > 0,
        ascii_lower_seq(command) == ascii_lower_seq(other) ==> classification_of(command)
            == classification_of(other),
{
}

/// The identities of a listing's entries.
pub open spec fn listing_keys(entries: Seq<StartupEntry>) -> Seq<(Seq<char>, Seq<char>)> {
    entries.map_values(|e: StartupEntry| entry_key(e))
}

/// Once a listing's entries are stored, syncing the same listing again
/// finds nothing new.
pub proof fn law_resync_finds_nothing_new(
    entries: Seq<StartupEntry>,
    known: Seq<(Seq<char>, Seq<char>)>,
    i: int,
)
    requires
        0 <= i < entries.len(),
    ensures
        !is_new_entry(entries, known + listing_keys(entries), i),
{
    let all = known + listing_keys(entries);
    assert(all[known.len() + i] == entry_key(entries[i]));
}

/// An entry whose identity is not stored yet is announced exactly once
/// in a listing: at its first occurrence, and at no later repetition.
pub proof fn law_unknown_entry_announced_once(
    entries: Seq<StartupEntry>,
    known: Seq<(Seq<char>, Seq<char>)>,
    i: int,
)
    requires
        0 <= i < entries.len(),
        !known.contains(entry_key(entries[i])),
    ensures
        exists|j: int|
            0 <= j <= i && entry_key(entries[j]) == entry_key(entries[i]) && #[trigger] is_new_entry(
                entries,
                known,
                j,
            ),
        forall|j: int|
            0 <= j < entries.len() && j != i && entry_key(entries[j]) == entry_key(entries[i])
                ==> !(#[trigger] is_new_entry(entries, known, j) && is_new_entry(entries, known, i)),
    decreases i,
{
    if forall|j: int| 0 <= j < i ==> entry_key(#[trigger] entries[j]) != entry_key(entries[i]) {
        assert(is_new_entry(entries, known, i));
    } else {
        let j = choose|j: int| 0 <= j < i && entry_key(#[trigger] entries[j]) == entry_key(entries[i]);
        law_unknown_entry_announced_once(entries, known, j);
        let k = choose|k: int|
            0 <= k <= j && entry_key(entries[k]) == entry_key(entries[j]) && #[trigger] is_new_entry(
                entries,
                known,
                k,
            );
        assert(is_new_entry(entries, known, k));
    }
    assert forall|j: int|
        0 <= j < entries.len() && j != i && entry_key(entries[j]) == entry_key(entries[i]) implies !(
        #[trigger] is_new_entry(entries, known, j) && is_new_entry(entries, known, i)) by {
        if j < i {
            assert(entry_key(entries[j]) == entry_key(entries[i]));
        } else {
            assert(entry_key(entries[i]) == entry_key(entries[j]));
        }
    }
}

// ---------------------------------------------------------------------
// What each decision is for
// ---------------------------------------------------------------------

/// The event recording a finished scan is High as soon as one finding is
/// at least High (High or Critical), and Info only when every finding is
/// below High.
pub proof fn law_scan_event_severity(fs: Seq<ScanFinding>)
    ensures
        (exists|i: int| 0 <= i < fs.len() && fs[i].severity.level() >= Severity::High.level())
            ==> (if any_high(fs) {
            Severity::High
        } else {
            Severity::Info
        }) == Severity::High,
        (exists|i: int|
            0 <= i < fs.len() && (fs[i].severity == Severity::High || fs[i].severity
                == Severity::Critical)) ==> any_high(fs),
        (forall|i: int| 0 <= i < fs.len() ==> fs[i].severity.level() < Severity::High.level())
            ==> (if any_high(fs) {
            Severity::High
        } else {
            Severity::Info
        }) == Severity::Info,
{
    if exists|i: int|
        0 <= i < fs.len() && (fs[i].severity == Severity::High || fs[i].severity
            == Severity::Critical) {
        let i = choose|i: int|
            0 <= i < fs.len() && (fs[i].severity == Severity::High || fs[i].severity
                == Severity::Critical);
        assert(fs[i].severity.level() >= 3);
    }
}

/// The timeline category of a file change names that same change, so
/// different changes never share a category.
pub proof fn law_file_category_names_change(c: FileChangeType, d: FileChangeType)
    ensures
        category_of_change(c) == EventCategory::FileCreated <==> c == FileChangeType::Created,
        category_of_change(c) == EventCategory::FileModified <==> c == FileChangeType::Modified,
        category_of_change(c) == EventCategory::FileDeleted <==> c == FileChangeType::Deleted,
        c != d ==> category_of_change(c) != category_of_change(d),
{
}

/// A planned rule carries the IANA number of its protocol (TCP 6, UDP
/// 17, any 256), so different protocols never share a number.
pub proof fn law_rule_protocol_numbers(p: FirewallProtocol, q: FirewallProtocol)
    ensures
        rule_protocol_number(FirewallProtocol::Tcp) == 6,
        rule_protocol_number(FirewallProtocol::Udp) == 17,
        rule_protocol_number(FirewallProtocol::Any) == 256,
        p != q ==> rule_protocol_number(p) != rule_protocol_number(q),
{
}

/// Every service Windows depends on is protected, whatever the ASCII
/// case it is written in: TrustedInstaller, WinDefend, wscsvc, SamSs,
/// gpsvc, RpcSs, DcomLaunch, LSM, Winmgmt, EventLog and Dnscache.
pub proof fn law_listed_services_are_protected(name: Seq<char>)
    ensures
        eq_ignore_ascii_case(name, "TrustedInstaller"@) ==> is_protected_name(name),
        eq_ignore_ascii_case(name, "WinDefend"@) ==> is_protected_name(name),
        eq_ignore_ascii_case(name, "wscsvc"@) ==> is_protected_name(name),
        eq_ignore_ascii_case(name, "SamSs"@) ==> is_protected_name(name),
        eq_ignore_ascii_case(name, "gpsvc"@) ==> is_protected_name(name),
        eq_ignore_ascii_case(name, "RpcSs"@) ==> is_protected_name(name),
        eq_ignore_ascii_case(name, "DcomLaunch"@) ==> is_protected_name(name),
        eq_ignore_ascii_case(name, "LSM"@) ==> is_protected_name(name),
        eq_ignore_ascii_case(name, "Winmgmt"@) ==> is_protected_name(name),
        eq_ignore_ascii_case(name, "EventLog"@) ==> is_protected_name(name),
        eq_ignore_ascii_case(name, "Dnscache"@) ==> is_protected_name(name),
{
    lemma_protected_iff_listed(name);
}

/// A command that runs a script file (its lower-cased text ends with
/// `.vbs`, `.js` or `.ps1`) is Suspicious, with the script-interpreter
/// line among its evidence.
pub proof fn law_scripts_are_suspicious(command: Seq<char>)
    requires
        ({
            let lower = ascii_lower_seq(command);
            ||| (lower.len() >= 4 && lower.subrange(lower.len() - 4, lower.len() as int) == ".vbs"@)
            ||| (lower.len() >= 3 && lower.subrange(lower.len() - 3, lower.len() as int) == ".js"@)
            ||| (lower.len() >= 4 && lower.subrange(lower.len() - 4, lower.len() as int) == ".ps1"@)
        }),
    ensures
        classification_of(command).0 == StartupClassification::Suspicious,
        classification_of(command).1.contains(
            "Uses a script interpreter rather than a compiled executable"@,
        ),
{
    lemma_scripts_are_suspicious(command);
}

} // verus!
