//! Firewall rule management: validating a new rule's name, describing
//! it for the audit trail, planning the rule object handed to the
//! firewall, and the texts of the audit entries, events and errors.
use vstd::prelude::*;

use crate::models::firewall::{CreateFirewallRuleRequest, FirewallAction, FirewallProtocol};
use crate::models::ports::PortDirection;
use crate::models::AppError;
use crate::text::{owned, push_str, trim, trimmed, utf8_len, utf8_len_capped};

verus! {

/// A rule name is acceptable: after trimming whitespace it has between
/// 1 and 200 bytes of UTF-8.
pub open spec fn rule_name_ok(name: Seq<char>) -> bool {
    trim(name).len() > 0 && utf8_len(trim(name)) <= 200
}

/// Checks a new rule's name: once surrounding whitespace is removed, it
/// is non-empty and at most 200 bytes long in UTF-8 (the error message
/// speaks of characters; the count is in bytes).
pub fn validate_rule_name(name: &str) -> (r: Result<(), AppError>)
    ensures
        r is Ok <==> rule_name_ok(name@),
        r matches Err(e) ==> e.code@ == "FIREWALL_VALIDATION_FAILED"@ && e.message@
            == "Rule name must be between 1 and 200 characters."@ && e.details is None
            && !e.recoverable,
{
    let t = trimmed(name);
    let n = utf8_len_capped(&t, 200);
    proof {
        crate::text::lemma_utf8_len_bounds(t@);
    }
    if t.len() == 0 || n > 200 {
        return Err(
            AppError::plain(
                "FIREWALL_VALIDATION_FAILED",
                "Rule name must be between 1 and 200 characters.",
                false,
            ),
        );
    }
    Ok(())
}

/// An optional text, or `any` when it is absent.
pub open spec fn or_any(o: Option<String>) -> Seq<char> {
    match o {
        Some(s) => s@,
        None => "any"@,
    }
}

fn push_or_any(s: &mut String, o: &Option<String>)
    ensures
        final(s)@ == old(s)@ + or_any(*o),
{
    match o {
        Some(t) => push_str(s, t.as_str()),
        None => push_str(s, "any"),
    }
}

/// The audit description of a new rule:
/// `<Action> <Direction> <Protocol> local=<ports> remote=<addresses> app=<path>`.
pub open spec fn rule_description_text(req: CreateFirewallRuleRequest) -> Seq<char> {
    req.action.name_text() + " "@ + req.direction.name_text() + " "@ + req.protocol.name_text()
        + " local="@ + or_any(req.local_ports) + " remote="@ + or_any(req.remote_addresses)
        + " app="@ + or_any(req.application_path)
}

/// Describes a new rule for the audit trail.
pub fn describe_rule(req: &CreateFirewallRuleRequest) -> (s: String)
    ensures
        s@ == rule_description_text(*req),
{
    let mut s = owned(req.action.debug_name());
    push_str(&mut s, " ");
    push_str(&mut s, req.direction.debug_name());
    push_str(&mut s, " ");
    push_str(&mut s, req.protocol.debug_name());
    push_str(&mut s, " local=");
    push_or_any(&mut s, &req.local_ports);
    push_str(&mut s, " remote=");
    push_or_any(&mut s, &req.remote_addresses);
    push_str(&mut s, " app=");
    push_or_any(&mut s, &req.application_path);
    s
}

/// The IP protocol number of a rule protocol: TCP 6, UDP 17, any 256.
pub open spec fn rule_protocol_number(p: FirewallProtocol) -> i32 {
    match p {
        FirewallProtocol::Tcp => 6,
        FirewallProtocol::Udp => 17,
        FirewallProtocol::Any => 256,
    }
}

/// An optional scope that is set on the rule: present and non-empty.
pub open spec fn set_scope(o: Option<String>) -> Option<Seq<char>> {
    match o {
        Some(s) => if s@.len() > 0 {
            Some(s@)
        } else {
            None
        },
        None => None,
    }
}

/// The view of an optional string.
pub open spec fn opt_text(o: Option<String>) -> Option<Seq<char>> {
    match o {
        Some(s) => Some(s@),
        None => None,
    }
}

/// The rule object handed to the firewall, enabled for every profile.
#[derive(Debug, Clone)]
pub struct FirewallRulePlan {
    pub name: String,
    pub description: Option<String>,
    pub protocol_number: i32,
    /// Set only when given and non-empty.
    pub local_ports: Option<String>,
    /// Set only when given and non-empty.
    pub remote_ports: Option<String>,
    /// Set only when given and non-empty.
    pub remote_addresses: Option<String>,
    /// Set only when given and non-empty.
    pub application_path: Option<String>,
    pub direction: PortDirection,
    pub action: FirewallAction,
    pub enabled: bool,
}

fn scope(o: &Option<String>) -> (r: Option<String>)
    ensures
        opt_text(r) == set_scope(*o),
{
    match o {
        Some(s) => {
            if s.as_str().is_empty() {
                None
            } else {
                Some(s.clone())
            }
        },
        None => None,
    }
}

/// Plans the rule object for a creation request: its name, description,
/// protocol number, the scopes that are given and non-empty, direction,
/// action and enabled state.
pub fn plan_firewall_rule(req: &CreateFirewallRuleRequest) -> (p: FirewallRulePlan)
    ensures
        p.name@ == req.name@,
        opt_text(p.description) == opt_text(req.description),
        p.protocol_number == rule_protocol_number(req.protocol),
        req.protocol == FirewallProtocol::Tcp ==> p.protocol_number == 6,
        req.protocol == FirewallProtocol::Udp ==> p.protocol_number == 17,
        req.protocol == FirewallProtocol::Any ==> p.protocol_number == 256,
        opt_text(p.local_ports) == set_scope(req.local_ports),
        opt_text(p.remote_ports) == set_scope(req.remote_ports),
        opt_text(p.remote_addresses) == set_scope(req.remote_addresses),
        opt_text(p.application_path) == set_scope(req.application_path),
        p.direction == req.direction,
        p.action == req.action,
        p.enabled == req.enabled,
{
    let description = match &req.description {
        Some(d) => Some(d.clone()),
        None => None,
    };
    let protocol_number: i32 = match req.protocol {
        FirewallProtocol::Tcp => 6,
        FirewallProtocol::Udp => 17,
        FirewallProtocol::Any => 256,
    };
    FirewallRulePlan {
        name: req.name.clone(),
        description,
        protocol_number,
        local_ports: scope(&req.local_ports),
        remote_ports: scope(&req.remote_ports),
        remote_addresses: scope(&req.remote_addresses),
        application_path: scope(&req.application_path),
        direction: req.direction,
        action: req.action,
        enabled: req.enabled,
    }
}

/// The audit "after" text of enabling or disabling a rule.
pub fn enabled_state_text(enabled: bool) -> (s: String)
    ensures
        s@ == if enabled {
            "ENABLED"@
        } else {
            "DISABLED"@
        },
{
    if enabled {
        owned("ENABLED")
    } else {
        owned("DISABLED")
    }
}

/// The event text of a rule change: `Firewall rule '<name>' <what>`.
pub fn rule_event_text(name: &str, what: &str) -> (s: String)
    ensures
        s@ == "Firewall rule '"@ + name@ + "' "@ + what@,
{
    let mut s = owned("Firewall rule '");
    push_str(&mut s, name);
    push_str(&mut s, "' ");
    push_str(&mut s, what);
    s
}

/// The event text of enabling or disabling a rule.
pub fn rule_toggled_text(name: &str, enabled: bool) -> (s: String)
    ensures
        s@ == "Firewall rule '"@ + name@ + "' "@ + if enabled {
            "enabled"@
        } else {
            "disabled"@
        },
{
    if enabled {
        rule_event_text(name, "enabled")
    } else {
        rule_event_text(name, "disabled")
    }
}

/// The error for a local database that could not be accessed.
pub fn lock_error(details: &str) -> (e: AppError)
    ensures
        e.code@ == "DB_LOCK_FAILED"@,
        e.message@ == "Could not access the local database."@,
        e.details matches Some(d) && d@ == details@,
        e.recoverable,
{
    AppError {
        code: owned("DB_LOCK_FAILED"),
        message: owned("Could not access the local database."),
        details: Some(owned(details)),
        recoverable: true,
    }
}

/// The error for firewall rules that could not be read from the local
/// database.
pub fn db_error(details: &str) -> (e: AppError)
    ensures
        e.code@ == "DB_QUERY_FAILED"@,
        e.message@ == "Could not read firewall rules from the local database."@,
        e.details matches Some(d) && d@ == details@,
        e.recoverable,
{
    AppError {
        code: owned("DB_QUERY_FAILED"),
        message: owned("Could not read firewall rules from the local database."),
        details: Some(owned(details)),
        recoverable: true,
    }
}

/// The error for a failed firewall call, with the system's message as
/// details.
pub fn com_error(message: &str, details: &str) -> (e: AppError)
    ensures
        e.code@ == "FIREWALL_COM_ERROR"@,
        e.message@ == message@,
        e.details matches Some(d) && d@ == details@,
        e.recoverable,
{
    AppError {
        code: owned("FIREWALL_COM_ERROR"),
        message: owned(message),
        details: Some(owned(details)),
        recoverable: true,
    }
}

} // verus!
