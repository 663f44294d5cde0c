//! Windows services: which services are protected, how the service
//! manager's codes map to statuses and startup types, and the texts of
//! service actions.
use vstd::prelude::*;

use crate::models::system_control::{
    ServiceAction, ServiceInfo, ServiceStatus, StartupType,
};
use crate::models::AppError;
use crate::text::{
    ascii_lower_seq, chars_eq_ignore_ascii_case, chars_of, eq_ignore_ascii_case, owned, push_str,
};

verus! {

/// Services Windows itself depends on for basic stability; stopping one
/// needs the strongest confirmation.
pub open spec fn protected_names() -> Seq<Seq<char>> {
    seq![
        "TrustedInstaller"@,
        "WinDefend"@,
        "wscsvc"@,
        "SamSs"@,
        "gpsvc"@,
        "RpcSs"@,
        "DcomLaunch"@,
        "LSM"@,
        "Winmgmt"@,
        "EventLog"@,
        "Dnscache"@,
    ]
}

/// The protected service name at a position.
fn protected_name(i: usize) -> (s: &'static str)
    requires
        i < 11,
    ensures
        s@ == protected_names()[i as int],
{
    if i == 0 {
        "TrustedInstaller"
    } else if i == 1 {
        "WinDefend"
    } else if i == 2 {
        "wscsvc"
    } else if i == 3 {
        "SamSs"
    } else if i == 4 {
        "gpsvc"
    } else if i == 5 {
        "RpcSs"
    } else if i == 6 {
        "DcomLaunch"
    } else if i == 7 {
        "LSM"
    } else if i == 8 {
        "Winmgmt"
    } else if i == 9 {
        "EventLog"
    } else {
        "Dnscache"
    }
}

/// A service name is protected: it equals a protected name up to ASCII
/// case.
pub open spec fn is_protected_name(name: Seq<char>) -> bool {
    exists|i: int| 0 <= i < 11 && eq_ignore_ascii_case(protected_names()[i], name)
}

/// The name equals, up to ASCII case, one of the services Windows
/// depends on: TrustedInstaller, WinDefend, wscsvc, SamSs, gpsvc, RpcSs,
/// DcomLaunch, LSM, Winmgmt, EventLog, Dnscache.
pub open spec fn names_a_listed_service(name: Seq<char>) -> bool {
    ||| eq_ignore_ascii_case(name, "TrustedInstaller"@)
    ||| eq_ignore_ascii_case(name, "WinDefend"@)
    ||| eq_ignore_ascii_case(name, "wscsvc"@)
    ||| eq_ignore_ascii_case(name, "SamSs"@)
    ||| eq_ignore_ascii_case(name, "gpsvc"@)
    ||| eq_ignore_ascii_case(name, "RpcSs"@)
    ||| eq_ignore_ascii_case(name, "DcomLaunch"@)
    ||| eq_ignore_ascii_case(name, "LSM"@)
    ||| eq_ignore_ascii_case(name, "Winmgmt"@)
    ||| eq_ignore_ascii_case(name, "EventLog"@)
    ||| eq_ignore_ascii_case(name, "Dnscache"@)
}

/// A name is protected exactly when it names one of the listed services
/// up to ASCII case.
pub proof fn lemma_protected_iff_listed(name: Seq<char>)
    ensures
        is_protected_name(name) <==> names_a_listed_service(name),
{
    let l = protected_names();
    assert(l[0] == "TrustedInstaller"@);
    assert(l[1] == "WinDefend"@);
    assert(l[2] == "wscsvc"@);
    assert(l[3] == "SamSs"@);
    assert(l[4] == "gpsvc"@);
    assert(l[5] == "RpcSs"@);
    assert(l[6] == "DcomLaunch"@);
    assert(l[7] == "LSM"@);
    assert(l[8] == "Winmgmt"@);
    assert(l[9] == "EventLog"@);
    assert(l[10] == "Dnscache"@);
    if names_a_listed_service(name) {
        if eq_ignore_ascii_case(name, "TrustedInstaller"@) {
            assert(eq_ignore_ascii_case(l[0], name));
        } else if eq_ignore_ascii_case(name, "WinDefend"@) {
            assert(eq_ignore_ascii_case(l[1], name));
        } else if eq_ignore_ascii_case(name, "wscsvc"@) {
            assert(eq_ignore_ascii_case(l[2], name));
        } else if eq_ignore_ascii_case(name, "SamSs"@) {
            assert(eq_ignore_ascii_case(l[3], name));
        } else if eq_ignore_ascii_case(name, "gpsvc"@) {
            assert(eq_ignore_ascii_case(l[4], name));
        } else if eq_ignore_ascii_case(name, "RpcSs"@) {
            assert(eq_ignore_ascii_case(l[5], name));
        } else if eq_ignore_ascii_case(name, "DcomLaunch"@) {
            assert(eq_ignore_ascii_case(l[6], name));
        } else if eq_ignore_ascii_case(name, "LSM"@) {
            assert(eq_ignore_ascii_case(l[7], name));
        } else if eq_ignore_ascii_case(name, "Winmgmt"@) {
            assert(eq_ignore_ascii_case(l[8], name));
        } else if eq_ignore_ascii_case(name, "EventLog"@) {
            assert(eq_ignore_ascii_case(l[9], name));
        } else {
            assert(eq_ignore_ascii_case(l[10], name));
        }
    }
    if is_protected_name(name) {
        let i = choose|i: int| 0 <= i < 11 && eq_ignore_ascii_case(protected_names()[i], name);
        assert(0 <= i < 11);
    }
}

/// Decides whether a service is protected.
pub fn is_protected(name: &str) -> (b: bool)
    ensures
        b == is_protected_name(name@),
        b <==> names_a_listed_service(name@),
{
    proof {
        lemma_protected_iff_listed(name@);
    }
    let n = chars_of(name);
    let mut i: usize = 0;
    while i < 11
        invariant
            i <= 11,
            n@ == name@,
            forall|j: int| 0 <= j < i ==> !eq_ignore_ascii_case(protected_names()[j], name@),
        decreases 11 - i,
    {
        let p = chars_of(protected_name(i));
        if chars_eq_ignore_ascii_case(&p, &n) {
            return true;
        }
        i = i + 1;
    }
    false
}

/// The status for a service manager state code (1 stopped, 2 start
/// pending, 3 stop pending, 4 running).
pub open spec fn status_of_state(state: u32) -> ServiceStatus {
    if state == 4 {
        ServiceStatus::Running
    } else if state == 1 {
        ServiceStatus::Stopped
    } else if state == 2 {
        ServiceStatus::StartPending
    } else if state == 3 {
        ServiceStatus::StopPending
    } else {
        ServiceStatus::Unknown
    }
}

/// Maps a service manager state code to a status.
pub fn map_status(state: u32) -> (s: ServiceStatus)
    ensures
        s == status_of_state(state),
{
    if state == 4 {
        ServiceStatus::Running
    } else if state == 1 {
        ServiceStatus::Stopped
    } else if state == 2 {
        ServiceStatus::StartPending
    } else if state == 3 {
        ServiceStatus::StopPending
    } else {
        ServiceStatus::Unknown
    }
}

/// The startup type for a service start code (2 automatic, 3 on demand,
/// 4 disabled).
pub open spec fn startup_of_start_code(code: u32) -> StartupType {
    if code == 2 {
        StartupType::Automatic
    } else if code == 3 {
        StartupType::Manual
    } else if code == 4 {
        StartupType::Disabled
    } else {
        StartupType::Unknown
    }
}

/// Maps a service start code to a startup type.
pub fn map_start_type(code: u32) -> (t: StartupType)
    ensures
        t == startup_of_start_code(code),
{
    if code == 2 {
        StartupType::Automatic
    } else if code == 3 {
        StartupType::Manual
    } else if code == 4 {
        StartupType::Disabled
    } else {
        StartupType::Unknown
    }
}

/// The start code that configures a startup type, if it can be
/// configured: automatic (also delayed) 2, on demand 3, disabled 4.
pub open spec fn start_code_of(t: StartupType) -> Option<u32> {
    match t {
        StartupType::Automatic | StartupType::AutomaticDelayed => Some(2),
        StartupType::Manual => Some(3),
        StartupType::Disabled => Some(4),
        StartupType::Unknown => None,
    }
}

/// The start code to configure for a startup type; `Unknown` cannot be
/// configured.
pub fn start_code_for(t: StartupType) -> (r: Result<u32, AppError>)
    ensures
        r is Ok <==> start_code_of(t) is Some,
        r is Ok ==> start_code_of(t) == Some(r->Ok_0),
        t == StartupType::Automatic || t == StartupType::AutomaticDelayed ==> r == Ok::<
            u32,
            AppError,
        >(2),
        t == StartupType::Manual ==> r == Ok::<u32, AppError>(3),
        t == StartupType::Disabled ==> r == Ok::<u32, AppError>(4),
        t == StartupType::Unknown ==> (r matches Err(e) && e.code@ == "INVALID_STARTUP_TYPE"@
            && e.message@ == "Cannot set startup type to 'Unknown'."@ && e.details is None
            && !e.recoverable),
{
    match t {
        StartupType::Automatic | StartupType::AutomaticDelayed => Ok(2),
        StartupType::Manual => Ok(3),
        StartupType::Disabled => Ok(4),
        StartupType::Unknown => Err(
            AppError::plain(
                "INVALID_STARTUP_TYPE",
                "Cannot set startup type to 'Unknown'.",
                false,
            ),
        ),
    }
}

/// The service row for an enumerated service: its status from the state
/// code, its startup type and executable from its configuration when it
/// could be read (`Unknown` and none otherwise), and whether it is
/// protected.
pub fn service_info(
    name: &str,
    display_name: &str,
    state: u32,
    config: &Option<(u32, Option<String>)>,
) -> (s: ServiceInfo)
    ensures
        s.name@ == name@,
        s.display_name@ == display_name@,
        s.status == status_of_state(state),
        s.startup_type == match *config {
            Some((code, _)) => startup_of_start_code(code),
            None => StartupType::Unknown,
        },
        match *config {
            Some((_, Some(exe))) => s.executable matches Some(x) && x@ == exe@,
            _ => s.executable is None,
        },
        s.description is None,
        s.protected == is_protected_name(name@),
        s.protected <==> names_a_listed_service(name@),
{
    let (startup_type, executable) = match config {
        Some((code, exe)) => {
            let e = match exe {
                Some(x) => Some(x.clone()),
                None => None,
            };
            (map_start_type(*code), e)
        },
        None => (StartupType::Unknown, None),
    };
    ServiceInfo {
        name: owned(name),
        display_name: owned(display_name),
        status: map_status(state),
        startup_type,
        executable,
        description: None,
        protected: is_protected(name),
    }
}

/// The audit action of a service action: `START_SERVICE`,
/// `STOP_SERVICE` or `RESTART_SERVICE`.
pub open spec fn action_audit_name(a: ServiceAction) -> Seq<char> {
    match a {
        ServiceAction::Start => "START_SERVICE"@,
        ServiceAction::Stop => "STOP_SERVICE"@,
        ServiceAction::Restart => "RESTART_SERVICE"@,
    }
}

/// Computes `action_audit_name`.
pub fn service_action_name(a: ServiceAction) -> (s: String)
    ensures
        s@ == action_audit_name(a),
{
    match a {
        ServiceAction::Start => owned("START_SERVICE"),
        ServiceAction::Stop => owned("STOP_SERVICE"),
        ServiceAction::Restart => owned("RESTART_SERVICE"),
    }
}

/// The verb of a service action as the event text spells it: the
/// action's name followed by `ed`.
pub open spec fn action_past(a: ServiceAction) -> Seq<char> {
    match a {
        ServiceAction::Start => "Started"@,
        ServiceAction::Stop => "Stoped"@,
        ServiceAction::Restart => "Restarted"@,
    }
}

/// The event text of a service action.
pub fn service_action_event(name: &str, a: ServiceAction) -> (s: String)
    ensures
        s@ == "Service '"@ + name@ + "' was "@ + action_past(a) + " by the user"@,
{
    let mut s = owned("Service '");
    push_str(&mut s, name);
    push_str(&mut s, "' was ");
    match a {
        ServiceAction::Start => push_str(&mut s, "Started"),
        ServiceAction::Stop => push_str(&mut s, "Stoped"),
        ServiceAction::Restart => push_str(&mut s, "Restarted"),
    }
    push_str(&mut s, " by the user");
    s
}

/// The event text of a startup type change.
pub fn startup_type_event(name: &str, t: StartupType) -> (s: String)
    ensures
        s@ == "Startup type for '"@ + name@ + "' changed to "@ + t.name_text(),
{
    let mut s = owned("Startup type for '");
    push_str(&mut s, name);
    push_str(&mut s, "' changed to ");
    push_str(&mut s, t.debug_name());
    s
}

/// How a restart ended.
#[derive(Debug, Clone, Copy, PartialEq, Eq, Structural)]
pub enum RestartOutcome {
    /// The service was started again.
    Restarted,
    /// Neither the stop nor the start was accepted.
    StopRefused,
    /// The stop was accepted but the start was not.
    StartRefused,
}

/// Decides how a restart ended from whether the stop and the start were
/// accepted: a successful start is success whatever the stop did.
pub fn restart_outcome(stop_ok: bool, start_ok: bool) -> (o: RestartOutcome)
    ensures
        start_ok ==> o == RestartOutcome::Restarted,
        !start_ok && !stop_ok ==> o == RestartOutcome::StopRefused,
        !start_ok && stop_ok ==> o == RestartOutcome::StartRefused,
{
    if start_ok {
        RestartOutcome::Restarted
    } else if !stop_ok {
        RestartOutcome::StopRefused
    } else {
        RestartOutcome::StartRefused
    }
}

/// The error for a failed service manager call, with the system's
/// message as details.
pub fn scm_error(message: &str, details: &str) -> (e: AppError)
    ensures
        e.code@ == "SCM_ERROR"@,
        e.message@ == message@,
        e.details matches Some(d) && d@ == details@,
        e.recoverable,
{
    AppError {
        code: owned("SCM_ERROR"),
        message: owned(message),
        details: Some(owned(details)),
        recoverable: true,
    }
}

/// The error for a service listing the system refused.
pub fn service_enum_error() -> (e: AppError)
    ensures
        e.code@ == "SERVICE_ENUM_FAILED"@,
        e.message@ == "Failed to enumerate Windows services."@,
        e.details is None,
        e.recoverable,
{
    AppError::plain("SERVICE_ENUM_FAILED", "Failed to enumerate Windows services.", true)
}

/// The result of a restart: success when the service was started again,
/// otherwise the service manager's error with `details` (the system's
/// message for the refused step), telling a refused stop from a stop
/// that was accepted while the start was refused.
pub fn restart_result(o: RestartOutcome, details: &str) -> (r: Result<(), AppError>)
    ensures
        o == RestartOutcome::Restarted ==> r is Ok,
        o == RestartOutcome::StopRefused ==> (r matches Err(e) && e.code@ == "SCM_ERROR"@
            && e.message@ == "Windows refused to restart the service."@ && (e.details matches Some(
            d,
        ) && d@ == details@) && e.recoverable),
        o == RestartOutcome::StartRefused ==> (r matches Err(e) && e.code@ == "SCM_ERROR"@
            && e.message@ == "Windows stopped the service but refused to start it again."@ && (
        e.details matches Some(d) && d@ == details@) && e.recoverable),
{
    match o {
        RestartOutcome::Restarted => Ok(()),
        RestartOutcome::StopRefused => Err(
            scm_error("Windows refused to restart the service.", details),
        ),
        RestartOutcome::StartRefused => Err(
            scm_error("Windows stopped the service but refused to start it again.", details),
        ),
    }
}

} // verus!
