//! System resources and process control: per-disk usage and the outcome
//! of a termination request.
use vstd::prelude::*;

use crate::models::{AppError, DiskMetrics};
use crate::text::{dec, owned, push_decimal, push_str};

verus! {

/// One disk's metrics: its used space is the total minus the available
/// space, or 0 when more is reported available than in total.
pub fn disk_metrics(mount_point: &str, total_space: u64, available_space: u64) -> (d: DiskMetrics)
    ensures
        d.mount_point@ == mount_point@,
        d.total_bytes == total_space,
        d.used_bytes == if total_space >= available_space {
            (total_space - available_space) as u64
        } else {
            0
        },
{
    let used = if total_space >= available_space {
        total_space - available_space
    } else {
        0
    };
    DiskMetrics { mount_point: owned(mount_point), used_bytes: used, total_bytes: total_space }
}

/// The outcome of terminating process `pid`: an error when no such
/// process runs, an error when the system refused, success otherwise.
pub fn termination_outcome(pid: u32, found: bool, killed: bool) -> (r: Result<(), AppError>)
    ensures
        !found ==> (r matches Err(e) && e.code@ == "PROCESS_NOT_FOUND"@ && e.message@
            == "No running process with PID "@ + dec(pid as nat) + "."@ && e.details is None
            && !e.recoverable),
        found && !killed ==> (r matches Err(e) && e.code@ == "TERMINATE_FAILED"@ && e.message@
            == "The OS refused to terminate this process."@ && (e.details matches Some(d)
            && d@
            == "This can happen for protected system processes or due to insufficient privileges."@)
            && e.recoverable),
        found && killed ==> r is Ok,
{
    if !found {
        let mut message = owned("No running process with PID ");
        push_decimal(&mut message, pid as u64);
        push_str(&mut message, ".");
        return Err(
            AppError { code: owned("PROCESS_NOT_FOUND"), message, details: None, recoverable: false },
        );
    }
    if !killed {
        return Err(
            AppError {
                code: owned("TERMINATE_FAILED"),
                message: owned("The OS refused to terminate this process."),
                details: Some(
                    owned(
                        "This can happen for protected system processes or due to insufficient privileges.",
                    ),
                ),
                recoverable: true,
            },
        );
    }
    Ok(())
}

/// The error for the process table's lock that could not be taken, with
/// the lock's own message.
pub fn process_lock_error(message: &str) -> (e: AppError)
    ensures
        e.code@ == "LOCK_ERROR"@,
        e.message@ == message@,
        e.details is None,
        e.recoverable,
{
    AppError::plain("LOCK_ERROR", message, true)
}

/// The audit target of a process termination: `pid <pid>`.
pub fn process_target(pid: u32) -> (s: String)
    ensures
        s@ == "pid "@ + dec(pid as nat),
{
    let mut s = owned("pid ");
    push_decimal(&mut s, pid as u64);
    s
}

} // verus!
