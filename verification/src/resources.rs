//! Resource attachment: binding a native process to a control group,
//! collecting its accounting counters, and releasing the group.

use vstd::prelude::*;

use crate::errors::ShimError;
use crate::strutil;
use crate::sys;

verus! {

/// A point-in-time snapshot of a control group's accounting files:
/// CPU time in microseconds, memory in bytes, process counts.
pub struct MetricsSnapshot {
    pub cpu_usage_total: u64,
    pub cpu_usage_kernel: u64,
    pub cpu_usage_user: u64,
    pub memory_usage: u64,
    pub memory_limit: u64,
    pub pids_current: u64,
    pub pids_limit: u64,
}

/// Creates the control group declared at `cgroup_path` (leading path
/// separators stripped; opening it where it already exists) and joins
/// the native process `pid` to it.  A failure is surfaced as a
/// `ResourceError` and the caller must abort the start transition it
/// was part of.
pub fn attach(pid: u32, cgroup_path: &str) -> (r: Result<(), ShimError>)
    requires
        pid > 0,
    ensures
        r is Err ==> r->Err_0 is ResourceError,
{
    let trimmed = strutil::trim_leading_slashes(cgroup_path);
    match sys::cgroup_create_and_join(trimmed, pid as u64) {
        Ok(()) => Ok(()),
        Err(msg) => Err(ShimError::ResourceError(msg)),
    }
}

/// Reads a snapshot of the counters of the control group that the
/// native process `pid` belongs to.  A process that never started or
/// was already torn down has no identifiable native pid, so `pid <= 0`
/// fails with a `ResourceError` before any collection is attempted.
pub fn collect_metrics(pid: i32) -> (r: Result<MetricsSnapshot, ShimError>)
    ensures
        pid <= 0 ==> r is Err,
        r is Err ==> r->Err_0 is ResourceError,
        r is Ok ==> pid > 0,
{
    if pid <= 0 {
        return Err(ShimError::ResourceError(String::new()));
    }
    let cg = match sys::cgroup_of_pid(pid as u32) {
        Ok(cg) => cg,
        Err(msg) => {
            return Err(ShimError::ResourceError(msg));
        },
    };
    match sys::cgroup_read_metrics(&cg) {
        Ok(snapshot) => Ok(snapshot),
        Err(msg) => Err(ShimError::ResourceError(msg)),
    }
}

/// Deletes the control-group node at `cgroup_path` (leading path
/// separators stripped).  Idempotent: a group that is already absent
/// is not an error; any other failure is surfaced, since it indicates
/// a leaked control group.
pub fn release(cgroup_path: &str) -> (r: Result<(), ShimError>)
    ensures
        r is Err ==> r->Err_0 is ResourceError,
{
    let cg = sys::cgroup_load(strutil::trim_leading_slashes(cgroup_path));
    if !sys::cgroup_exists(&cg) {
        return Ok(());
    }
    match sys::cgroup_delete(&cg) {
        Ok(()) => Ok(()),
        Err(msg) => Err(ShimError::ResourceError(msg)),
    }
}

} // verus!
