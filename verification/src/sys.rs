//! Trusted boundary to the operating system and to the outside
//! crates.  Every item here is believed, not proved: each wrapper's
//! body makes exactly the outside calls its doc comment names, and
//! its contract states no more than the called code's own source or
//! documentation shows.

use vstd::prelude::*;

use crate::resources::MetricsSnapshot;

verus! {

/// The decoding that `String::from_utf8` performs, as a name:
/// `None` where the bytes are not valid UTF-8, otherwise the decoded
/// character sequence.  The result depends on the bytes alone.
pub uninterp spec fn utf8_of(bytes: Seq<u8>) -> Option<Seq<char>>;

/// Relies on `String::from_utf8`: succeeds exactly on valid UTF-8
/// and then returns the decoded string.
#[verifier::external_body]
pub(crate) fn decode_utf8(bytes: Vec<u8>) -> (r: Result<String, ()>)
    ensures
        r is Ok <==> utf8_of(bytes@) is Some,
        r is Ok ==> r->Ok_0@ == utf8_of(bytes@)->Some_0,
{
    match String::from_utf8(bytes) {
        Ok(s) => Ok(s),
        Err(_) => Err(()),
    }
}

/// Relies on `nix::sys::signal::kill` (and `Signal::try_from` to
/// build its argument): delivers `signal` to the process `pid`; on
/// failure, or where `signal` is no valid signal number, returns the
/// raw error number.  Whether delivery succeeds depends on the
/// processes alive at the call, so nothing is promised of the result.
#[verifier::external_body]
pub(crate) fn send_signal(pid: i32, signal: i32) -> (r: Result<(), i32>)
    requires
        pid > 0,
{
    let sig = match nix::sys::signal::Signal::try_from(signal) {
        Ok(s) => s,
        Err(e) => return Err(e as i32),
    };
    nix::sys::signal::kill(nix::unistd::Pid::from_raw(pid), sig).map_err(|e| e as i32)
}

/// Relies on `nix::time::clock_gettime` on the realtime clock: returns
/// the current wall clock as whole seconds and the nanoseconds within
/// the second, which `clock_gettime(2)` keeps in `[0, 10^9)`.  The
/// value depends on the machine's clock at the call.
#[verifier::external_body]
pub(crate) fn clock_gettime_realtime() -> (r: Result<(i64, i64), i32>)
    ensures
        r is Ok ==> 0 <= r->Ok_0.1 < 1_000_000_000,
{
    match nix::time::clock_gettime(nix::time::ClockId::CLOCK_REALTIME) {
        Ok(ts) => Ok((ts.tv_sec(), ts.tv_nsec())),
        Err(e) => Err(e as i32),
    }
}

/// Relies on `nix::time::clock_settime` on the realtime clock: sets
/// the system clock to the given second and nanosecond, or returns
/// the raw error number.
#[verifier::external_body]
pub(crate) fn clock_settime_realtime(sec: i64, nsec: i64) -> (r: Result<(), i32>)
    requires
        sec >= 0,
        0 <= nsec < 1_000_000_000,
{
    let ts = nix::sys::time::TimeSpec::new(sec, nsec);
    nix::time::clock_settime(nix::time::ClockId::CLOCK_REALTIME, ts).map_err(|e| e as i32)
}

/// The control-group handle of the resource crate.  Opaque here: what
/// it designates lives in the kernel's control-group filesystem.
#[verifier::external_type_specification]
#[verifier::external_body]
pub struct ExCgroup(cgroups_rs::fs::Cgroup);

/// Relies on `cgroups_rs::fs::Cgroup::load` with the automatically
/// detected hierarchy (whose detection reads the mount table): builds
/// a handle for the node at `path`, and cannot fail.
#[verifier::external_body]
pub(crate) fn cgroup_load(path: &str) -> cgroups_rs::fs::Cgroup {
    cgroups_rs::fs::Cgroup::load(cgroups_rs::fs::hierarchies::auto(), path)
}

/// Relies on `cgroups_rs::fs::Cgroup::exists`: whether the node is
/// present on disk at the call.
#[verifier::external_body]
pub(crate) fn cgroup_exists(cg: &cgroups_rs::fs::Cgroup) -> bool {
    cg.exists()
}

/// Relies on `cgroups_rs::fs::Cgroup::delete`: removes the node, or
/// reports the failure as text.
#[verifier::external_body]
pub(crate) fn cgroup_delete(cg: &cgroups_rs::fs::Cgroup) -> (r: Result<(), String>) {
    cg.delete().map_err(|e| format!("{}", e))
}

/// Relies on `cgroups_rs::fs::Cgroup::new` followed by
/// `Cgroup::add_task_by_tgid`: creates the control group at `path`
/// (or opens it where it already exists), joins the whole process
/// `pid` to it, or reports the failure as text.
#[verifier::external_body]
pub(crate) fn cgroup_create_and_join(path: &str, pid: u64) -> (r: Result<(), String>)
    requires
        pid > 0,
{
    cgroups_rs::fs::Cgroup::new(cgroups_rs::fs::hierarchies::auto(), path)
        .and_then(|cg| cg.add_task_by_tgid(cgroups_rs::CgroupPid::from(pid)))
        .map_err(|e| format!("{}", e))
}

/// Relies on `containerd_shim::cgroup::get_cgroup`: resolves the
/// control group that the native process `pid` belongs to, or reports
/// the failure as text.
#[verifier::external_body]
pub(crate) fn cgroup_of_pid(pid: u32) -> (r: Result<cgroups_rs::fs::Cgroup, String>) {
    containerd_shim::cgroup::get_cgroup(pid).map_err(|e| format!("{}", e))
}

/// Relies on `containerd_shim::cgroup::collect_metrics`: reads the
/// point-in-time accounting counters of the control group.  The
/// numbers come from the kernel at the call, so nothing is promised
/// of their values; absent subsystems read as zero.  The callee
/// parses the kernel's accounting lines and panics on a malformed
/// file, which no admissible argument can provoke.
#[verifier::external_body]
pub(crate) fn cgroup_read_metrics(cg: &cgroups_rs::fs::Cgroup) -> (r: Result<
    MetricsSnapshot,
    String,
>) {
    let m = containerd_shim::cgroup::collect_metrics(cg).map_err(|e| format!("{}", e))?;
    Ok(MetricsSnapshot {
        cpu_usage_total: m.cpu.usage.total,
        cpu_usage_kernel: m.cpu.usage.kernel,
        cpu_usage_user: m.cpu.usage.user,
        memory_usage: m.memory.usage.usage,
        memory_limit: m.memory.usage.limit,
        pids_current: m.pids.current,
        pids_limit: m.pids.limit,
    })
}

} // verus!
