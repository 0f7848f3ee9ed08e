//! The process lifecycle engine for the isolated WebAssembly
//! workload: start, kill, update, stats, ps and delete for the init
//! process, and the categorically unsupported exec-process surface.

use vstd::prelude::*;

use crate::errors::{RunError, ShimError};
use crate::process::{Process, ProcessState, ProcessV, Stdio, StdioV, process_wf};
use crate::resources;
use crate::resources::MetricsSnapshot;
use crate::strutil;
use crate::sys;

verus! {

/// One host-path : guest-path exposure handed to the workload engine.
pub struct Mapping {
    pub host: String,
    pub guest: String,
}

/// Mathematical image of a `Mapping`.
pub struct MappingV {
    pub host: Seq<char>,
    pub guest: Seq<char>,
}

impl View for Mapping {
    type V = MappingV;

    open spec fn view(&self) -> MappingV {
        MappingV { host: self.host@, guest: self.guest@ }
    }
}

/// What the lifecycle engine reads out of the workload's runtime
/// spec: the mounted root, the argument and environment vectors, the
/// extra path exposures, and the declared control-group path.
pub struct WorkloadSpec {
    pub rootfs: Option<String>,
    pub args: Vec<String>,
    pub envs: Vec<String>,
    pub preopens: Vec<Mapping>,
    pub cgroup_path: Option<String>,
}

/// Mathematical image of a `WorkloadSpec`.
pub struct WorkloadSpecV {
    pub rootfs: Option<Seq<char>>,
    pub args: Seq<Seq<char>>,
    pub envs: Seq<Seq<char>>,
    pub preopens: Seq<MappingV>,
    pub cgroup_path: Option<Seq<char>>,
}

/// The view of an optional string.
pub open spec fn opt_view(o: Option<String>) -> Option<Seq<char>> {
    match o {
        Option::Some(s) => Option::Some(s@),
        Option::None => Option::None,
    }
}

impl View for WorkloadSpec {
    type V = WorkloadSpecV;

    open spec fn view(&self) -> WorkloadSpecV {
        WorkloadSpecV {
            rootfs: opt_view(self.rootfs),
            args: self.args@.map_values(|s: String| s@),
            envs: self.envs@.map_values(|s: String| s@),
            preopens: self.preopens@.map_values(|m: Mapping| m@),
            cgroup_path: opt_view(self.cgroup_path),
        }
    }
}

/// Everything the launcher child needs, assembled by the start
/// transition before any process is forked.
pub struct LaunchParams {
    pub args: Vec<String>,
    pub envs: Vec<String>,
    pub preopens: Vec<Mapping>,
    pub netns: String,
    pub stdio: Stdio,
    pub cgroup_path: Option<String>,
}

/// Mathematical image of a `LaunchParams`.
pub struct LaunchParamsV {
    pub args: Seq<Seq<char>>,
    pub envs: Seq<Seq<char>>,
    pub preopens: Seq<MappingV>,
    pub netns: Seq<char>,
    pub stdio: StdioV,
    pub cgroup_path: Option<Seq<char>>,
}

impl View for LaunchParams {
    type V = LaunchParamsV;

    open spec fn view(&self) -> LaunchParamsV {
        LaunchParamsV {
            args: self.args@.map_values(|s: String| s@),
            envs: self.envs@.map_values(|s: String| s@),
            preopens: self.preopens@.map_values(|m: Mapping| m@),
            netns: self.netns@,
            stdio: self.stdio@,
            cgroup_path: opt_view(self.cgroup_path),
        }
    }
}

/// The exposure list the launcher must receive for a spec whose root
/// filesystem is `rootfs`: the root itself first, then the spec's own
/// exposures in order.
pub open spec fn spec_preopens(rootfs: Seq<char>, extra: Seq<MappingV>) -> Seq<MappingV> {
    seq![MappingV { host: rootfs, guest: "/"@ }] + extra
}

/// Resource limits an orchestrator may ask to apply to a running
/// process.  The isolated-workload engine rejects every such update,
/// but the request shape exists.
pub struct ResourceLimits {
    pub memory_limit: Option<i64>,
    pub cpu_quota: Option<i64>,
    pub cpu_period: Option<u64>,
}

fn clone_strings(v: &Vec<String>) -> (r: Vec<String>)
    ensures
        r@.map_values(|s: String| s@) == v@.map_values(|s: String| s@),
{
    let mut out: Vec<String> = Vec::new();
    let mut i: usize = 0;
    while i < v.len()
        invariant
            i <= v@.len(),
            out@.map_values(|s: String| s@) =~= v@.map_values(|s: String| s@).take(i as int),
        decreases v@.len() - i,
    {
        let ghost prev = out@;
        out.push(v[i].clone());
        i = i + 1;
        proof {
            assert(out@.map_values(|s: String| s@) =~= prev.map_values(|s: String| s@).push(
                v@[i - 1]@,
            ));
            assert(out@.map_values(|s: String| s@) =~= v@.map_values(|s: String| s@).take(
                i as int,
            ));
        }
    }
    proof {
        assert(v@.map_values(|s: String| s@).take(v@.len() as int) =~= v@.map_values(
            |s: String| s@,
        ));
    }
    out
}

/// The lifecycle policy of a container's init process.
pub struct WasmEdgeInitLifecycle {
    pub spec: WorkloadSpec,
    pub netns: String,
    pub bundle: String,
}

/// Mathematical image of a `WasmEdgeInitLifecycle`.
pub struct WasmEdgeInitLifecycleV {
    pub spec: WorkloadSpecV,
    pub netns: Seq<char>,
    pub bundle: Seq<char>,
}

impl View for WasmEdgeInitLifecycle {
    type V = WasmEdgeInitLifecycleV;

    open spec fn view(&self) -> WasmEdgeInitLifecycleV {
        WasmEdgeInitLifecycleV { spec: self.spec@, netns: self.netns@, bundle: self.bundle@ }
    }
}

/// The signal number handed to the operating system for a requested
/// signal: the number itself where it fits a signal argument, and an
/// always-invalid one otherwise, so that an out-of-range request
/// fails at delivery rather than wrapping into a different signal.
pub fn signal_number(signal: u32) -> (r: i32)
    ensures
        r == (if signal <= i32::MAX as u32 {
            signal as i32
        } else {
            -1 as i32
        }),
{
    if signal <= 0x7fff_ffff {
        signal as i32
    } else {
        -1
    }
}

impl WasmEdgeInitLifecycle {
    /// The decision half of the start transition: hands out launch
    /// parameters exactly once per process life.  A process that is
    /// not in `Created` is refused, so a second start can never fork
    /// again; a spec without a root filesystem is refused before any
    /// fork as well.  The caller launches with the returned
    /// parameters and then records the pid with
    /// `Process::complete_start`; on a launch failure the process
    /// stays in `Created` and a later retry is a fresh start request.
    pub fn prepare_start(&self, p: &Process) -> (r: Result<LaunchParams, ShimError>)
        ensures
            r is Ok <==> p@.state is Created && self@.spec.rootfs is Some,
            r is Ok ==> r->Ok_0@ == (LaunchParamsV {
                args: self@.spec.args,
                envs: self@.spec.envs,
                preopens: spec_preopens(self@.spec.rootfs->Some_0, self@.spec.preopens),
                netns: self@.netns,
                stdio: p@.stdio,
                cgroup_path: self@.spec.cgroup_path,
            }),
            r is Err ==> r->Err_0 is InvalidArgument,
    {
        if !matches!(p.state, ProcessState::Created) {
            return Err(ShimError::InvalidArgument(p.id.clone()));
        }
        let rootfs = match &self.spec.rootfs {
            Option::Some(rootfs) => rootfs,
            Option::None => {
                return Err(ShimError::InvalidArgument(self.bundle.clone()));
            },
        };
        let mut preopens: Vec<Mapping> = Vec::new();
        preopens.push(Mapping { host: rootfs.clone(), guest: "/".to_owned() });
        let mut i: usize = 0;
        while i < self.spec.preopens.len()
            invariant
                i <= self.spec.preopens@.len(),
                preopens@.map_values(|m: Mapping| m@) =~= seq![
                    MappingV { host: self@.spec.rootfs->Some_0, guest: "/"@ },
                ] + self.spec.preopens@.map_values(|m: Mapping| m@).take(i as int),
                self@.spec.rootfs is Some,
            decreases self.spec.preopens@.len() - i,
        {
            let m = &self.spec.preopens[i];
            let ghost prev = preopens@;
            preopens.push(Mapping { host: m.host.clone(), guest: m.guest.clone() });
            i = i + 1;
            proof {
                assert(preopens@.map_values(|m: Mapping| m@) =~= prev.map_values(
                    |m: Mapping| m@,
                ).push(self.spec.preopens@[i - 1]@));
                assert(preopens@.map_values(|m: Mapping| m@) =~= seq![
                    MappingV { host: self@.spec.rootfs->Some_0, guest: "/"@ },
                ] + self.spec.preopens@.map_values(|m: Mapping| m@).take(i as int));
            }
        }
        proof {
            assert(self.spec.preopens@.map_values(|m: Mapping| m@).take(
                self.spec.preopens@.len() as int,
            ) =~= self.spec.preopens@.map_values(|m: Mapping| m@));
            assert(preopens@.map_values(|m: Mapping| m@) =~= spec_preopens(
                self@.spec.rootfs->Some_0,
                self@.spec.preopens,
            ));
        }
        Ok(
            LaunchParams {
                args: clone_strings(&self.spec.args),
                envs: clone_strings(&self.spec.envs),
                preopens,
                netns: self.netns.clone(),
                stdio: Stdio {
                    stdin: p.stdio.stdin.clone(),
                    stdout: p.stdio.stdout.clone(),
                    stderr: p.stdio.stderr.clone(),
                    terminal: p.stdio.terminal,
                },
                cgroup_path: match &self.spec.cgroup_path {
                    Option::Some(c) => Option::Some(c.clone()),
                    Option::None => Option::None,
                },
            },
        )
    }

    /// Delivers `signal` to the process where it is running with a
    /// recorded pid; anywhere else the request is a silent no-op,
    /// because orchestrators issue kill speculatively.  The tracked
    /// state never changes: only an exit notification marks a process
    /// exited.
    pub fn kill(&self, p: &mut Process, signal: u32, all: bool) -> (r: Result<(), ShimError>)
        ensures
            *final(p) == *old(p),
            !(old(p)@.state is Running) || old(p)@.pid <= 0 ==> r is Ok,
            r is Err ==> r->Err_0 is OsError && old(p)@.state is Running && old(p)@.pid > 0,
    {
        if matches!(p.state, ProcessState::Running) && p.pid > 0 {
            match sys::send_signal(p.pid, signal_number(signal)) {
                Ok(()) => Ok(()),
                Err(errno) => Err(ShimError::OsError(errno)),
            }
        } else {
            Ok(())
        }
    }

    /// Releases the declared control group, if any, and tears the
    /// process down.  A teardown failure is surfaced — it indicates a
    /// leaked control group — and leaves the process state unchanged.
    pub fn delete(&self, p: &mut Process) -> (r: Result<(), ShimError>)
        ensures
            r is Ok ==> final(p)@ == (ProcessV { state: ProcessState::Deleted, ..old(p)@ }),
            r is Err ==> *final(p) == *old(p) && r->Err_0 is ResourceError,
            self@.spec.cgroup_path is None ==> r is Ok,
    {
        match &self.spec.cgroup_path {
            Option::Some(path) => {
                match resources::release(path.as_str()) {
                    Ok(()) => {},
                    Err(e) => {
                        return Err(e);
                    },
                }
            },
            Option::None => {},
        }
        p.set_deleted();
        Ok(())
    }

    /// Resource updates are categorically unsupported for the
    /// isolated WebAssembly workload.
    pub fn update(&self, p: &mut Process, limits: &ResourceLimits) -> (r: Result<(), ShimError>)
        ensures
            *final(p) == *old(p),
            r is Err && r->Err_0 is Unimplemented,
    {
        Err(ShimError::Unimplemented(unsupported_message()))
    }

    /// Delegates to resource attachment: a snapshot of the
    /// control-group counters of the running process.  A process with
    /// no identifiable native pid fails with a `ResourceError`.
    pub fn stats(&self, p: &Process) -> (r: Result<MetricsSnapshot, ShimError>)
        ensures
            p@.pid <= 0 ==> r is Err,
            r is Err ==> r->Err_0 is ResourceError,
            r is Ok ==> p@.pid > 0,
    {
        resources::collect_metrics(p.pid)
    }

    /// The process list of this engine: exactly the one native pid it
    /// launched; nested process trees are not tracked.
    pub fn ps(&self, p: &Process) -> (r: Vec<u32>)
        requires
            process_wf(p@),
        ensures
            r@ == seq![p@.pid as u32],
    {
        let mut pids: Vec<u32> = Vec::new();
        pids.push(p.pid as u32);
        proof {
            assert(pids@ =~= seq![p@.pid as u32]);
        }
        pids
    }
}

/// The message carried by every `Unimplemented` refusal of the
/// exec-process surface.
pub open spec fn spec_unsupported_message() -> Seq<char> {
    "exec not supported for wasm containers"@
}

fn unsupported_message() -> (r: String)
    ensures
        r@ == spec_unsupported_message(),
{
    "exec not supported for wasm containers".to_owned()
}

/// The lifecycle policy of exec processes.  Exec is unsupported
/// entirely in the isolated WebAssembly variant: only the init
/// process of a container may ever run.
pub struct WasmEdgeExecLifecycle {}

impl WasmEdgeExecLifecycle {
    /// Exec processes cannot be started.
    pub fn start(&self, p: &mut Process) -> (r: Result<(), ShimError>)
        ensures
            *final(p) == *old(p),
            r is Err && r->Err_0 is Unimplemented,
            r->Err_0->Unimplemented_0@ == spec_unsupported_message(),
    {
        Err(ShimError::Unimplemented(unsupported_message()))
    }

    /// Exec processes cannot be signalled.
    pub fn kill(&self, p: &mut Process, signal: u32, all: bool) -> (r: Result<(), ShimError>)
        ensures
            *final(p) == *old(p),
            r is Err && r->Err_0 is Unimplemented,
    {
        Err(ShimError::Unimplemented(unsupported_message()))
    }

    /// Deleting an exec process has nothing to tear down.
    pub fn delete(&self, p: &mut Process) -> (r: Result<(), ShimError>)
        ensures
            *final(p) == *old(p),
            r is Ok,
    {
        Ok(())
    }

    /// Exec processes cannot be updated.
    pub fn update(&self, p: &mut Process, limits: &ResourceLimits) -> (r: Result<(), ShimError>)
        ensures
            *final(p) == *old(p),
            r is Err && r->Err_0 is Unimplemented,
    {
        Err(ShimError::Unimplemented(unsupported_message()))
    }

    /// Exec processes have no stats.
    pub fn stats(&self, p: &Process) -> (r: Result<MetricsSnapshot, ShimError>)
        ensures
            r is Err && r->Err_0 is Unimplemented,
    {
        Err(ShimError::Unimplemented(unsupported_message()))
    }

    /// Exec processes have no process list.
    pub fn ps(&self, p: &Process) -> (r: Result<Vec<u32>, ShimError>)
        ensures
            r is Err && r->Err_0 is Unimplemented,
    {
        Err(ShimError::Unimplemented(unsupported_message()))
    }
}

/// A request to create an exec process inside a running container.
pub struct ExecRequest {
    pub exec_id: String,
}

/// The factory for exec processes, which refuses every request in
/// the isolated WebAssembly variant.
pub struct ExecFactory {}

impl ExecFactory {
    /// No exec process is ever created.
    pub fn create(&self, req: &ExecRequest) -> (r: Result<Process, ShimError>)
        ensures
            r is Err && r->Err_0 is Unimplemented,
            r->Err_0->Unimplemented_0@ == spec_unsupported_message(),
    {
        Err(ShimError::Unimplemented(unsupported_message()))
    }
}

/// Parses an engine plugin preload directive of the form
/// `alias:backend:target:path`.  Exactly four colon-separated
/// segments are accepted; anything else is refused with the whole
/// directive named in the error.  The path segment is resolved
/// against the workload root by the caller.
pub fn parse_nn_preload(s: &str) -> (r: Result<(String, String, String, String), ShimError>)
    ensures
        r is Ok <==> strutil::spec_split(s@, ':').len() == 4,
        r is Ok ==> ({
            let parts = strutil::spec_split(s@, ':');
            r->Ok_0.0@ == parts[0] && r->Ok_0.1@ == parts[1] && r->Ok_0.2@ == parts[2]
                && r->Ok_0.3@ == parts[3]
        }),
        r is Err ==> r->Err_0 is InvalidArgument && r->Err_0->InvalidArgument_0@ == s@,
{
    let mut parts = strutil::split_char(s, ':');
    let ghost views = parts@.map_values(|t: String| t@);
    if parts.len() != 4 {
        return Err(ShimError::InvalidArgument(s.to_owned()));
    }
    let a = parts.remove(0);
    let b = parts.remove(0);
    let c = parts.remove(0);
    let d = parts.remove(0);
    proof {
        assert(a@ == views[0] && b@ == views[1] && c@ == views[2] && d@ == views[3]);
    }
    Ok((a, b, c, d))
}

/// The entry-point command of the workload: the first argument with
/// a leading path separator stripped, resolved by the child relative
/// to the workload root.
pub open spec fn spec_module_command(arg0: Seq<char>) -> Seq<char> {
    if arg0.len() > 0 && arg0[0] == '/' {
        arg0.skip(1)
    } else {
        arg0
    }
}

/// Resolves the module command the launcher child must run: the
/// first argument, made relative to the workload root.  An empty
/// argument vector names no module.
pub fn resolve_module_command(args: &Vec<String>) -> (r: Result<String, RunError>)
    ensures
        r is Ok <==> args@.len() > 0,
        r is Ok ==> r->Ok_0@ == spec_module_command(args@.map_values(|s: String| s@)[0]),
        r is Err ==> r->Err_0 is NoModule,
{
    if args.len() == 0 {
        return Err(RunError::NoModule);
    }
    let arg0: &String = &args[0];
    let n = arg0.as_str().unicode_len();
    if n > 0 && arg0.as_str().get_char(0) == '/' {
        let stripped = arg0.as_str().substring_char(1, n);
        proof {
            assert(arg0@.subrange(1, n as int) =~= arg0@.skip(1));
        }
        Ok(stripped.to_owned())
    } else {
        Ok(arg0.clone())
    }
}

} // verus!
