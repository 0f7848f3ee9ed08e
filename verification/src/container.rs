//! Containers, the lock-guarded container set, and the exit-monitor
//! bridge's correlation of native pids to tracked processes.

use vstd::prelude::*;

use crate::errors::ShimError;
use crate::lifecycle::{WasmEdgeInitLifecycle, WasmEdgeInitLifecycleV, WorkloadSpec};
use crate::process::{spec_marked, Process, ProcessState, ProcessV, Stdio};

verus! {

/// One container: an init process, the exec processes created inside
/// it (none, in the isolated WebAssembly variant), and the lifecycle
/// policy of the init process.
pub struct Container {
    pub id: String,
    pub bundle: String,
    pub init: Process,
    pub execs: Vec<Process>,
    pub init_lifecycle: WasmEdgeInitLifecycle,
}

/// Mathematical image of a `Container`.
pub struct ContainerV {
    pub id: Seq<char>,
    pub bundle: Seq<char>,
    pub init: ProcessV,
    pub execs: Seq<ProcessV>,
    pub init_lifecycle: WasmEdgeInitLifecycleV,
}

impl View for Container {
    type V = ContainerV;

    open spec fn view(&self) -> ContainerV {
        ContainerV {
            id: self.id@,
            bundle: self.bundle@,
            init: self.init@,
            execs: self.execs@.map_values(|p: Process| p@),
            init_lifecycle: self.init_lifecycle@,
        }
    }
}

/// Whether the container tracks a process with native pid `pid`,
/// either as its init process or among its exec processes.
pub open spec fn container_has_pid(c: ContainerV, pid: i32) -> bool {
    c.init.pid == pid || exists|i: int| 0 <= i < c.execs.len() && c.execs[i].pid == pid
}

/// The image of a process sequence after the exit notification
/// `{pid, code}`: the first process with that pid is marked exited,
/// later ones are untouched.
pub open spec fn spec_mark_first(s: Seq<ProcessV>, pid: i32, code: i32) -> Seq<ProcessV>
    decreases s.len(),
{
    if s.len() == 0 {
        s
    } else if s[0].pid == pid {
        seq![spec_marked(s[0], code)] + s.skip(1)
    } else {
        seq![s[0]] + spec_mark_first(s.skip(1), pid, code)
    }
}

/// The image of one container after the exit notification: the init
/// process is checked first; only if it does not match are the exec
/// processes scanned.
pub open spec fn spec_mark_container(c: ContainerV, pid: i32, code: i32) -> ContainerV {
    if c.init.pid == pid {
        ContainerV { init: spec_marked(c.init, code), ..c }
    } else {
        ContainerV { execs: spec_mark_first(c.execs, pid, code), ..c }
    }
}

/// The image of the container set after the exit notification: the
/// first container tracking the pid has its matching process marked;
/// every other container is untouched.  A pid tracked nowhere marks
/// nothing: it may belong to a process this engine never launched.
pub open spec fn spec_mark_set(s: Seq<ContainerV>, pid: i32, code: i32) -> Seq<ContainerV>
    decreases s.len(),
{
    if s.len() == 0 {
        s
    } else if container_has_pid(s[0], pid) {
        seq![spec_mark_container(s[0], pid, code)] + s.skip(1)
    } else {
        seq![s[0]] + spec_mark_set(s.skip(1), pid, code)
    }
}

proof fn lemma_mark_first_at(s: Seq<ProcessV>, pid: i32, code: i32, i: int)
    requires
        0 <= i < s.len(),
        forall|j: int| 0 <= j < i ==> s[j].pid != pid,
        s[i].pid == pid,
    ensures
        spec_mark_first(s, pid, code) == s.update(i, spec_marked(s[i], code)),
    decreases i,
{
    if i == 0 {
        assert(seq![spec_marked(s[0], code)] + s.skip(1) =~= s.update(
            0,
            spec_marked(s[0], code),
        ));
    } else {
        assert(forall|j: int| 0 <= j < i - 1 ==> s.skip(1)[j] == s[j + 1]);
        lemma_mark_first_at(s.skip(1), pid, code, i - 1);
        assert(seq![s[0]] + s.skip(1).update(i - 1, spec_marked(s.skip(1)[i - 1], code)) =~= s
            .update(i, spec_marked(s[i], code)));
    }
}

proof fn lemma_mark_set_at(s: Seq<ContainerV>, pid: i32, code: i32, i: int)
    requires
        0 <= i < s.len(),
        forall|j: int| 0 <= j < i ==> !container_has_pid(s[j], pid),
        container_has_pid(s[i], pid),
    ensures
        spec_mark_set(s, pid, code) == s.update(i, spec_mark_container(s[i], pid, code)),
    decreases i,
{
    if i == 0 {
        assert(seq![spec_mark_container(s[0], pid, code)] + s.skip(1) =~= s.update(
            0,
            spec_mark_container(s[0], pid, code),
        ));
    } else {
        assert(forall|j: int| 0 <= j < i - 1 ==> s.skip(1)[j] == s[j + 1]);
        lemma_mark_set_at(s.skip(1), pid, code, i - 1);
        assert(seq![s[0]] + s.skip(1).update(i - 1, spec_mark_container(s.skip(1)[i - 1], pid, code))
            =~= s.update(i, spec_mark_container(s[i], pid, code)));
    }
}

proof fn lemma_mark_set_none(s: Seq<ContainerV>, pid: i32, code: i32)
    requires
        forall|j: int| 0 <= j < s.len() ==> !container_has_pid(s[j], pid),
    ensures
        spec_mark_set(s, pid, code) == s,
    decreases s.len(),
{
    if s.len() > 0 {
        lemma_mark_set_none(s.skip(1), pid, code);
        assert(seq![s[0]] + s.skip(1) =~= s);
    }
}

/// The live container set of one sandbox.  All state transitions —
/// insertion on create, removal on delete, exit marking — go through
/// this one structure, which the embedding serializes behind a lock.
pub struct ContainerSet {
    pub containers: Vec<Container>,
}

impl View for ContainerSet {
    type V = Seq<ContainerV>;

    open spec fn view(&self) -> Seq<ContainerV> {
        self.containers@.map_values(|c: Container| c@)
    }
}

/// Whether some container of `s` has id `id`.
pub open spec fn set_has_id(s: Seq<ContainerV>, id: Seq<char>) -> bool {
    exists|i: int| 0 <= i < s.len() && s[i].id == id
}

impl ContainerSet {
    /// An empty set, as the sandbox starts with.
    pub fn new() -> (r: ContainerSet)
        ensures
            r@ == Seq::<ContainerV>::empty(),
    {
        let r = ContainerSet { containers: Vec::new() };
        proof {
            assert(r@ =~= Seq::<ContainerV>::empty());
        }
        r
    }

    /// Adds a freshly created container.  The caller keys containers
    /// by id, so an id may be tracked only once.
    pub fn insert(&mut self, c: Container)
        requires
            !set_has_id(old(self)@, c@.id),
        ensures
            final(self)@ == old(self)@.push(c@),
    {
        let ghost prev = self@;
        self.containers.push(c);
        proof {
            assert(self@ =~= prev.push(c@));
        }
    }

    /// Removes the container with id `id`, returning it for teardown;
    /// `None` where no container has that id.
    pub fn remove(&mut self, id: &String) -> (r: Option<Container>)
        ensures
            r is None ==> final(self)@ == old(self)@ && !set_has_id(old(self)@, id@),
            r is Some ==> exists|i: int|
                0 <= i < old(self)@.len() && old(self)@[i].id == id@ && r->Some_0@ == old(
                    self,
                )@[i] && final(self)@ == old(self)@.remove(i),
    {
        let n = self.containers.len();
        let mut i: usize = 0;
        while i < n
            invariant
                i <= n,
                n == self.containers@.len(),
                self@ == old(self)@,
                forall|j: int| 0 <= j < i ==> self@[j].id != id@,
            decreases n - i,
        {
            if self.containers[i].id == *id {
                let ghost prev = self@;
                let c = self.containers.remove(i);
                proof {
                    assert(self@ =~= prev.remove(i as int));
                    assert({
                        let w: int = i as int;
                        0 <= w < old(self)@.len() && old(self)@[w].id == id@ && c@ == old(self)@[w]
                            && final(self)@ == old(self)@.remove(w)
                    });
                }
                return Some(c);
            }
            i = i + 1;
        }
        None
    }

    /// The exit-monitor bridge's one state change: correlates an exit
    /// notification `{pid, code}` to at most one tracked process and
    /// marks it exited.  Init processes take precedence within a
    /// container; a pid that no live process carries changes nothing.
    pub fn handle_exit(&mut self, pid: i32, code: i32)
        ensures
            final(self)@ == spec_mark_set(old(self)@, pid, code),
    {
        let n = self.containers.len();
        let mut i: usize = 0;
        while i < n
            invariant
                i <= n,
                n == self.containers@.len(),
                self@ == old(self)@,
                forall|j: int| 0 <= j < i ==> !container_has_pid(old(self)@[j], pid),
            decreases n - i,
        {
            if self.containers[i].init.pid == pid {
                let ghost prev = self@;
                self.containers[i].init.set_exited(code);
                proof {
                    assert(self@ =~= prev.update(
                        i as int,
                        spec_mark_container(prev[i as int], pid, code),
                    ));
                    lemma_mark_set_at(prev, pid, code, i as int);
                }
                return ;
            }
            let m = self.containers[i].execs.len();
            let mut k: usize = 0;
            while k < m
                invariant
                    k <= m,
                    i < n,
                    n == self.containers@.len(),
                    m == self.containers@[i as int].execs@.len(),
                    self@ == old(self)@,
                    self@[i as int].init.pid != pid,
                    forall|j: int| 0 <= j < i ==> !container_has_pid(old(self)@[j], pid),
                    forall|j: int| 0 <= j < k ==> self@[i as int].execs[j].pid != pid,
                decreases m - k,
            {
                if self.containers[i].execs[k].pid == pid {
                    let ghost prev = self@;
                    let ghost prev_execs = self@[i as int].execs;
                    self.containers[i].execs[k].set_exited(code);
                    proof {
                        assert(self.containers@[i as int].execs@.map_values(|p: Process| p@)
                            =~= prev_execs.update(
                            k as int,
                            spec_marked(prev_execs[k as int], code),
                        ));
                        lemma_mark_first_at(prev_execs, pid, code, k as int);
                        assert(self@[i as int] == spec_mark_container(prev[i as int], pid, code));
                        assert(self@ =~= prev.update(
                            i as int,
                            spec_mark_container(prev[i as int], pid, code),
                        ));
                        lemma_mark_set_at(prev, pid, code, i as int);
                    }
                    return ;
                }
                k = k + 1;
            }
            proof {
                assert(!container_has_pid(old(self)@[i as int], pid));
            }
            i = i + 1;
        }
        proof {
            lemma_mark_set_none(old(self)@, pid, code);
        }
    }
}

/// Builds containers for isolated WebAssembly workloads inside the
/// sandbox's network namespace.
pub struct WasmEdgeContainerFactory {
    pub netns: String,
}

impl WasmEdgeContainerFactory {
    /// Creates the container for one workload request: an init
    /// process in `Created` with no native pid, no exec processes,
    /// and the lifecycle policy distilled from the runtime spec.  A
    /// spec that sets no root filesystem is rejected before the
    /// container exists.
    pub fn create(&self, id: String, bundle: String, stdio: Stdio, spec: WorkloadSpec) -> (r:
        Result<Container, ShimError>)
        ensures
            r is Ok <==> spec@.rootfs is Some,
            r is Err ==> r->Err_0 is InvalidArgument,
            r is Ok ==> r->Ok_0@ == (ContainerV {
                id: id@,
                bundle: bundle@,
                init: ProcessV {
                    id: id@,
                    pid: 0,
                    state: ProcessState::Created,
                    exit_code: 0,
                    stdio: stdio@,
                },
                execs: Seq::<ProcessV>::empty(),
                init_lifecycle: WasmEdgeInitLifecycleV {
                    spec: spec@,
                    netns: self@.netns,
                    bundle: bundle@,
                },
            }),
    {
        if matches!(&spec.rootfs, Option::None) {
            return Err(ShimError::InvalidArgument(bundle));
        }
        let init = Process::new(id.clone(), stdio);
        let c = Container {
            id,
            bundle: bundle.clone(),
            init,
            execs: Vec::new(),
            init_lifecycle: WasmEdgeInitLifecycle { spec, netns: self.netns.clone(), bundle },
        };
        proof {
            assert(c@.execs =~= Seq::<ProcessV>::empty());
        }
        Ok(c)
    }
}

impl Default for WasmEdgeContainerFactory {
    /// A factory in the host network namespace; the embedding fills
    /// in the sandbox's namespace path before creating containers.
    fn default() -> (r: WasmEdgeContainerFactory)
        ensures
            r@.netns == Seq::<char>::empty(),
    {
        WasmEdgeContainerFactory { netns: String::new() }
    }
}

impl WasmEdgeContainerFactory {
    /// Cleanup after a removed container.  The launcher leaves
    /// nothing behind beyond what `delete` already released, so
    /// there is nothing to undo.
    pub fn cleanup(&self, c: &Container) -> (r: Result<(), ShimError>)
        ensures
            r is Ok,
    {
        Ok(())
    }
}

/// Mathematical image of a `WasmEdgeContainerFactory`.
pub struct WasmEdgeContainerFactoryV {
    pub netns: Seq<char>,
}

impl View for WasmEdgeContainerFactory {
    type V = WasmEdgeContainerFactoryV;

    open spec fn view(&self) -> WasmEdgeContainerFactoryV {
        WasmEdgeContainerFactoryV { netns: self.netns@ }
    }
}

/// Exit-event delivery is idempotent: the image of a container set
/// under the same `{pid, code}` notification twice is its image under
/// it once.  The first delivery leaves the matching process exited;
/// the second finds the same process first and re-marking an exited
/// process changes nothing.
pub proof fn lemma_exit_idempotent(s: Seq<ContainerV>, pid: i32, code: i32)
    ensures
        spec_mark_set(spec_mark_set(s, pid, code), pid, code) == spec_mark_set(s, pid, code),
    decreases s.len(),
{
    if s.len() == 0 {
    } else if container_has_pid(s[0], pid) {
        let c = s[0];
        let c1 = spec_mark_container(c, pid, code);
        assert(container_has_pid(c1, pid)) by {
            if c.init.pid == pid {
            } else {
                let i = choose|i: int| 0 <= i < c.execs.len() && c.execs[i].pid == pid;
                lemma_mark_first_preserves_pids(c.execs, pid, code);
                assert(c1.execs[i].pid == pid);
            }
        }
        let t = seq![c1] + s.skip(1);
        assert(t[0] == c1);
        assert(spec_mark_set(t, pid, code) == seq![spec_mark_container(c1, pid, code)] + t.skip(1));
        lemma_mark_container_idempotent(c, pid, code);
        assert(t.skip(1) =~= s.skip(1));
        assert(seq![spec_mark_container(c1, pid, code)] + t.skip(1) =~= t);
    } else {
        let t = seq![s[0]] + spec_mark_set(s.skip(1), pid, code);
        assert(t[0] == s[0]);
        lemma_exit_idempotent(s.skip(1), pid, code);
        assert(t.skip(1) =~= spec_mark_set(s.skip(1), pid, code));
        assert(spec_mark_set(t, pid, code) =~= t);
    }
}

proof fn lemma_mark_first_preserves_pids(s: Seq<ProcessV>, pid: i32, code: i32)
    ensures
        spec_mark_first(s, pid, code).len() == s.len(),
        forall|i: int|
            0 <= i < s.len() ==> #[trigger] spec_mark_first(s, pid, code)[i].pid == s[i].pid,
    decreases s.len(),
{
    if s.len() > 0 {
        lemma_mark_first_preserves_pids(s.skip(1), pid, code);
    }
}

proof fn lemma_mark_container_idempotent(c: ContainerV, pid: i32, code: i32)
    ensures
        spec_mark_container(spec_mark_container(c, pid, code), pid, code) == spec_mark_container(
            c,
            pid,
            code,
        ),
{
    let c1 = spec_mark_container(c, pid, code);
    if c.init.pid == pid {
        assert(spec_marked(spec_marked(c.init, code), code) == spec_marked(c.init, code));
        assert(spec_mark_container(c1, pid, code) =~~= c1);
    } else {
        lemma_mark_first_idempotent(c.execs, pid, code);
        assert(spec_mark_container(c1, pid, code) =~~= c1);
    }
}

proof fn lemma_mark_first_idempotent(s: Seq<ProcessV>, pid: i32, code: i32)
    ensures
        spec_mark_first(spec_mark_first(s, pid, code), pid, code) == spec_mark_first(s, pid, code),
    decreases s.len(),
{
    if s.len() == 0 {
    } else if s[0].pid == pid {
        let p1 = spec_marked(s[0], code);
        let t = seq![p1] + s.skip(1);
        assert(t[0] == p1 && p1.pid == pid);
        assert(spec_mark_first(t, pid, code) == seq![spec_marked(p1, code)] + t.skip(1));
        assert(spec_marked(p1, code) == p1);
        assert(seq![p1] + t.skip(1) =~= t);
    } else {
        let t = seq![s[0]] + spec_mark_first(s.skip(1), pid, code);
        assert(t[0] == s[0]);
        lemma_mark_first_idempotent(s.skip(1), pid, code);
        assert(t.skip(1) =~= spec_mark_first(s.skip(1), pid, code));
        assert(spec_mark_first(t, pid, code) =~= t);
    }
}

} // verus!
