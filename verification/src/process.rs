//! The per-process state machine: `Created -> Running -> Exited -> Deleted`.

use vstd::prelude::*;

verus! {

/// Lifecycle state of one workload process.
#[derive(Clone, Copy, PartialEq, Eq, Structural, Debug)]
pub enum ProcessState {
    /// The process object exists; no native pid yet.
    Created,
    /// A native pid is recorded and believed alive.
    Running,
    /// The process has been marked exited; terminal but for deletion.
    Exited,
    /// The process and its resources have been torn down.
    Deleted,
}

/// The stdio redirection triple handed to the launcher.  An empty
/// path means "no redirection".
#[derive(Debug)]
pub struct Stdio {
    pub stdin: String,
    pub stdout: String,
    pub stderr: String,
    pub terminal: bool,
}

/// Mathematical image of a `Stdio`.
pub struct StdioV {
    pub stdin: Seq<char>,
    pub stdout: Seq<char>,
    pub stderr: Seq<char>,
    pub terminal: bool,
}

impl View for Stdio {
    type V = StdioV;

    open spec fn view(&self) -> StdioV {
        StdioV {
            stdin: self.stdin@,
            stdout: self.stdout@,
            stderr: self.stderr@,
            terminal: self.terminal,
        }
    }
}

/// One workload process tracked by the lifecycle engine: a logical
/// id, the native pid (0 until started), the lifecycle state, and
/// the recorded exit code.
#[derive(Debug)]
pub struct Process {
    pub id: String,
    pub pid: i32,
    pub state: ProcessState,
    pub exit_code: i32,
    pub stdio: Stdio,
}

/// Mathematical image of a `Process`.
pub struct ProcessV {
    pub id: Seq<char>,
    pub pid: i32,
    pub state: ProcessState,
    pub exit_code: i32,
    pub stdio: StdioV,
}

impl View for Process {
    type V = ProcessV;

    open spec fn view(&self) -> ProcessV {
        ProcessV {
            id: self.id@,
            pid: self.pid,
            state: self.state,
            exit_code: self.exit_code,
            stdio: self.stdio@,
        }
    }
}

/// A process is well formed when it has no pid before its start and
/// never a negative one.
pub open spec fn process_wf(p: ProcessV) -> bool {
    &&& p.state is Created ==> p.pid == 0
    &&& p.pid >= 0
}

/// A state from which no transition but deletion (and no re-marking)
/// is possible.
pub open spec fn is_terminal(s: ProcessState) -> bool {
    s is Exited || s is Deleted
}

/// The image of a process after an exit notification with `code`:
/// marking is terminal and monotonic, so a process already exited or
/// deleted keeps its first exit code.
pub open spec fn spec_marked(p: ProcessV, code: i32) -> ProcessV {
    if is_terminal(p.state) {
        p
    } else {
        ProcessV { state: ProcessState::Exited, exit_code: code, ..p }
    }
}

impl Process {
    /// A fresh process in `Created`, before any native pid exists.
    pub fn new(id: String, stdio: Stdio) -> (r: Process)
        ensures
            r@.id == id@,
            r@.pid == 0,
            r@.state is Created,
            r@.exit_code == 0,
            r@.stdio == stdio@,
            process_wf(r@),
    {
        Process { id, pid: 0, state: ProcessState::Created, exit_code: 0, stdio }
    }

    /// Records the native pid of a successful launch and moves the
    /// process to `Running`.  The caller drives this exactly once per
    /// process: the engine hands out launch parameters only in
    /// `Created`, so a second start can never reach this point.
    pub fn complete_start(&mut self, pid: i32)
        requires
            old(self)@.state is Created,
            pid > 0,
        ensures
            final(self)@ == (ProcessV {
                state: ProcessState::Running,
                pid: pid,
                ..old(self)@
            }),
            process_wf(final(self)@),
    {
        self.state = ProcessState::Running;
        self.pid = pid;
    }

    /// Marks the process exited with `code`.  Terminal and monotonic:
    /// delivering a second notification to an already-exited process
    /// changes nothing, so the recorded exit code is always the first
    /// one observed.
    pub fn set_exited(&mut self, code: i32)
        ensures
            final(self)@ == spec_marked(old(self)@, code),
            is_terminal(final(self)@.state),
            process_wf(old(self)@) ==> process_wf(final(self)@),
    {
        match self.state {
            ProcessState::Exited => {},
            ProcessState::Deleted => {},
            _ => {
                self.state = ProcessState::Exited;
                self.exit_code = code;
            },
        }
    }

    /// Tears the process down.  Idempotent; the pid is retained for
    /// audit (`stats`, `ps`) but the state bars further signalling.
    pub fn set_deleted(&mut self)
        ensures
            final(self)@ == (ProcessV { state: ProcessState::Deleted, ..old(self)@ }),
            process_wf(old(self)@) ==> process_wf(final(self)@),
    {
        self.state = ProcessState::Deleted;
    }
}

} // verus!
