//! Error kinds of the shim's control plane and of the launcher child.

use vstd::prelude::*;

verus! {

/// An error surfaced by the control plane or the lifecycle engine.
///
/// String payloads carry the offending name (an unsupported
/// configuration tag, a control-group path) rather than a formatted
/// message; callers that need prose build it themselves.
#[derive(Debug, PartialEq, Eq)]
pub enum ShimError {
    /// A malformed or unsupported request shape.
    InvalidArgument(String),
    /// The operation is not supported for this process kind.
    Unimplemented(String),
    /// A control-group attach, collect or release failure.
    ResourceError(String),
    /// A syscall failure, carrying the raw error number.
    OsError(i32),
    /// A name that the service does not recognize.
    NotFound(String),
    /// An unexpected internal condition, e.g. a closed channel.
    Internal(String),
}

/// A failure category of the launcher's child path.  The child cannot
/// report structured errors across the fork boundary; it exits with
/// the category's code instead.
#[derive(Debug, PartialEq, Eq)]
pub enum RunError {
    /// The workload engine failed.
    WasmEdge,
    /// An I/O failure while redirecting the standard streams.
    IO,
    /// The workload spec declares no root filesystem path.
    NoRootInSpec,
    /// No entry module could be resolved.
    NoModule,
    /// A raw syscall failure, carrying the error number.
    Sys(i32),
}

/// The exit code that stands for a `RunError`, as a mathematical map.
pub open spec fn spec_exit_code(e: RunError) -> int {
    match e {
        RunError::WasmEdge => -100,
        RunError::IO => -101,
        RunError::NoRootInSpec => -102,
        RunError::NoModule => -103,
        RunError::Sys(errno) => -(errno as int),
    }
}

impl RunError {
    /// The stable, category-coded exit status of the launcher child.
    /// Observability tooling inspects these numbers, so they are part
    /// of the library's external contract.
    pub fn to_exit_code(&self) -> (r: i32)
        requires
            self is Sys ==> 0 <= self->Sys_0,
        ensures
            r == spec_exit_code(*self),
    {
        match self {
            RunError::WasmEdge => -100,
            RunError::IO => -101,
            RunError::NoRootInSpec => -102,
            RunError::NoModule => -103,
            RunError::Sys(errno) => -errno,
        }
    }
}

} // verus!
