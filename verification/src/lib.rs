//! Control-plane core of a sandboxed-workload shim.
//!
//! The library drives the lifecycle of isolated workload processes
//! (creation, start, signalling, exit propagation, deletion) and the
//! decisions of the sandbox control service (network configuration,
//! clock synchronization, ad-hoc command execution and event
//! forwarding).  Operating-system effects — signals, clock reads and
//! writes, control-group accounting — go through a small set of
//! trusted wrappers in `sys`; everything around them is verified.

pub mod container;
pub mod errors;
pub mod process;
pub mod lifecycle;
pub mod resources;
pub mod service;
pub mod strutil;
pub mod sys;

use vstd::prelude::*;

verus! {

} // verus!
