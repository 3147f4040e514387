//! A syscall tracer library: drives a tracee one syscall-boundary at a
//! time, classifies each stop, decodes syscall numbers, names and
//! arguments, keeps per-syscall occurrence counts, and orders the final
//! summary.
use vstd::prelude::*;

pub mod counts;
pub mod gate;
pub mod memory;
pub mod names;
pub mod regs;
pub mod tracer;

verus! {

/// Fatal tracer-side failures: conditions under which the control loop
/// cannot keep its contract with the kernel's stop sequence.
#[derive(Clone, Copy, Debug, PartialEq, Eq, Structural)]
pub enum TraceError {
    /// The register snapshot of a stopped tracee could not be fetched.
    RegisterRead,
}

impl TraceError {
    /// A diagnostic line identifying which process-control step failed.
    pub fn message(&self) -> (r: &'static str)
        ensures
            r@ == "PTRACE_GETREGS failed"@,
    {
        "PTRACE_GETREGS failed"
    }
}

} // verus!
