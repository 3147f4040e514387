//! Register accessor and the register side of the syscall decoder.
//!
//! A `RegisterSnapshot` is an immutable point-in-time copy of the
//! general-purpose registers of a stopped tracee, holding the fields the
//! x86_64 syscall ABI reads: the original syscall number, the return-value
//! register, and the six argument registers in ABI order.
use crate::TraceError;
use vstd::prelude::*;

verus! {

/// The general-purpose registers of a stopped tracee that the syscall ABI
/// reads, copied out at one stop; never retained across a resume.
#[derive(Clone, Copy, Debug, PartialEq, Eq, Structural)]
pub struct RegisterSnapshot {
    /// Syscall number as delivered, before any kernel modification.
    pub orig_rax: u64,
    /// Return-value register; meaningful only at a syscall-exit stop.
    pub rax: u64,
    pub rdi: u64,
    pub rsi: u64,
    pub rdx: u64,
    pub r10: u64,
    pub r8: u64,
    pub r9: u64,
}

/// The "original syscall number" field, reinterpreted as a signed word.
pub open spec fn spec_syscall_num(regs: RegisterSnapshot) -> i64 {
    regs.orig_rax as i64
}

/// The return-value register, reinterpreted as a signed word.
pub open spec fn spec_syscall_ret(regs: RegisterSnapshot) -> i64 {
    regs.rax as i64
}

/// The six argument registers in the fixed x86_64 syscall ABI order:
/// rdi, rsi, rdx, r10, r8, r9.
pub open spec fn spec_syscall_args(regs: RegisterSnapshot) -> Seq<u64> {
    seq![regs.rdi, regs.rsi, regs.rdx, regs.r10, regs.r8, regs.r9]
}

/// Extracts the syscall number of the stop: the number before kernel
/// denial or modification, not the return-value-aliased field.
pub fn syscall_num(regs: &RegisterSnapshot) -> (n: i64)
    ensures
        n == spec_syscall_num(*regs),
{
    #[verifier::truncate] (regs.orig_rax as i64)
}

/// Extracts the syscall return value; meaningful only at exit stops.
pub fn syscall_ret(regs: &RegisterSnapshot) -> (n: i64)
    ensures
        n == spec_syscall_ret(*regs),
{
    #[verifier::truncate] (regs.rax as i64)
}

/// Extracts the six argument registers in ABI order.
pub fn syscall_args(regs: &RegisterSnapshot) -> (a: [u64; 6])
    ensures
        a@ == spec_syscall_args(*regs),
{
    let a = [regs.rdi, regs.rsi, regs.rdx, regs.r10, regs.r8, regs.r9];
    proof {
        assert(a@ =~= spec_syscall_args(*regs));
    }
    a
}

/// Relies on nix::sys::ptrace::getregs: returns the full general-purpose
/// register set of a stopped tracee, or an error when the kernel refuses
/// the request (tracee not stopped, gone, or permission denied).
#[verifier::external_body]
pub(crate) fn read_regs(pid: i32) -> (r: Result<RegisterSnapshot, TraceError>)
    ensures
        r is Err ==> r->Err_0 == TraceError::RegisterRead,
{
    match nix::sys::ptrace::getregs(nix::unistd::Pid::from_raw(pid)) {
        Ok(u) => Ok(RegisterSnapshot {
            orig_rax: u.orig_rax,
            rax: u.rax,
            rdi: u.rdi,
            rsi: u.rsi,
            rdx: u.rdx,
            r10: u.r10,
            r8: u.r8,
            r9: u.r9,
        }),
        Err(_) => Err(TraceError::RegisterRead),
    }
}

} // verus!
