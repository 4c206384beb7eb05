//! The syscall dispatch protocol: the two-outcome result type, the register
//! conventions for moving signed results through unsigned registers, and the
//! dispatcher that maps a syscall number and three argument words to exactly
//! one result.

use vstd::prelude::*;

use crate::cause::FatalKind;
use crate::fs::{spec_sys_close, spec_sys_open, spec_sys_read, spec_sys_write};
use crate::kernel::{Kernel, KernelView};

verus! {

pub const SYSCALL_OPEN: usize = 56;

pub const SYSCALL_CLOSE: usize = 57;

pub const SYSCALL_READ: usize = 63;

pub const SYSCALL_WRITE: usize = 64;

pub const SYSCALL_EXIT: usize = 93;

pub const SYSCALL_EXEC: usize = 221;

/// The outcome of one syscall: either *Proceed*, carrying the signed value
/// to place in the return-value register, or *Park*, carrying a provisional
/// value and signaling that the calling thread must be suspended and the
/// call retried once the target resource wakes it. There is no third path:
/// errors are Proceed with a negative sentinel.
#[derive(Clone, Copy, Debug, PartialEq, Eq, Structural)]
pub enum SyscallResult {
    Proceed(isize),
    Park(isize),
}

/// The two's-complement image of a signed result in a register word.
pub open spec fn spec_result_to_reg(v: isize) -> usize {
    if v >= 0 {
        v as usize
    } else {
        (usize::MAX + v + 1) as usize
    }
}

/// The signed result a register word stands for: the inverse of
/// [`spec_result_to_reg`].
pub open spec fn spec_reg_to_result(u: usize) -> isize {
    if u <= usize::MAX / 2 {
        u as isize
    } else {
        (u - usize::MAX - 1) as isize
    }
}

/// Store a signed result into a register word.
pub fn result_to_reg(v: isize) -> (u: usize)
    ensures
        u == spec_result_to_reg(v),
{
    if v >= 0 {
        v as usize
    } else {
        usize::MAX - ((-(v + 1)) as usize)
    }
}

/// Read a signed result back out of a register word.
pub fn reg_to_result(u: usize) -> (v: isize)
    ensures
        v == spec_reg_to_result(u),
{
    if u <= usize::MAX / 2 {
        u as isize
    } else {
        -1 - ((usize::MAX - u) as isize)
    }
}

/// A register word truncated to the 32-bit flags argument `open` takes.
pub open spec fn spec_arg_to_u32(a: usize) -> u32 {
    ((a as u64) % 0x1_0000_0000u64) as u32
}

/// A register word reinterpreted as the signed 32-bit handle `close` takes.
pub open spec fn spec_arg_to_i32(a: usize) -> i32 {
    let low = (a as u64) % 0x1_0000_0000u64;
    if low <= 0x7fff_ffff {
        low as i32
    } else {
        (low - 0x1_0000_0000) as i32
    }
}

/// Truncate a register word to the 32-bit flags argument.
pub fn arg_to_u32(a: usize) -> (f: u32)
    ensures
        f == spec_arg_to_u32(a),
{
    let low = (a as u64) % 0x1_0000_0000u64;
    low as u32
}

/// Reinterpret the low 32 bits of a register word as the signed handle the
/// ABI passes to `close`.
pub fn arg_to_i32(a: usize) -> (f: i32)
    ensures
        f == spec_arg_to_i32(a),
{
    let low = (a as u64) % 0x1_0000_0000u64;
    if low <= 0x7fff_ffff {
        low as i32
    } else {
        -1 - ((0xffff_ffffu64 - low) as i32)
    }
}

/// Storing a signed result in a register and reading it back is the
/// identity: the two conversions invert each other.
pub proof fn lemma_register_image_round_trip(v: isize)
    ensures
        spec_reg_to_result(spec_result_to_reg(v)) == v,
{
}

/// What the dispatcher does: exactly one handler per recognized syscall
/// number; `exit` records the thread's exit and `exec` records the request
/// for the external process-creation collaborator (process creation itself
/// is outside this core); an unrecognized number is fatal to the thread.
pub open spec fn spec_syscall(kv: KernelView, id: usize, a0: usize, a1: usize, a2: usize) -> (
    KernelView,
    Result<SyscallResult, FatalKind>,
) {
    if id == SYSCALL_READ {
        let (kv2, r) = spec_sys_read(kv, a0, a1, a2);
        (kv2, Ok(r))
    } else if id == SYSCALL_WRITE {
        let (kv2, r) = spec_sys_write(kv, a0, a1, a2);
        (kv2, Ok(r))
    } else if id == SYSCALL_OPEN {
        spec_sys_open(kv, a0, spec_arg_to_u32(a1))
    } else if id == SYSCALL_CLOSE {
        spec_sys_close(kv, spec_arg_to_i32(a0))
    } else if id == SYSCALL_EXIT {
        (
            KernelView { exited: Some(spec_reg_to_result(a0)), ..kv },
            Ok(SyscallResult::Proceed(0isize)),
        )
    } else if id == SYSCALL_EXEC {
        (KernelView { exec_request: Some(a0), ..kv }, Ok(SyscallResult::Proceed(0isize)))
    } else {
        (kv, Err(FatalKind::UnknownSyscall))
    }
}

/// Translate one raw syscall invocation — number plus up to three argument
/// words — into exactly one [`SyscallResult`], applying the handler's
/// transition to the kernel context.
pub fn syscall(id: usize, args: [usize; 3], k: &mut Kernel) -> (r: Result<
    SyscallResult,
    FatalKind,
>)
    requires
        old(k).wf(),
        id == SYSCALL_OPEN ==> old(k)@.descriptors.len() < crate::kernel::DESCRIPTOR_LIMIT,
    ensures
        final(k).wf(),
        final(k)@ == spec_syscall(old(k)@, id, args[0], args[1], args[2]).0,
        r == spec_syscall(old(k)@, id, args[0], args[1], args[2]).1,
{
    if id == SYSCALL_READ {
        Ok(crate::fs::sys_read(k, args[0], args[1], args[2]))
    } else if id == SYSCALL_WRITE {
        Ok(crate::fs::sys_write(k, args[0], args[1], args[2]))
    } else if id == SYSCALL_OPEN {
        crate::fs::sys_open(k, args[0], arg_to_u32(args[1]))
    } else if id == SYSCALL_CLOSE {
        crate::fs::sys_close(k, arg_to_i32(args[0]))
    } else if id == SYSCALL_EXIT {
        k.exited = Some(reg_to_result(args[0]));
        Ok(SyscallResult::Proceed(0isize))
    } else if id == SYSCALL_EXEC {
        k.exec_request = Some(args[0]);
        Ok(SyscallResult::Proceed(0isize))
    } else {
        Err(FatalKind::UnknownSyscall)
    }
}

} // verus!
