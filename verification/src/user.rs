//! The user-mode face of the syscall ABI: stubs that place the syscall
//! number and up to three argument words in their registers, trap into the
//! kernel, and read the signed result back out of the return-value
//! register. Each stub's contract is the kernel dispatcher's transition,
//! instantiated at its syscall number.
//!
//! A stub's precondition asks that the call is one the kernel completes or
//! parks: an invocation the kernel treats as fatal (a bad `close` handle,
//! a failing `open`) never returns control to the caller, so no stub
//! models it.

use vstd::prelude::*;

use crate::cause::EXCEPTION_USER_ENV_CALL;
use crate::context::{TrapFrame, REG_A0, REG_A1, REG_A2, REG_SYSCALL_ID};
use crate::interrupt::rust_trap;
use crate::kernel::{Kernel, DESCRIPTOR_LIMIT};
use crate::syscall::{
    lemma_register_image_round_trip, reg_to_result, result_to_reg, spec_syscall, SyscallResult,
    SYSCALL_CLOSE, SYSCALL_EXEC, SYSCALL_EXIT, SYSCALL_OPEN, SYSCALL_READ, SYSCALL_WRITE,
};

verus! {

/// Descriptor 0: the console input stream.
pub const STDIN: usize = 0;

/// Descriptor 1: the console output stream.
pub const STDOUT: usize = 1;

/// The program counter the model places the syscall instruction at.
pub const USER_CALL_PC: usize = 0x1000;

/// The signed value a stub hands back: the value the result carries,
/// whether the call completed or parked — the kernel wrote its image into
/// the return-value register and the stub read it back out.
pub open spec fn spec_user_ret(res: SyscallResult) -> isize {
    match res {
        SyscallResult::Proceed(v) => v,
        SyscallResult::Park(v) => v,
    }
}

/// Place the arguments in their registers and trap into the kernel with
/// the user-environment-call cause, as the syscall instruction does.
fn syscall(k: &mut Kernel, id: usize, arg0: usize, arg1: usize, arg2: usize) -> (ret: isize)
    requires
        old(k).wf(),
        spec_syscall(old(k)@, id, arg0, arg1, arg2).1 is Ok,
        id == SYSCALL_OPEN ==> old(k)@.descriptors.len() < DESCRIPTOR_LIMIT,
    ensures
        final(k).wf(),
        final(k)@ == spec_syscall(old(k)@, id, arg0, arg1, arg2).0,
        ret == spec_user_ret(spec_syscall(old(k)@, id, arg0, arg1, arg2).1->Ok_0),
{
    let mut tf = TrapFrame::new(USER_CALL_PC, EXCEPTION_USER_ENV_CALL, 0, 0);
    tf.set_reg(REG_A0, arg0);
    tf.set_reg(REG_A1, arg1);
    tf.set_reg(REG_A2, arg2);
    tf.set_reg(REG_SYSCALL_ID, id);
    let _ = rust_trap(&mut tf, k);
    proof {
        match spec_syscall(old(k)@, id, arg0, arg1, arg2).1 {
            Ok(SyscallResult::Proceed(v)) => lemma_register_image_round_trip(v),
            Ok(SyscallResult::Park(v)) => lemma_register_image_round_trip(v),
            Err(_) => {},
        }
    }
    reg_to_result(tf.reg(REG_A0))
}

/// Read up to `len` bytes from `fd` into the buffer at `buffer` in this
/// thread's memory: positive count on data, 0 to block and retry, -1 on
/// error.
pub fn sys_read(k: &mut Kernel, fd: usize, buffer: usize, len: usize) -> (ret: isize)
    requires
        old(k).wf(),
    ensures
        final(k).wf(),
        final(k)@ == crate::fs::spec_sys_read(old(k)@, fd, buffer, len).0,
        ret == spec_user_ret(crate::fs::spec_sys_read(old(k)@, fd, buffer, len).1),
{
    syscall(k, SYSCALL_READ, fd, buffer, len)
}

/// Write `len` bytes from the buffer at `buffer` in this thread's memory
/// to `fd`: the count written, or -1 on error. Never blocks.
pub fn sys_write(k: &mut Kernel, fd: usize, buffer: usize, len: usize) -> (ret: isize)
    requires
        old(k).wf(),
    ensures
        final(k).wf(),
        final(k)@ == crate::fs::spec_sys_write(old(k)@, fd, buffer, len).0,
        ret == spec_user_ret(crate::fs::spec_sys_write(old(k)@, fd, buffer, len).1),
{
    syscall(k, SYSCALL_WRITE, fd, buffer, len)
}

/// Exit the calling thread with `code`. On the hardware the call never
/// returns; the model records the exit for the external scheduler, which
/// never resumes the thread.
pub fn sys_exit(k: &mut Kernel, code: isize)
    requires
        old(k).wf(),
    ensures
        final(k).wf(),
        final(k)@ == (crate::kernel::KernelView { exited: Some(code), ..old(k)@ }),
{
    let arg = result_to_reg(code);
    proof {
        lemma_register_image_round_trip(code);
    }
    let _ = syscall(k, SYSCALL_EXIT, arg, 0, 0);
}

/// Open the NUL-terminated path at `path` in this thread's memory, with
/// the given flags: the fresh descriptor bound to it.
pub fn sys_open(k: &mut Kernel, path: usize, flags: u32) -> (ret: isize)
    requires
        old(k).wf(),
        old(k)@.descriptors.len() < DESCRIPTOR_LIMIT,
        crate::fs::spec_sys_open(old(k)@, path, flags).1 is Ok,
    ensures
        final(k).wf(),
        final(k)@ == crate::fs::spec_sys_open(old(k)@, path, flags).0,
        ret == spec_user_ret(crate::fs::spec_sys_open(old(k)@, path, flags).1->Ok_0),
{
    let arg1 = flags as usize;
    proof {
        assert(crate::syscall::spec_arg_to_u32(flags as usize) == flags) by (bit_vector);
    }
    syscall(k, SYSCALL_OPEN, path, arg1, 0)
}

/// Free the descriptor `fd` of the calling thread.
pub fn sys_close(k: &mut Kernel, fd: i32) -> (ret: isize)
    requires
        old(k).wf(),
        0 <= fd < old(k)@.descriptors.len(),
        old(k)@.descriptors[fd as int] is Some,
    ensures
        final(k).wf(),
        final(k)@ == crate::fs::spec_sys_close(old(k)@, fd).0,
        ret == spec_user_ret(crate::fs::spec_sys_close(old(k)@, fd).1->Ok_0),
{
    let arg0 = fd as usize;
    proof {
        assert(crate::syscall::spec_arg_to_i32(fd as usize) == fd) by (bit_vector)
            requires
                0 <= fd < 0x8000_0000,
        ;
    }
    syscall(k, SYSCALL_CLOSE, arg0, 0, 0)
}

/// Hand the path at `path` to the external process-creation collaborator.
pub fn sys_exec(k: &mut Kernel, path: usize)
    requires
        old(k).wf(),
    ensures
        final(k).wf(),
        final(k)@ == (crate::kernel::KernelView { exec_request: Some(path), ..old(k)@ }),
{
    let _ = syscall(k, SYSCALL_EXEC, path, 0, 0);
}

} // verus!
