//! A verified model of the trap, interrupt and syscall core of a small
//! RISC-V supervisor-mode kernel running on a single hart.
//!
//! The crate models the machine and kernel state that the core owns — the
//! saved trap frame, the live status register, the serial input buffer, the
//! per-thread descriptor table and the root filesystem seen through its
//! lookup/create/read/write interface — and verifies the logic that runs on
//! every privilege transition: cause classification, dispatch to exactly one
//! handler, the file-descriptor syscalls with their complete-or-block
//! protocol, and the serial interrupt handler that feeds blocking reads.
//!
//! Hardware register access itself (CSR instructions, the PLIC and UART
//! register blocks) cannot run on a host and lives outside this library; the
//! model keeps one field per register the core programs, so every contract
//! states exactly which registers a step touches.

use vstd::prelude::*;

pub mod cause;
pub mod context;
pub mod fs;
pub mod interrupt;
pub mod io;
pub mod kernel;
pub mod syscall;
pub mod user;

verus! {

/// Width of a compressed breakpoint instruction: the breakpoint handler
/// advances the saved program counter by this much so the trapping
/// instruction is not re-executed.
pub const BREAKPOINT_INSTRUCTION_WIDTH: usize = 2;

/// Width of the syscall (`ecall`) instruction: the syscall path advances the
/// saved program counter by this much before the handler runs.
pub const SYSCALL_INSTRUCTION_WIDTH: usize = 4;

} // verus!
