//! Classification of the raw trap-cause value into the causes this core
//! handles, and the taxonomy of fatal conditions.

use vstd::prelude::*;

verus! {

/// Top bit of the cause register: set for asynchronous interrupts, clear for
/// synchronous exceptions.
pub const INTERRUPT_FLAG: usize = usize::MAX / 2 + 1;

/// Exception code: breakpoint instruction.
pub const EXCEPTION_BREAKPOINT: usize = 3;

/// Exception code: environment call from user mode (syscall).
pub const EXCEPTION_USER_ENV_CALL: usize = 8;

/// Exception code: instruction page fault.
pub const EXCEPTION_INSTRUCTION_PAGE_FAULT: usize = 12;

/// Exception code: load page fault.
pub const EXCEPTION_LOAD_PAGE_FAULT: usize = 13;

/// Exception code: store page fault.
pub const EXCEPTION_STORE_PAGE_FAULT: usize = 15;

/// Interrupt code: supervisor timer.
pub const INTERRUPT_SUPERVISOR_TIMER: usize = 5;

/// Interrupt code: supervisor external (the serial device).
pub const INTERRUPT_SUPERVISOR_EXTERNAL: usize = 9;

/// The decoded trap cause: the synchronous exceptions and asynchronous
/// interrupts this core handles, with every unrecognized value collapsed
/// into `Unknown`, which the dispatcher treats as fatal.
#[derive(Clone, Copy, Debug, PartialEq, Eq, Structural)]
pub enum TrapCause {
    Breakpoint,
    InstructionPageFault,
    LoadPageFault,
    StorePageFault,
    UserEnvCall,
    SupervisorTimer,
    SupervisorExternal,
    Unknown,
}

/// Decoding of the raw cause value: interrupts carry the top bit and their
/// code below it, exceptions are the bare code.
pub open spec fn spec_classify(scause: usize) -> TrapCause {
    if scause >= INTERRUPT_FLAG {
        let code = scause - INTERRUPT_FLAG;
        if code == INTERRUPT_SUPERVISOR_TIMER {
            TrapCause::SupervisorTimer
        } else if code == INTERRUPT_SUPERVISOR_EXTERNAL {
            TrapCause::SupervisorExternal
        } else {
            TrapCause::Unknown
        }
    } else {
        if scause == EXCEPTION_BREAKPOINT {
            TrapCause::Breakpoint
        } else if scause == EXCEPTION_USER_ENV_CALL {
            TrapCause::UserEnvCall
        } else if scause == EXCEPTION_INSTRUCTION_PAGE_FAULT {
            TrapCause::InstructionPageFault
        } else if scause == EXCEPTION_LOAD_PAGE_FAULT {
            TrapCause::LoadPageFault
        } else if scause == EXCEPTION_STORE_PAGE_FAULT {
            TrapCause::StorePageFault
        } else {
            TrapCause::Unknown
        }
    }
}

/// Decode the raw cause register value.
pub fn classify(scause: usize) -> (c: TrapCause)
    ensures
        c == spec_classify(scause),
{
    if scause >= INTERRUPT_FLAG {
        let code = scause - INTERRUPT_FLAG;
        if code == INTERRUPT_SUPERVISOR_TIMER {
            TrapCause::SupervisorTimer
        } else if code == INTERRUPT_SUPERVISOR_EXTERNAL {
            TrapCause::SupervisorExternal
        } else {
            TrapCause::Unknown
        }
    } else {
        if scause == EXCEPTION_BREAKPOINT {
            TrapCause::Breakpoint
        } else if scause == EXCEPTION_USER_ENV_CALL {
            TrapCause::UserEnvCall
        } else if scause == EXCEPTION_INSTRUCTION_PAGE_FAULT {
            TrapCause::InstructionPageFault
        } else if scause == EXCEPTION_LOAD_PAGE_FAULT {
            TrapCause::LoadPageFault
        } else if scause == EXCEPTION_STORE_PAGE_FAULT {
            TrapCause::StorePageFault
        } else {
            TrapCause::Unknown
        }
    }
}

/// Why the kernel, or the current thread, cannot continue. Each is a
/// typed result rather than an unconditional abort, so the caller of the
/// dispatcher decides policy — halt the machine, or only the thread.
#[derive(Clone, Copy, Debug, PartialEq, Eq, Structural)]
pub enum FatalKind {
    /// The trap-cause value matched no handler.
    UnknownCause,
    /// An instruction, load or store page fault; demand paging is not
    /// implemented, so the faulting context cannot make progress.
    PageFault,
    /// `close` named a descriptor outside the table or one already freed.
    BadDescriptor,
    /// `open` could not create or find the path.
    OpenFailed,
    /// The syscall number matched no handler.
    UnknownSyscall,
}

/// Whether a fatal condition takes down the whole machine or only the
/// current thread.
#[derive(Clone, Copy, Debug, PartialEq, Eq, Structural)]
pub enum FatalScope {
    Machine,
    Thread,
}

/// Only an unrecognized trap cause leaves the machine in a state the kernel
/// cannot reason about; everything else is confined to the thread that
/// trapped.
pub open spec fn spec_fatal_scope(kind: FatalKind) -> FatalScope {
    match kind {
        FatalKind::UnknownCause => FatalScope::Machine,
        FatalKind::PageFault => FatalScope::Thread,
        FatalKind::BadDescriptor => FatalScope::Thread,
        FatalKind::OpenFailed => FatalScope::Thread,
        FatalKind::UnknownSyscall => FatalScope::Thread,
    }
}

/// Decide the blast radius of a fatal condition.
pub fn fatal_scope(kind: FatalKind) -> (s: FatalScope)
    ensures
        s == spec_fatal_scope(kind),
{
    match kind {
        FatalKind::UnknownCause => FatalScope::Machine,
        FatalKind::PageFault => FatalScope::Thread,
        FatalKind::BadDescriptor => FatalScope::Thread,
        FatalKind::OpenFailed => FatalScope::Thread,
        FatalKind::UnknownSyscall => FatalScope::Thread,
    }
}

} // verus!
