//! The trap frame: the full machine-state record captured on every trap
//! entry and restored on trap exit.

use vstd::prelude::*;

verus! {

/// Number of general-purpose registers saved on every trap (x0..x31).
pub const NUM_REGISTERS: usize = 32;

/// Register x10 (a0): first syscall argument; the syscall return value is
/// written back into this slot.
pub const REG_A0: usize = 10;

/// Register x11 (a1): second syscall argument.
pub const REG_A1: usize = 11;

/// Register x12 (a2): third syscall argument.
pub const REG_A2: usize = 12;

/// Register x17 (a7): holds the syscall number.
pub const REG_SYSCALL_ID: usize = 17;

/// Mathematical image of a [`TrapFrame`]: the register file as a sequence
/// plus the four saved control registers.
#[verifier::ext_equal]
pub struct TrapFrameView {
    pub x: Seq<usize>,
    pub sstatus: usize,
    pub sepc: usize,
    pub stval: usize,
    pub scause: usize,
}

/// The saved state of one privilege transition: the general-purpose
/// registers, the trapped program counter (`sepc`), the pre-trap status
/// flags (`sstatus`), the faulting address if any (`stval`) and the raw
/// trap-cause value (`scause`).
///
/// A frame is owned by a single trap-handling call chain: captured in full
/// on entry, mutated only by the dispatched handler, restored in full on
/// exit.
pub struct TrapFrame {
    pub x: Vec<usize>,
    pub sstatus: usize,
    pub sepc: usize,
    pub stval: usize,
    pub scause: usize,
}

impl View for TrapFrame {
    type V = TrapFrameView;

    open spec fn view(&self) -> TrapFrameView {
        TrapFrameView {
            x: self.x@,
            sstatus: self.sstatus,
            sepc: self.sepc,
            stval: self.stval,
            scause: self.scause,
        }
    }
}

impl TrapFrame {
    /// A frame is well formed when it carries the full register file.
    pub open spec fn wf(&self) -> bool {
        self.x@.len() == NUM_REGISTERS
    }

    /// A fresh frame with every general-purpose register zeroed, as the trap
    /// entry sequence would capture it for a context that has not run yet.
    pub fn new(sepc: usize, scause: usize, stval: usize, sstatus: usize) -> (tf: TrapFrame)
        ensures
            tf.wf(),
            tf@.sepc == sepc,
            tf@.scause == scause,
            tf@.stval == stval,
            tf@.sstatus == sstatus,
            forall|i: int| 0 <= i < NUM_REGISTERS ==> tf@.x[i] == 0,
    {
        let mut x: Vec<usize> = Vec::new();
        let mut i: usize = 0;
        while i < NUM_REGISTERS
            invariant
                i <= NUM_REGISTERS,
                x@.len() == i,
                forall|j: int| 0 <= j < i ==> x@[j] == 0,
            decreases NUM_REGISTERS - i,
        {
            x.push(0);
            i = i + 1;
        }
        TrapFrame { x, sstatus, sepc, stval, scause }
    }

    /// Read one saved register.
    pub fn reg(&self, i: usize) -> (v: usize)
        requires
            self.wf(),
            i < NUM_REGISTERS,
        ensures
            v == self@.x[i as int],
    {
        self.x[i]
    }

    /// Overwrite one saved register; every other field of the frame is kept.
    pub fn set_reg(&mut self, i: usize, v: usize)
        requires
            old(self).wf(),
            i < NUM_REGISTERS,
        ensures
            final(self).wf(),
            final(self)@ == (TrapFrameView { x: old(self)@.x.update(i as int, v), ..old(self)@ }),
    {
        self.x[i] = v;
    }
}

} // verus!
