//! Trap dispatch: classify the saved cause and run exactly one handler,
//! preserving every part of the trap frame a handler does not own. Also the
//! boot-time interrupt setup and the critical-section primitives, modeled
//! on the kernel context's register fields.

use vstd::prelude::*;

use crate::cause::{spec_classify, classify, FatalKind, TrapCause};
use crate::context::{TrapFrame, TrapFrameView, REG_A0, REG_A1, REG_A2, REG_SYSCALL_ID};
use crate::kernel::{
    Kernel, KernelView, CARRIAGE_RETURN, LINE_FEED, SERIAL, SSTATUS_SIE, TIMEBASE,
};
use crate::syscall::{spec_syscall, spec_result_to_reg, result_to_reg, SyscallResult};
use crate::{BREAKPOINT_INSTRUCTION_WIDTH, SYSCALL_INSTRUCTION_WIDTH};

verus! {

/// How one trap leaves the machine: resume the interrupted context, park
/// the calling thread for a later retry of its syscall, or stop on a fatal
/// condition. The external scheduler acts on `Park`; a caller of the
/// dispatcher decides policy for `Fatal`.
#[derive(Clone, Copy, Debug, PartialEq, Eq, Structural)]
pub enum TrapOutcome {
    Resume,
    Park,
    Fatal(FatalKind),
}

/// The handlers a trap can be routed to.
#[derive(Clone, Copy, Debug, PartialEq, Eq, Structural)]
pub enum Handler {
    Breakpoint,
    PageFault,
    Syscall,
    Timer,
    External,
    Fatal,
}

/// The dispatch table: which handler a decoded cause is routed to. The
/// three page-fault flavors collapse to one handler; every unrecognized
/// cause goes to the fatal path.
pub open spec fn handler_for(c: TrapCause) -> Handler {
    match c {
        TrapCause::Breakpoint => Handler::Breakpoint,
        TrapCause::InstructionPageFault => Handler::PageFault,
        TrapCause::LoadPageFault => Handler::PageFault,
        TrapCause::StorePageFault => Handler::PageFault,
        TrapCause::UserEnvCall => Handler::Syscall,
        TrapCause::SupervisorTimer => Handler::Timer,
        TrapCause::SupervisorExternal => Handler::External,
        TrapCause::Unknown => Handler::Fatal,
    }
}

/// A cause is handled by `h` exactly when the dispatch table routes it
/// there.
pub open spec fn handles(c: TrapCause, h: Handler) -> bool {
    handler_for(c) == h
}

/// Every cause is routed to exactly one handler: one always exists, and
/// two handlers for the same cause are the same handler.
pub proof fn lemma_exactly_one_handler(c: TrapCause)
    ensures
        exists|h: Handler| handles(c, h),
        forall|h1: Handler, h2: Handler| handles(c, h1) && handles(c, h2) ==> h1 == h2,
{
    assert(handles(c, handler_for(c)));
}

/// What the breakpoint handler does: advance the saved program counter past
/// the breakpoint instruction; nothing else changes.
pub open spec fn spec_breakpoint(tf: TrapFrameView) -> TrapFrameView {
    TrapFrameView { sepc: (tf.sepc + BREAKPOINT_INSTRUCTION_WIDTH) as usize, ..tf }
}

/// What the timer handler does: program the next timer event and invoke the
/// scheduler's tick hook, once each.
pub open spec fn spec_super_timer(kv: KernelView) -> KernelView {
    KernelView {
        timer_next_event: (kv.time + TIMEBASE) as u64,
        ticks: (kv.ticks + 1) as u64,
        ..kv
    }
}

/// What the external-interrupt handler does: poll the serial device for
/// exactly one pending character; if one is there, push it into the input
/// buffer with carriage return translated to line feed. The flag says
/// whether a character was consumed.
pub open spec fn spec_try_serial(kv: KernelView) -> (KernelView, bool) {
    match kv.serial_pending {
        Some(ch) => (
            KernelView {
                serial_pending: None,
                stdin_buffer: kv.stdin_buffer.push(
                    if ch == CARRIAGE_RETURN {
                        LINE_FEED
                    } else {
                        ch
                    },
                ),
                ..kv
            },
            true,
        ),
        None => (kv, false),
    }
}

/// What the syscall path does: advance the saved program counter past the
/// syscall instruction, dispatch on the syscall-number register with the
/// three argument registers, and write the result's value back into the
/// return-value register — for a parked call too, whose provisional value
/// the caller sees. A fatal syscall leaves no result to write.
pub open spec fn spec_syscall_trap(tf: TrapFrameView, kv: KernelView) -> (
    TrapFrameView,
    KernelView,
    TrapOutcome,
) {
    let tf1 = TrapFrameView { sepc: (tf.sepc + SYSCALL_INSTRUCTION_WIDTH) as usize, ..tf };
    let (kv2, res) = spec_syscall(
        kv,
        tf.x[REG_SYSCALL_ID as int],
        tf.x[REG_A0 as int],
        tf.x[REG_A1 as int],
        tf.x[REG_A2 as int],
    );
    match res {
        Ok(SyscallResult::Proceed(v)) => (
            TrapFrameView { x: tf1.x.update(REG_A0 as int, spec_result_to_reg(v)), ..tf1 },
            kv2,
            TrapOutcome::Resume,
        ),
        Ok(SyscallResult::Park(v)) => (
            TrapFrameView { x: tf1.x.update(REG_A0 as int, spec_result_to_reg(v)), ..tf1 },
            kv2,
            TrapOutcome::Park,
        ),
        Err(f) => (tf1, kv2, TrapOutcome::Fatal(f)),
    }
}

/// What one whole trap does: route the decoded cause through the dispatch
/// table to exactly one handler and apply that handler's transition.
pub open spec fn spec_rust_trap(tf: TrapFrameView, kv: KernelView) -> (
    TrapFrameView,
    KernelView,
    TrapOutcome,
) {
    match handler_for(spec_classify(tf.scause)) {
        Handler::Breakpoint => (spec_breakpoint(tf), kv, TrapOutcome::Resume),
        Handler::PageFault => (tf, kv, TrapOutcome::Fatal(FatalKind::PageFault)),
        Handler::Syscall => spec_syscall_trap(tf, kv),
        Handler::Timer => (tf, spec_super_timer(kv), TrapOutcome::Resume),
        Handler::External => (tf, spec_try_serial(kv).0, TrapOutcome::Resume),
        Handler::Fatal => (tf, kv, TrapOutcome::Fatal(FatalKind::UnknownCause)),
    }
}

/// The machine-limit side conditions one trap needs: room to advance the
/// program counter past the trapping instruction, headroom on the timer and
/// tick counters, and a descriptor table below its hard cap before an
/// `open`.
pub open spec fn trap_requires(tf: TrapFrameView, kv: KernelView) -> bool {
    &&& spec_classify(tf.scause) == TrapCause::Breakpoint ==> tf.sepc
        + BREAKPOINT_INSTRUCTION_WIDTH <= usize::MAX
    &&& spec_classify(tf.scause) == TrapCause::UserEnvCall ==> tf.sepc
        + SYSCALL_INSTRUCTION_WIDTH <= usize::MAX && (tf.x[REG_SYSCALL_ID as int]
        == crate::syscall::SYSCALL_OPEN ==> kv.descriptors.len()
        < crate::kernel::DESCRIPTOR_LIMIT)
    &&& spec_classify(tf.scause) == TrapCause::SupervisorTimer ==> kv.time + TIMEBASE
        <= u64::MAX && kv.ticks < u64::MAX
}

/// Advance the saved program counter past a breakpoint instruction.
pub fn breakpoint(sepc: &mut usize)
    requires
        *old(sepc) + BREAKPOINT_INSTRUCTION_WIDTH <= usize::MAX,
    ensures
        *final(sepc) == *old(sepc) + BREAKPOINT_INSTRUCTION_WIDTH,
{
    *sepc = *sepc + BREAKPOINT_INSTRUCTION_WIDTH;
}

/// The page-fault handler: demand paging is not implemented, so the fault
/// is fatal to the faulting thread; the frame, whose `stval` and `sepc`
/// carry the diagnostic, is left untouched for the caller to report.
pub fn page_fault(tf: &mut TrapFrame) -> (r: TrapOutcome)
    ensures
        final(tf)@ == old(tf)@,
        r == TrapOutcome::Fatal(FatalKind::PageFault),
{
    TrapOutcome::Fatal(FatalKind::PageFault)
}

/// The timer handler: program the next timer event, then run the
/// scheduler's tick hook; it never blocks.
pub fn super_timer(k: &mut Kernel)
    requires
        old(k).time + TIMEBASE <= u64::MAX,
        old(k).ticks < u64::MAX,
    ensures
        final(k)@ == spec_super_timer(old(k)@),
{
    k.clock_set_next_event();
    k.tick();
}

/// Poll the serial device once; push the received character, with carriage
/// return translated to line feed, into the input buffer.
pub fn try_serial(k: &mut Kernel) -> (r: bool)
    ensures
        final(k)@ == spec_try_serial(old(k)@).0,
        r == spec_try_serial(old(k)@).1,
{
    match k.getchar_option() {
        Some(ch) => {
            if ch == CARRIAGE_RETURN {
                k.push_stdin(LINE_FEED);
            } else {
                k.push_stdin(ch);
            }
            true
        },
        None => false,
    }
}

/// The external-interrupt handler: the serial device is the only external
/// source this core serves; interrupt coalescing or noise (no pending
/// character) is tolerated silently.
pub fn external(k: &mut Kernel)
    ensures
        final(k)@ == spec_try_serial(old(k)@).0,
{
    let _ = try_serial(k);
}

/// The syscall path of the dispatcher: step the program counter past the
/// syscall instruction, run the dispatch protocol on the argument
/// registers, and store the result in the return-value register.
fn syscall(tf: &mut TrapFrame, k: &mut Kernel) -> (r: TrapOutcome)
    requires
        old(tf).wf(),
        old(k).wf(),
        old(tf).sepc + SYSCALL_INSTRUCTION_WIDTH <= usize::MAX,
        old(tf)@.x[REG_SYSCALL_ID as int] == crate::syscall::SYSCALL_OPEN ==> old(
            k,
        )@.descriptors.len() < crate::kernel::DESCRIPTOR_LIMIT,
    ensures
        final(tf).wf(),
        final(k).wf(),
        (final(tf)@, final(k)@, r) == spec_syscall_trap(old(tf)@, old(k)@),
{
    tf.sepc = tf.sepc + SYSCALL_INSTRUCTION_WIDTH;
    let id = tf.reg(REG_SYSCALL_ID);
    let a0 = tf.reg(REG_A0);
    let a1 = tf.reg(REG_A1);
    let a2 = tf.reg(REG_A2);
    let res = crate::syscall::syscall(id, [a0, a1, a2], k);
    match res {
        Ok(SyscallResult::Proceed(v)) => {
            tf.set_reg(REG_A0, result_to_reg(v));
            TrapOutcome::Resume
        },
        Ok(SyscallResult::Park(v)) => {
            tf.set_reg(REG_A0, result_to_reg(v));
            TrapOutcome::Park
        },
        Err(f) => TrapOutcome::Fatal(f),
    }
}

/// The trap dispatcher: classify the saved cause and run exactly one
/// handler. Every register but the return-value slot, and every saved
/// control field but the program counter, leaves the frame unchanged; the
/// program counter moves only past a breakpoint or syscall instruction.
pub fn rust_trap(tf: &mut TrapFrame, k: &mut Kernel) -> (r: TrapOutcome)
    requires
        old(tf).wf(),
        old(k).wf(),
        trap_requires(old(tf)@, old(k)@),
    ensures
        final(tf).wf(),
        final(k).wf(),
        (final(tf)@, final(k)@, r) == spec_rust_trap(old(tf)@, old(k)@),
        forall|i: int|
            0 <= i < old(tf)@.x.len() && i != REG_A0 ==> final(tf)@.x[i] == old(tf)@.x[i],
        final(tf)@.scause == old(tf)@.scause,
        final(tf)@.stval == old(tf)@.stval,
        final(tf)@.sstatus == old(tf)@.sstatus,
        spec_classify(old(tf)@.scause) == TrapCause::Breakpoint ==> final(tf)@.sepc == old(
            tf,
        )@.sepc + BREAKPOINT_INSTRUCTION_WIDTH && r == TrapOutcome::Resume,
        spec_classify(old(tf)@.scause) == TrapCause::UserEnvCall ==> final(tf)@.sepc == old(
            tf,
        )@.sepc + SYSCALL_INSTRUCTION_WIDTH,
        !(spec_classify(old(tf)@.scause) == TrapCause::Breakpoint || spec_classify(
            old(tf)@.scause,
        ) == TrapCause::UserEnvCall) ==> final(tf)@ == old(tf)@,
        spec_classify(old(tf)@.scause) == TrapCause::Unknown ==> r == TrapOutcome::Fatal(
            FatalKind::UnknownCause,
        ) && final(tf)@ == old(tf)@ && final(k)@ == old(k)@,
{
    match classify(tf.scause) {
        TrapCause::Breakpoint => {
            breakpoint(&mut tf.sepc);
            TrapOutcome::Resume
        },
        TrapCause::InstructionPageFault => page_fault(tf),
        TrapCause::LoadPageFault => page_fault(tf),
        TrapCause::StorePageFault => page_fault(tf),
        TrapCause::UserEnvCall => syscall(tf, k),
        TrapCause::SupervisorTimer => {
            super_timer(k);
            TrapOutcome::Resume
        },
        TrapCause::SupervisorExternal => {
            external(k);
            TrapOutcome::Resume
        },
        TrapCause::Unknown => TrapOutcome::Fatal(FatalKind::UnknownCause),
    }
}

/// A timer interrupt reprograms the next timer event and runs the tick hook
/// exactly once, and leaves everything else — the whole trap frame
/// included, per the dispatcher's frame-preservation contract — unchanged.
pub proof fn lemma_timer_reprograms_and_ticks_once(tf: TrapFrameView, kv: KernelView)
    requires
        spec_classify(tf.scause) == TrapCause::SupervisorTimer,
    ensures
        spec_rust_trap(tf, kv).0 == tf,
        spec_rust_trap(tf, kv).2 == TrapOutcome::Resume,
        spec_rust_trap(tf, kv).1 == (KernelView {
            timer_next_event: (kv.time + TIMEBASE) as u64,
            ticks: (kv.ticks + 1) as u64,
            ..kv
        }),
{
}

/// An external interrupt that delivers a carriage return pushes a line
/// feed — not the carriage return — into the input buffer, and consumes
/// the pending character.
pub proof fn lemma_serial_carriage_return_becomes_newline(tf: TrapFrameView, kv: KernelView)
    requires
        spec_classify(tf.scause) == TrapCause::SupervisorExternal,
        kv.serial_pending == Some(CARRIAGE_RETURN),
    ensures
        spec_rust_trap(tf, kv).0 == tf,
        spec_rust_trap(tf, kv).1.stdin_buffer == kv.stdin_buffer.push(LINE_FEED),
        spec_rust_trap(tf, kv).1.serial_pending is None,
        spec_rust_trap(tf, kv).2 == TrapOutcome::Resume,
{
}

/// An unrecognized cause reaches the fatal path and nothing else: no
/// handler effect touches the frame or the kernel context, and the outcome
/// is the machine-fatal unknown-cause condition, exactly once.
pub proof fn lemma_unknown_cause_is_fatal(tf: TrapFrameView, kv: KernelView)
    requires
        spec_classify(tf.scause) == TrapCause::Unknown,
    ensures
        spec_rust_trap(tf, kv) == (tf, kv, TrapOutcome::Fatal(FatalKind::UnknownCause)),
        handler_for(spec_classify(tf.scause)) == Handler::Fatal,
{
}

/// Boot-time interrupt setup, in order: zero the scratch register, install
/// the trap vector, raise the global supervisor interrupt enable, enable
/// external-interrupt delivery, then open the platform controller's serial
/// line and program the serial device itself.
pub fn init(k: &mut Kernel)
    ensures
        final(k)@ == (KernelView {
            sscratch: 0,
            trap_vector_installed: true,
            sstatus: old(k).sstatus | SSTATUS_SIE,
            sie_sext: true,
            plic_enable: 1u32 << SERIAL,
            uart_mcr: 0x0B,
            uart_ier: 0x01,
            ..old(k)@
        }),
{
    k.sscratch = 0;
    k.trap_vector_installed = true;
    k.sstatus = k.sstatus | SSTATUS_SIE;
    k.sie_sext = true;
    init_external_interrupt(k);
    enable_serial_interrupt(k);
}

/// Open the serial device's line at the platform interrupt controller for
/// this hart's supervisor mode.
pub fn init_external_interrupt(k: &mut Kernel)
    ensures
        final(k)@ == (KernelView { plic_enable: 1u32 << SERIAL, ..old(k)@ }),
{
    k.plic_enable = 1u32 << SERIAL;
}

/// Program the serial controller: FIFO/modem control first, then its
/// receive interrupt enable.
pub fn enable_serial_interrupt(k: &mut Kernel)
    ensures
        final(k)@ == (KernelView { uart_mcr: 0x0B, uart_ier: 0x01, ..old(k)@ }),
{
    k.uart_mcr = 0x0B;
    k.uart_ier = 0x01;
}

/// Atomically clear the interrupt-enable bit of the live status register
/// and hand back its prior value for a later [`restore`].
pub fn disable_and_store(k: &mut Kernel) -> (flags: usize)
    ensures
        flags == old(k).sstatus,
        final(k)@ == (KernelView { sstatus: old(k).sstatus & !SSTATUS_SIE, ..old(k)@ }),
{
    let flags = k.sstatus;
    k.sstatus = k.sstatus & !SSTATUS_SIE;
    flags
}

/// Atomically set status bits back from a previously captured value,
/// re-enabling whatever [`disable_and_store`] captured as enabled.
pub fn restore(k: &mut Kernel, flags: usize)
    ensures
        final(k)@ == (KernelView { sstatus: old(k).sstatus | flags, ..old(k)@ }),
{
    k.sstatus = k.sstatus | flags;
}

/// Atomically enable interrupts and idle the hart until the next one, as a
/// single transition: the halt itself is the hardware's, so the model
/// records the enable that makes the wakeup impossible to miss.
pub fn enable_and_wfi(k: &mut Kernel)
    ensures
        final(k)@ == (KernelView { sstatus: old(k).sstatus | SSTATUS_SIE, ..old(k)@ }),
{
    k.sstatus = k.sstatus | SSTATUS_SIE;
}

} // verus!
