use trap_core::cause::{
    classify, fatal_scope, FatalKind, FatalScope, TrapCause, EXCEPTION_BREAKPOINT,
    EXCEPTION_USER_ENV_CALL, INTERRUPT_FLAG, INTERRUPT_SUPERVISOR_EXTERNAL,
    INTERRUPT_SUPERVISOR_TIMER,
};
use trap_core::context::TrapFrame;
use trap_core::interrupt::{
    breakpoint, disable_and_store, enable_and_wfi, enable_serial_interrupt, init,
    init_external_interrupt, restore, rust_trap, TrapOutcome,
};
use trap_core::kernel::{Kernel, CARRIAGE_RETURN, LINE_FEED, SERIAL, SSTATUS_SIE, TIMEBASE};

fn boot_kernel(mem: Vec<u8>) -> Kernel {
    Kernel::new(mem)
}

#[test]
fn classify_decodes_exceptions_and_interrupts() {
    assert_eq!(classify(EXCEPTION_BREAKPOINT), TrapCause::Breakpoint);
    assert_eq!(classify(EXCEPTION_USER_ENV_CALL), TrapCause::UserEnvCall);
    assert_eq!(classify(12), TrapCause::InstructionPageFault);
    assert_eq!(classify(13), TrapCause::LoadPageFault);
    assert_eq!(classify(15), TrapCause::StorePageFault);
    assert_eq!(
        classify(INTERRUPT_FLAG + INTERRUPT_SUPERVISOR_TIMER),
        TrapCause::SupervisorTimer
    );
    assert_eq!(
        classify(INTERRUPT_FLAG + INTERRUPT_SUPERVISOR_EXTERNAL),
        TrapCause::SupervisorExternal
    );
    assert_eq!(classify(2), TrapCause::Unknown);
    assert_eq!(classify(INTERRUPT_FLAG + 1), TrapCause::Unknown);
}

#[test]
fn breakpoint_trap_advances_pc_by_two() {
    let mut k = boot_kernel(vec![0; 16]);
    let mut tf = TrapFrame::new(0x8020_0000, EXCEPTION_BREAKPOINT, 0, 0);
    tf.set_reg(5, 77);
    let out = rust_trap(&mut tf, &mut k);
    assert_eq!(out, TrapOutcome::Resume);
    assert_eq!(tf.sepc, 0x8020_0002);
    assert_eq!(tf.x[5], 77);
}

#[test]
fn breakpoint_handler_steps_the_counter() {
    let mut pc: usize = 0x1000;
    breakpoint(&mut pc);
    assert_eq!(pc, 0x1002);
}

#[test]
fn syscall_trap_advances_pc_by_four_even_when_parked() {
    let mut k = boot_kernel(vec![0; 16]);
    // Read on the empty console input: the call parks.
    let mut tf = TrapFrame::new(0x4000, EXCEPTION_USER_ENV_CALL, 0, 0);
    tf.set_reg(17, 63);
    tf.set_reg(10, 0); // stdin
    tf.set_reg(11, 0);
    tf.set_reg(12, 8);
    let out = rust_trap(&mut tf, &mut k);
    assert_eq!(out, TrapOutcome::Park);
    assert_eq!(tf.sepc, 0x4004);
    assert_eq!(tf.x[10], 0); // the provisional Park value
}

#[test]
fn timer_trap_preserves_frame_and_ticks_once() {
    let mut k = boot_kernel(vec![0; 16]);
    k.time = 500;
    let mut tf = TrapFrame::new(0x9000, INTERRUPT_FLAG + INTERRUPT_SUPERVISOR_TIMER, 7, 3);
    for i in 0..32 {
        tf.set_reg(i, i as usize * 3 + 1);
    }
    let saved = tf.x.clone();
    let out = rust_trap(&mut tf, &mut k);
    assert_eq!(out, TrapOutcome::Resume);
    // The interrupted context resumes unchanged.
    assert_eq!(tf.x, saved);
    assert_eq!(tf.sepc, 0x9000);
    assert_eq!(tf.stval, 7);
    assert_eq!(tf.sstatus, 3);
    // The next timer event is programmed and the tick hook ran exactly once.
    assert_eq!(k.timer_next_event, 500 + TIMEBASE);
    assert_eq!(k.ticks, 1);
}

#[test]
fn external_trap_translates_carriage_return() {
    let mut k = boot_kernel(vec![0; 16]);
    k.serial_pending = Some(CARRIAGE_RETURN);
    let mut tf = TrapFrame::new(0, INTERRUPT_FLAG + INTERRUPT_SUPERVISOR_EXTERNAL, 0, 0);
    let out = rust_trap(&mut tf, &mut k);
    assert_eq!(out, TrapOutcome::Resume);
    assert_eq!(k.stdin_buffer, vec![LINE_FEED]);
    assert_eq!(k.serial_pending, None);
}

#[test]
fn external_trap_keeps_ordinary_bytes() {
    let mut k = boot_kernel(vec![0; 16]);
    k.serial_pending = Some(b'x');
    let mut tf = TrapFrame::new(0, INTERRUPT_FLAG + INTERRUPT_SUPERVISOR_EXTERNAL, 0, 0);
    rust_trap(&mut tf, &mut k);
    assert_eq!(k.stdin_buffer, vec![b'x']);
}

#[test]
fn external_trap_tolerates_no_pending_character() {
    let mut k = boot_kernel(vec![0; 16]);
    let mut tf = TrapFrame::new(0, INTERRUPT_FLAG + INTERRUPT_SUPERVISOR_EXTERNAL, 0, 0);
    let out = rust_trap(&mut tf, &mut k);
    assert_eq!(out, TrapOutcome::Resume);
    assert!(k.stdin_buffer.is_empty());
}

#[test]
fn unknown_cause_is_machine_fatal_once() {
    let mut k = boot_kernel(vec![0; 16]);
    let mut tf = TrapFrame::new(0x7000, 2, 0, 0);
    let out = rust_trap(&mut tf, &mut k);
    assert_eq!(out, TrapOutcome::Fatal(FatalKind::UnknownCause));
    assert_eq!(tf.sepc, 0x7000);
    assert_eq!(k.ticks, 0);
    assert_eq!(fatal_scope(FatalKind::UnknownCause), FatalScope::Machine);
}

#[test]
fn page_fault_is_thread_fatal_and_keeps_diagnostics() {
    let mut k = boot_kernel(vec![0; 16]);
    let mut tf = TrapFrame::new(0x5000, 13, 0xdead, 0);
    let out = rust_trap(&mut tf, &mut k);
    assert_eq!(out, TrapOutcome::Fatal(FatalKind::PageFault));
    assert_eq!(tf.stval, 0xdead);
    assert_eq!(tf.sepc, 0x5000);
    assert_eq!(fatal_scope(FatalKind::PageFault), FatalScope::Thread);
}

#[test]
fn unknown_syscall_number_is_fatal() {
    let mut k = boot_kernel(vec![0; 16]);
    let mut tf = TrapFrame::new(0, EXCEPTION_USER_ENV_CALL, 0, 0);
    tf.set_reg(17, 999);
    let out = rust_trap(&mut tf, &mut k);
    assert_eq!(out, TrapOutcome::Fatal(FatalKind::UnknownSyscall));
    assert_eq!(tf.sepc, 4);
}

#[test]
fn init_programs_devices_and_enables_interrupts() {
    let mut k = boot_kernel(vec![0; 16]);
    init(&mut k);
    assert_eq!(k.sscratch, 0);
    assert!(k.trap_vector_installed);
    assert_eq!(k.sstatus & SSTATUS_SIE, SSTATUS_SIE);
    assert!(k.sie_sext);
    assert_eq!(k.plic_enable, 1u32 << SERIAL);
    assert_eq!(k.uart_mcr, 0x0B);
    assert_eq!(k.uart_ier, 0x01);
}

#[test]
fn init_pieces_program_each_device() {
    let mut k = boot_kernel(vec![0; 16]);
    init_external_interrupt(&mut k);
    assert_eq!(k.plic_enable, 0x400);
    enable_serial_interrupt(&mut k);
    assert_eq!(k.uart_mcr, 0x0B);
    assert_eq!(k.uart_ier, 0x01);
}

#[test]
fn critical_section_primitives_toggle_the_sie_bit() {
    let mut k = boot_kernel(vec![0; 16]);
    k.sstatus = SSTATUS_SIE | 0x100;
    let flags = disable_and_store(&mut k);
    assert_eq!(flags, SSTATUS_SIE | 0x100);
    assert_eq!(k.sstatus & SSTATUS_SIE, 0);
    restore(&mut k, flags);
    assert_eq!(k.sstatus, SSTATUS_SIE | 0x100);
    k.sstatus = 0;
    enable_and_wfi(&mut k);
    assert_eq!(k.sstatus, SSTATUS_SIE);
}
