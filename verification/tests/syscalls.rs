use trap_core::cause::{FatalKind, INTERRUPT_FLAG, INTERRUPT_SUPERVISOR_EXTERNAL};
use trap_core::context::TrapFrame;
use trap_core::fs::{from_cstr, sys_close, sys_read, sys_write};
use trap_core::interrupt::rust_trap;
use trap_core::io::{getc, putchar, puts};
use trap_core::kernel::{FileObject, Kernel};
use trap_core::syscall::{reg_to_result, result_to_reg, SyscallResult};
use trap_core::user;

fn boot_kernel(mem: Vec<u8>) -> Kernel {
    Kernel::new(mem)
}

/// Deliver one byte through the serial interrupt path, as the device would.
fn deliver(k: &mut Kernel, b: u8) {
    k.serial_pending = Some(b);
    let mut tf = TrapFrame::new(0, INTERRUPT_FLAG + INTERRUPT_SUPERVISOR_EXTERNAL, 0, 0);
    rust_trap(&mut tf, k);
}

#[test]
fn read_blocks_then_completes_in_push_order() {
    let mut k = boot_kernel(vec![0; 32]);
    // No byte available yet: the read parks with the provisional 0.
    let ret = user::sys_read(&mut k, 0, 0, 8);
    assert_eq!(ret, 0);
    assert!(k.stdin_buffer.is_empty());
    // Two characters arrive; the retried read returns them in push order.
    deliver(&mut k, b'h');
    deliver(&mut k, b'i');
    let ret = user::sys_read(&mut k, 0, 0, 8);
    assert_eq!(ret, 2);
    assert_eq!(&k.user_memory[0..2], b"hi");
    assert!(k.stdin_buffer.is_empty());
}

#[test]
fn read_takes_at_most_the_asked_length() {
    let mut k = boot_kernel(vec![0; 32]);
    deliver(&mut k, b'a');
    deliver(&mut k, b'b');
    deliver(&mut k, b'c');
    let ret = user::sys_read(&mut k, 0, 4, 2);
    assert_eq!(ret, 2);
    assert_eq!(&k.user_memory[4..6], b"ab");
    assert_eq!(k.stdin_buffer, vec![b'c']);
}

#[test]
fn read_on_missing_descriptor_fails() {
    let mut k = boot_kernel(vec![0; 8]);
    assert_eq!(sys_read(&mut k, 7, 0, 4), SyscallResult::Proceed(-1));
}

#[test]
fn read_with_buffer_outside_memory_fails() {
    let mut k = boot_kernel(vec![0; 8]);
    assert_eq!(sys_read(&mut k, 0, 6, 4), SyscallResult::Proceed(-1));
}

#[test]
fn write_of_n_bytes_completes_with_n() {
    let mut k = boot_kernel(b"hello".to_vec());
    let ret = user::sys_write(&mut k, 1, 0, 5);
    assert_eq!(ret, 5);
    assert_eq!(k.console_output, b"hello".to_vec());
}

#[test]
fn write_on_missing_descriptor_fails() {
    let mut k = boot_kernel(vec![0; 8]);
    assert_eq!(sys_write(&mut k, 9, 0, 1), SyscallResult::Proceed(-1));
}

#[test]
fn write_to_the_input_stream_fails() {
    let mut k = boot_kernel(vec![0; 8]);
    assert_eq!(sys_write(&mut k, 0, 0, 1), SyscallResult::Proceed(-1));
}

#[test]
fn open_with_creat_then_open_again() {
    // Path "log\0" staged at address 0 of the thread's memory.
    let mut mem = b"log\0".to_vec();
    mem.resize(32, 0);
    let mut k = boot_kernel(mem);
    let fd1 = user::sys_open(&mut k, 0, 64);
    assert_eq!(fd1, 2);
    assert_eq!(k.files.len(), 1);
    assert_eq!(k.files[0].path, b"log".to_vec());
    assert_eq!(k.files[0].mode, 0o666);
    // A second open without the creation flag finds the path and binds a
    // descriptor distinct from every open one.
    let fd2 = user::sys_open(&mut k, 0, 0);
    assert_eq!(fd2, 3);
    assert_ne!(fd1, fd2);
    assert_eq!(k.files.len(), 1);
}

#[test]
fn close_then_close_again_is_fatal() {
    let mut mem = b"f\0".to_vec();
    mem.resize(16, 0);
    let mut k = boot_kernel(mem);
    let fd = user::sys_open(&mut k, 0, 64);
    assert_eq!(fd, 2);
    let ret = user::sys_close(&mut k, fd as i32);
    assert_eq!(ret, 0);
    assert_eq!(k.descriptors[2], None);
    // The handle was not re-opened in between: the second close is fatal.
    assert_eq!(
        sys_close(&mut k, fd as i32),
        Err(FatalKind::BadDescriptor)
    );
}

#[test]
fn close_out_of_range_is_fatal() {
    let mut k = boot_kernel(vec![0; 8]);
    assert_eq!(sys_close(&mut k, -1), Err(FatalKind::BadDescriptor));
    assert_eq!(sys_close(&mut k, 5), Err(FatalKind::BadDescriptor));
}

#[test]
fn freed_descriptor_slot_is_reused_by_open() {
    let mut mem = b"a\0b\0".to_vec();
    mem.resize(16, 0);
    let mut k = boot_kernel(mem);
    let fd_a = user::sys_open(&mut k, 0, 64);
    assert_eq!(fd_a, 2);
    user::sys_close(&mut k, 2);
    let fd_b = user::sys_open(&mut k, 2, 64);
    assert_eq!(fd_b, 2);
    assert_eq!(k.descriptors[2], Some(FileObject::File { index: 1 }));
}

#[test]
fn open_creat_on_existing_path_is_fatal() {
    let mut mem = b"f\0".to_vec();
    mem.resize(16, 0);
    let mut k = boot_kernel(mem);
    user::sys_open(&mut k, 0, 64);
    assert_eq!(
        trap_core::fs::sys_open(&mut k, 0, 64),
        Err(FatalKind::OpenFailed)
    );
}

#[test]
fn open_without_creat_on_missing_path_is_fatal() {
    let mut mem = b"nope\0".to_vec();
    mem.resize(16, 0);
    let mut k = boot_kernel(mem);
    assert_eq!(
        trap_core::fs::sys_open(&mut k, 0, 0),
        Err(FatalKind::OpenFailed)
    );
}

#[test]
fn file_write_then_read_back() {
    let mut mem = b"data\0XYZ".to_vec();
    mem.resize(32, 0);
    let mut k = boot_kernel(mem);
    let fd = user::sys_open(&mut k, 0, 64) as usize;
    // Write the three bytes at address 5 into the file.
    let ret = user::sys_write(&mut k, fd, 5, 3);
    assert_eq!(ret, 3);
    assert_eq!(k.files[0].data, b"XYZ".to_vec());
    // Read them back to address 16.
    let ret = user::sys_read(&mut k, fd, 16, 8);
    assert_eq!(ret, 3);
    assert_eq!(&k.user_memory[16..19], b"XYZ");
}

#[test]
fn read_of_an_empty_file_parks() {
    let mut mem = b"e\0".to_vec();
    mem.resize(16, 0);
    let mut k = boot_kernel(mem);
    let fd = user::sys_open(&mut k, 0, 64) as usize;
    assert_eq!(sys_read(&mut k, fd, 4, 4), SyscallResult::Park(0));
}

#[test]
fn exit_records_the_code() {
    let mut k = boot_kernel(vec![0; 8]);
    user::sys_exit(&mut k, 3);
    assert_eq!(k.exited, Some(3));
    let mut k2 = boot_kernel(vec![0; 8]);
    user::sys_exit(&mut k2, -7);
    assert_eq!(k2.exited, Some(-7));
}

#[test]
fn exec_records_the_request() {
    let mut k = boot_kernel(vec![0; 8]);
    user::sys_exec(&mut k, 5);
    assert_eq!(k.exec_request, Some(5));
}

#[test]
fn from_cstr_reads_up_to_the_terminator() {
    let mem = b"ab\0cd".to_vec();
    assert_eq!(from_cstr(&mem, 0), Some(b"ab".to_vec()));
    assert_eq!(from_cstr(&mem, 3), None);
    assert_eq!(from_cstr(&mem, 2), Some(Vec::new()));
    assert_eq!(from_cstr(&b"xy".to_vec(), 0), None);
}

#[test]
fn putchar_and_puts_stage_low_bytes() {
    let mut k = boot_kernel(vec![0; 8]);
    putchar(&mut k, 'A');
    assert_eq!(k.console_output, vec![65]);
    puts(&mut k, "ok\n");
    assert_eq!(k.console_output, b"Aok\n".to_vec());
    // A multi-byte character degrades to its low code-point byte in the
    // one-byte transfer.
    putchar(&mut k, 'é');
    assert_eq!(*k.console_output.last().unwrap(), 0xE9);
}

#[test]
fn getc_returns_the_oldest_buffered_byte() {
    let mut k = boot_kernel(vec![0; 8]);
    deliver(&mut k, b'q');
    deliver(&mut k, b'\r');
    assert_eq!(getc(&mut k), b'q');
    assert_eq!(getc(&mut k), b'\n');
    assert!(k.stdin_buffer.is_empty());
}

#[test]
fn register_images_round_trip() {
    assert_eq!(result_to_reg(0), 0);
    assert_eq!(result_to_reg(5), 5);
    assert_eq!(result_to_reg(-1), usize::MAX);
    assert_eq!(reg_to_result(usize::MAX), -1);
    assert_eq!(reg_to_result(result_to_reg(-12345)), -12345);
    assert_eq!(reg_to_result(7), 7);
}
