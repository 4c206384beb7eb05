//! Console I/O helpers over the syscall stubs: one character out, a string
//! out, one character in. Address 0 of the thread's mapped memory is
//! reserved as the one-byte transfer buffer these helpers stage each
//! character through on its way across the syscall boundary.

use vstd::prelude::*;

use crate::kernel::{FileObject, Kernel, KernelView};
use crate::user::{sys_read, sys_write};

verus! {

/// Descriptor 0: the console input stream.
pub const STDIN: usize = 0;

/// Descriptor 1: the console output stream.
pub const STDOUT: usize = 1;

pub const O_RDONLY: i32 = 0;

pub const O_WRONLY: i32 = 1;

pub const O_RDWR: i32 = 2;

/// `open` flag: create the path before looking it up.
pub const O_CREAT: i32 = 64;

pub const O_APPEND: i32 = 1024;

/// The single byte that crosses the syscall boundary for each character:
/// the low byte of the character's code point.
pub open spec fn spec_low_byte(c: char) -> u8 {
    ((c as u32) % 256) as u8
}

/// The helpers' preconditions: the conventional console descriptors are
/// bound and the thread has its one-byte transfer buffer mapped.
pub open spec fn console_ready(kv: KernelView) -> bool {
    &&& kv.user_memory.len() >= 1
    &&& kv.descriptors.len() > 1
    &&& kv.descriptors[STDIN as int] == Some(FileObject::Stdin)
    &&& kv.descriptors[STDOUT as int] == Some(FileObject::Stdout)
}

/// Write one character to the console: its low byte is staged in the
/// transfer buffer and handed to `write` on the output descriptor.
pub fn putchar(k: &mut Kernel, ch: char)
    requires
        old(k).wf(),
        console_ready(old(k)@),
    ensures
        final(k).wf(),
        console_ready(final(k)@),
        final(k)@ == (KernelView {
            console_output: old(k)@.console_output.push(spec_low_byte(ch)),
            user_memory: old(k)@.user_memory.update(0, spec_low_byte(ch)),
            ..old(k)@
        }),
{
    let code = ch as u32;
    let b = (code % 256) as u8;
    k.user_memory[0] = b;
    let ghost kv1 = k@;
    let _ = sys_write(k, STDOUT, 0, 1);
    proof {
        assert(kv1.user_memory.subrange(0, 1) =~= seq![spec_low_byte(ch)]);
        assert(k@.console_output =~= old(k)@.console_output.push(spec_low_byte(ch)));
        assert(k@ =~~= (KernelView {
            console_output: old(k)@.console_output.push(spec_low_byte(ch)),
            user_memory: old(k)@.user_memory.update(0, spec_low_byte(ch)),
            ..old(k)@
        }));
    }
}

/// The console image of a string: the low byte of each of its characters,
/// in order.
pub open spec fn spec_console_bytes(s: Seq<char>) -> Seq<u8> {
    Seq::new(s.len(), |i: int| spec_low_byte(s[i]))
}

/// Write a string to the console, one character at a time. Only the
/// console log and the one-byte transfer buffer change.
pub fn puts(k: &mut Kernel, s: &str)
    requires
        old(k).wf(),
        console_ready(old(k)@),
    ensures
        final(k).wf(),
        console_ready(final(k)@),
        final(k)@.console_output == old(k)@.console_output + spec_console_bytes(s@),
        final(k)@.user_memory.len() == old(k)@.user_memory.len(),
        forall|i: int|
            1 <= i < old(k)@.user_memory.len() ==> final(k)@.user_memory[i] == old(
                k,
            )@.user_memory[i],
        final(k)@ == (KernelView {
            console_output: final(k)@.console_output,
            user_memory: final(k)@.user_memory,
            ..old(k)@
        }),
{
    let n = s.unicode_len();
    let mut i: usize = 0;
    while i < n
        invariant
            i <= n,
            n == s@.len(),
            k.wf(),
            console_ready(k@),
            k@.console_output == old(k)@.console_output + spec_console_bytes(s@.take(i as int)),
            k@.user_memory.len() == old(k)@.user_memory.len(),
            forall|j: int|
                1 <= j < old(k)@.user_memory.len() ==> k@.user_memory[j] == old(
                    k,
                )@.user_memory[j],
            k@ == (KernelView {
                console_output: k@.console_output,
                user_memory: k@.user_memory,
                ..old(k)@
            }),
        decreases n - i,
    {
        let c = s.get_char(i);
        putchar(k, c);
        i = i + 1;
        proof {
            assert(k@.console_output =~= old(k)@.console_output + spec_console_bytes(
                s@.take(i as int),
            ));
        }
    }
    proof {
        assert(spec_console_bytes(s@.take(n as int)) =~= spec_console_bytes(s@));
    }
}

/// Read one character from the console input, blocking semantics already
/// resolved: the caller asks only when a character is buffered, and the
/// read is then owed exactly one byte — the oldest buffered one.
pub fn getc(k: &mut Kernel) -> (c: u8)
    requires
        old(k).wf(),
        console_ready(old(k)@),
        old(k)@.stdin_buffer.len() >= 1,
    ensures
        final(k).wf(),
        console_ready(final(k)@),
        c == old(k)@.stdin_buffer[0],
        final(k)@ == (KernelView {
            stdin_buffer: old(k)@.stdin_buffer.skip(1),
            user_memory: old(k)@.user_memory.update(0, old(k)@.stdin_buffer[0]),
            ..old(k)@
        }),
{
    let ret = sys_read(k, STDIN, 0, 1);
    assert(ret == 1);
    proof {
        assert(k@.user_memory =~= old(k)@.user_memory.update(0, old(k)@.stdin_buffer[0]));
        assert(k@ =~~= (KernelView {
            stdin_buffer: old(k)@.stdin_buffer.skip(1),
            user_memory: old(k)@.user_memory.update(0, old(k)@.stdin_buffer[0]),
            ..old(k)@
        }));
    }
    k.user_memory[0]
}

} // verus!
