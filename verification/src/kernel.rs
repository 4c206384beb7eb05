//! The kernel context: every piece of machine and kernel state the trap core
//! reads or writes, owned by one explicit object instead of ambient globals.
//!
//! The device-facing fields (`sstatus`, `sscratch`, the interrupt-controller
//! and serial-controller registers, the pending serial character) model the
//! hardware registers the core programs; the rest (input buffer, descriptor
//! table, filesystem, the calling thread's mapped memory) model the external
//! collaborators the handlers drive.

use vstd::prelude::*;

verus! {

/// Interrupt-enable bit (SIE) of the supervisor status register.
pub const SSTATUS_SIE: usize = 0x2;

/// The serial device's line number at the platform interrupt controller.
pub const SERIAL: u32 = 0xa;

/// Interval between two timer events, in timer ticks.
pub const TIMEBASE: u64 = 100000;

/// Permission mode given to every file `open` creates.
pub const DEFAULT_FILE_MODE: u32 = 0o666;

/// Upper bound on the descriptor table: a descriptor must stay representable
/// in the 32-bit signed handle `close` takes.
pub const DESCRIPTOR_LIMIT: usize = 0x7fff_ffff;

/// Upper bound on the calling thread's mapped region: a byte count read or
/// written must stay representable in the signed syscall return value.
pub const MEMORY_LIMIT: usize = 0x7fff_ffff;

/// Carriage return, which the serial handler normalizes away.
pub const CARRIAGE_RETURN: u8 = 13;

/// Line feed, which replaces a received carriage return.
pub const LINE_FEED: u8 = 10;

/// A file-like object a descriptor can be bound to: the console input
/// stream, the console output stream, or a regular file of the root
/// filesystem, named by its index there.
#[derive(Clone, Copy, Debug, PartialEq, Eq, Structural)]
pub enum FileObject {
    Stdin,
    Stdout,
    File { index: usize },
}

/// A regular file of the root filesystem: its path, its permission mode and
/// its contents.
pub struct FsFile {
    pub path: Vec<u8>,
    pub mode: u32,
    pub data: Vec<u8>,
}

/// Mathematical image of an [`FsFile`].
#[verifier::ext_equal]
pub struct FsFileView {
    pub path: Seq<u8>,
    pub mode: u32,
    pub data: Seq<u8>,
}

impl View for FsFile {
    type V = FsFileView;

    open spec fn view(&self) -> FsFileView {
        FsFileView { path: self.path@, mode: self.mode, data: self.data@ }
    }
}

/// The mathematical image of the filesystem: one [`FsFileView`] per file.
pub open spec fn spec_files(files: &Vec<FsFile>) -> Seq<FsFileView> {
    Seq::new(files@.len(), |i: int| files@[i]@)
}

/// Mathematical image of the whole kernel context.
#[verifier::ext_equal]
pub struct KernelView {
    pub sstatus: usize,
    pub sscratch: usize,
    pub trap_vector_installed: bool,
    pub sie_sext: bool,
    pub plic_enable: u32,
    pub uart_ier: u8,
    pub uart_mcr: u8,
    pub time: u64,
    pub timer_next_event: u64,
    pub ticks: u64,
    pub serial_pending: Option<u8>,
    pub stdin_buffer: Seq<u8>,
    pub console_output: Seq<u8>,
    pub files: Seq<FsFileView>,
    pub descriptors: Seq<Option<FileObject>>,
    pub user_memory: Seq<u8>,
    pub exited: Option<isize>,
    pub exec_request: Option<usize>,
}

/// The kernel context. Initialized once at boot and never torn down; passed
/// by reference into the dispatcher and the handlers.
pub struct Kernel {
    /// The live supervisor status register (its SIE bit gates interrupts).
    pub sstatus: usize,
    /// The scratch register distinguishing trap-from-user from
    /// trap-from-kernel; zeroed at boot.
    pub sscratch: usize,
    /// Whether the boot sequence has installed the single trap vector.
    pub trap_vector_installed: bool,
    /// Supervisor external-interrupt enable.
    pub sie_sext: bool,
    /// The platform interrupt controller's enable word for this hart.
    pub plic_enable: u32,
    /// The serial controller's interrupt-enable register.
    pub uart_ier: u8,
    /// The serial controller's modem/FIFO control register.
    pub uart_mcr: u8,
    /// The timer's current count.
    pub time: u64,
    /// The programmed comparator value for the next timer event.
    pub timer_next_event: u64,
    /// How often the scheduler's tick hook has run.
    pub ticks: u64,
    /// The serial controller's receive latch: at most one pending character.
    pub serial_pending: Option<u8>,
    /// The process-wide queue of characters received from the serial device,
    /// awaiting consumption by blocking reads.
    pub stdin_buffer: Vec<u8>,
    /// Everything written to the console so far.
    pub console_output: Vec<u8>,
    /// The root filesystem, seen through its lookup/create/read/write
    /// interface.
    pub files: Vec<FsFile>,
    /// The current thread's descriptor table; a freed slot stays vacant
    /// until a later `open` rebinds it.
    pub descriptors: Vec<Option<FileObject>>,
    /// The current thread's mapped memory; syscall buffer and path pointers
    /// are addresses into this region.
    pub user_memory: Vec<u8>,
    /// Set once the current thread has issued the exit syscall.
    pub exited: Option<isize>,
    /// The path pointer of the last exec request, kept for the (external)
    /// process-creation collaborator.
    pub exec_request: Option<usize>,
}

impl View for Kernel {
    type V = KernelView;

    open spec fn view(&self) -> KernelView {
        KernelView {
            sstatus: self.sstatus,
            sscratch: self.sscratch,
            trap_vector_installed: self.trap_vector_installed,
            sie_sext: self.sie_sext,
            plic_enable: self.plic_enable,
            uart_ier: self.uart_ier,
            uart_mcr: self.uart_mcr,
            time: self.time,
            timer_next_event: self.timer_next_event,
            ticks: self.ticks,
            serial_pending: self.serial_pending,
            stdin_buffer: self.stdin_buffer@,
            console_output: self.console_output@,
            files: spec_files(&self.files),
            descriptors: self.descriptors@,
            user_memory: self.user_memory@,
            exited: self.exited,
            exec_request: self.exec_request,
        }
    }
}

/// Well-formedness of the kernel context: every bound descriptor names a
/// file that exists, and the table and the mapped region respect the machine
/// limits the syscall ABI imposes.
pub open spec fn view_wf(kv: KernelView) -> bool {
    &&& forall|i: int|
        0 <= i < kv.descriptors.len() ==> (#[trigger] kv.descriptors[i] matches Some(
            FileObject::File { index },
        ) ==> index < kv.files.len())
    &&& kv.descriptors.len() <= DESCRIPTOR_LIMIT
    &&& kv.user_memory.len() <= MEMORY_LIMIT
}

/// `len` bytes starting at `ptr` lie inside the calling thread's mapped
/// region.
pub open spec fn spec_region_valid(kv: KernelView, ptr: usize, len: usize) -> bool {
    ptr + len <= kv.user_memory.len()
}

/// The mapped region with `src` written at `dst`, every other byte kept.
pub open spec fn spec_write_bytes(mem: Seq<u8>, dst: int, src: Seq<u8>) -> Seq<u8> {
    Seq::new(
        mem.len(),
        |i: int|
            if dst <= i < dst + src.len() {
                src[i - dst]
            } else {
                mem[i]
            },
    )
}

impl Kernel {
    pub open spec fn wf(&self) -> bool {
        view_wf(self@)
    }

    /// The pristine boot state: interrupts and devices unprogrammed, buffers
    /// empty, no files, and the conventional descriptors 0 (console input)
    /// and 1 (console output) bound, over the given mapped region for the
    /// initial thread.
    pub fn new(user_memory: Vec<u8>) -> (k: Kernel)
        requires
            user_memory@.len() <= MEMORY_LIMIT,
        ensures
            k.wf(),
            k@.sstatus == 0,
            k@.sscratch == 0,
            !k@.trap_vector_installed,
            !k@.sie_sext,
            k@.plic_enable == 0,
            k@.uart_ier == 0,
            k@.uart_mcr == 0,
            k@.time == 0,
            k@.timer_next_event == 0,
            k@.ticks == 0,
            k@.serial_pending is None,
            k@.stdin_buffer == Seq::<u8>::empty(),
            k@.console_output == Seq::<u8>::empty(),
            k@.files == Seq::<FsFileView>::empty(),
            k@.descriptors =~= seq![
                Some(FileObject::Stdin),
                Some(FileObject::Stdout),
            ],
            k@.user_memory == user_memory@,
            k@.exited is None,
            k@.exec_request is None,
    {
        let mut descriptors: Vec<Option<FileObject>> = Vec::new();
        descriptors.push(Some(FileObject::Stdin));
        descriptors.push(Some(FileObject::Stdout));
        let k = Kernel {
            sstatus: 0,
            sscratch: 0,
            trap_vector_installed: false,
            sie_sext: false,
            plic_enable: 0,
            uart_ier: 0,
            uart_mcr: 0,
            time: 0,
            timer_next_event: 0,
            ticks: 0,
            serial_pending: None,
            stdin_buffer: Vec::new(),
            console_output: Vec::new(),
            files: Vec::new(),
            descriptors,
            user_memory,
            exited: None,
            exec_request: None,
        };
        proof {
            assert(k@.files =~= Seq::<FsFileView>::empty());
        }
        k
    }

    /// Whether `len` bytes at `ptr` lie inside the mapped region; the
    /// validation step every buffer argument passes before any access.
    pub fn region_valid(&self, ptr: usize, len: usize) -> (b: bool)
        ensures
            b == spec_region_valid(self@, ptr, len),
            self@.user_memory.len() <= usize::MAX,
    {
        let n = self.user_memory.len();
        len <= n && ptr <= n - len
    }

    /// Models the external timer collaborator: program the comparator one
    /// interval past the current count.
    pub fn clock_set_next_event(&mut self)
        requires
            old(self).time + TIMEBASE <= u64::MAX,
        ensures
            final(self)@ == (KernelView {
                timer_next_event: (old(self).time + TIMEBASE) as u64,
                ..old(self)@
            }),
    {
        self.timer_next_event = self.time + TIMEBASE;
    }

    /// Models the external scheduler's per-tick hook.
    pub fn tick(&mut self)
        requires
            old(self).ticks < u64::MAX,
        ensures
            final(self)@ == (KernelView { ticks: (old(self).ticks + 1) as u64, ..old(self)@ }),
    {
        self.ticks = self.ticks + 1;
    }

    /// Models the non-blocking poll of the serial controller: take the
    /// pending character, if any, clearing the latch.
    pub fn getchar_option(&mut self) -> (c: Option<u8>)
        ensures
            c == old(self)@.serial_pending,
            final(self)@ == (KernelView { serial_pending: None, ..old(self)@ }),
    {
        let c = self.serial_pending;
        self.serial_pending = None;
        c
    }

    /// Append one character to the process-wide input buffer.
    pub fn push_stdin(&mut self, b: u8)
        ensures
            final(self)@ == (KernelView { stdin_buffer: old(self)@.stdin_buffer.push(b), ..old(self)@ }),
    {
        self.stdin_buffer.push(b);
    }
}

} // verus!
