//! The file-descriptor syscalls: `read`, `write`, `open` and `close`, each
//! specified as a transition on the kernel context and proved to implement
//! it. Buffer and path arguments are addresses into the calling thread's
//! mapped region and are bounds-checked before any access.

use vstd::prelude::*;

use crate::cause::FatalKind;
use crate::kernel::{
    spec_files, spec_region_valid, spec_write_bytes, view_wf, FileObject, FsFile, FsFileView, Kernel,
    KernelView, DEFAULT_FILE_MODE, DESCRIPTOR_LIMIT,
};
use crate::syscall::SyscallResult;

verus! {

/// `open` flag: create the path before looking it up.
pub const O_CREAT: u32 = 64;

/// Index of the first NUL byte of `mem` at or after `i`, if one exists.
pub open spec fn spec_cstr_end(mem: Seq<u8>, i: int) -> Option<int>
    decreases mem.len() - i when 0 <= i <= mem.len()
{
    if i < 0 || i >= mem.len() {
        None
    } else if mem[i] == 0 {
        Some(i)
    } else {
        spec_cstr_end(mem, i + 1)
    }
}

/// The NUL-terminated byte string at `addr`, if one lies inside `mem`.
pub open spec fn spec_cstr(mem: Seq<u8>, addr: usize) -> Option<Seq<u8>> {
    if addr > mem.len() {
        None
    } else {
        match spec_cstr_end(mem, addr as int) {
            Some(end) => Some(mem.subrange(addr as int, end)),
            None => None,
        }
    }
}

/// Decode the NUL-terminated path string at `addr` in the calling thread's
/// memory. `None` when no terminator lies inside the mapped region: the
/// scan never reads past the region.
pub fn from_cstr(mem: &Vec<u8>, addr: usize) -> (r: Option<Vec<u8>>)
    ensures
        match spec_cstr(mem@, addr) {
            Some(s) => r is Some && r->Some_0@ == s,
            None => r is None,
        },
{
    let n = mem.len();
    if addr >= n {
        return None;
    }
    let mut out: Vec<u8> = Vec::new();
    let mut i: usize = addr;
    while i < n
        invariant
            addr <= i <= n,
            n == mem@.len(),
            out@ == mem@.subrange(addr as int, i as int),
            spec_cstr_end(mem@, addr as int) == spec_cstr_end(mem@, i as int),
        decreases n - i,
    {
        let b = mem[i];
        if b == 0 {
            return Some(out);
        }
        out.push(b);
        i = i + 1;
        proof {
            assert(out@ =~= mem@.subrange(addr as int, i as int));
        }
    }
    None
}

/// Index of the first file of `files` at or after `i` whose path is `path`,
/// if any: the filesystem's lookup interface.
pub open spec fn spec_lookup_from(files: Seq<FsFileView>, path: Seq<u8>, i: int) -> Option<int>
    decreases files.len() - i when 0 <= i <= files.len()
{
    if i < 0 || i >= files.len() {
        None
    } else if files[i].path == path {
        Some(i)
    } else {
        spec_lookup_from(files, path, i + 1)
    }
}

/// Index of the file named `path`, if it exists.
pub open spec fn spec_lookup(files: Seq<FsFileView>, path: Seq<u8>) -> Option<int> {
    spec_lookup_from(files, path, 0)
}

/// Index of the first vacant descriptor slot at or after `i`, if any.
pub open spec fn spec_first_free_from(descs: Seq<Option<FileObject>>, i: int) -> Option<int>
    decreases descs.len() - i when 0 <= i <= descs.len()
{
    if i < 0 || i >= descs.len() {
        None
    } else if descs[i] is None {
        Some(i)
    } else {
        spec_first_free_from(descs, i + 1)
    }
}

/// Where the scan for a vacant slot lands: inside the table, on a vacant
/// slot — or nowhere, and then every slot at or after `i` is taken.
pub proof fn lemma_first_free_from(descs: Seq<Option<FileObject>>, i: int)
    requires
        0 <= i <= descs.len(),
    ensures
        match spec_first_free_from(descs, i) {
            Some(j) => i <= j < descs.len() && descs[j] is None,
            None => forall|j: int| i <= j < descs.len() ==> descs[j] is Some,
        },
    decreases descs.len() - i,
{
    if i < descs.len() && !(descs[i] is None) {
        lemma_first_free_from(descs, i + 1);
    }
}

/// Where the lookup scan lands: on a file with the looked-up path — or
/// nowhere, and then no file at or after `i` carries it.
pub proof fn lemma_lookup_from(files: Seq<FsFileView>, path: Seq<u8>, i: int)
    requires
        0 <= i <= files.len(),
    ensures
        match spec_lookup_from(files, path, i) {
            Some(j) => i <= j < files.len() && files[j].path == path,
            None => forall|j: int| i <= j < files.len() ==> files[j].path != path,
        },
    decreases files.len() - i,
{
    if i < files.len() && files[i].path != path {
        lemma_lookup_from(files, path, i + 1);
    }
}

/// Allocate a descriptor slot for `obj`: the first vacant slot is reused,
/// otherwise the table grows by one. Returns the new table and the handle.
pub open spec fn spec_alloc_fd(descs: Seq<Option<FileObject>>, obj: FileObject) -> (Seq<
    Option<FileObject>,
>, isize) {
    match spec_first_free_from(descs, 0) {
        Some(i) => (descs.update(i, Some(obj)), i as isize),
        None => (descs.push(Some(obj)), descs.len() as isize),
    }
}

/// What `read` does: resolve the descriptor, bounds-check the buffer, then
/// transfer up to `size` bytes from the object read at offset zero. A read
/// that moves no bytes parks the calling thread for retry; a descriptor or
/// buffer that cannot be used completes with -1.
pub open spec fn spec_sys_read(kv: KernelView, fd: usize, buf: usize, size: usize) -> (
    KernelView,
    SyscallResult,
) {
    if fd >= kv.descriptors.len() || kv.descriptors[fd as int] is None {
        (kv, SyscallResult::Proceed(-1isize))
    } else if !spec_region_valid(kv, buf, size) {
        (kv, SyscallResult::Proceed(-1isize))
    } else {
        match kv.descriptors[fd as int]->Some_0 {
            FileObject::Stdin => {
                let n = if size <= kv.stdin_buffer.len() {
                    size as int
                } else {
                    kv.stdin_buffer.len() as int
                };
                if n == 0 {
                    (kv, SyscallResult::Park(0isize))
                } else {
                    (
                        KernelView {
                            user_memory: spec_write_bytes(
                                kv.user_memory,
                                buf as int,
                                kv.stdin_buffer.take(n),
                            ),
                            stdin_buffer: kv.stdin_buffer.skip(n),
                            ..kv
                        },
                        SyscallResult::Proceed(n as isize),
                    )
                }
            },
            FileObject::Stdout => (kv, SyscallResult::Proceed(-1isize)),
            FileObject::File { index } => {
                if index >= kv.files.len() {
                    (kv, SyscallResult::Proceed(-1isize))
                } else {
                    let data = kv.files[index as int].data;
                    let n = if size <= data.len() {
                        size as int
                    } else {
                        data.len() as int
                    };
                    if n == 0 {
                        (kv, SyscallResult::Park(0isize))
                    } else {
                        (
                            KernelView {
                                user_memory: spec_write_bytes(
                                    kv.user_memory,
                                    buf as int,
                                    data.take(n),
                                ),
                                ..kv
                            },
                            SyscallResult::Proceed(n as isize),
                        )
                    }
                }
            },
        }
    }
}

/// What `write` does: resolve the descriptor, bounds-check the buffer, then
/// write all `size` bytes — appended to the console for the output stream,
/// or overwriting a regular file from offset zero (extending it when the
/// write runs past its end). Write never blocks; a descriptor or buffer
/// that cannot be used completes with -1.
pub open spec fn spec_sys_write(kv: KernelView, fd: usize, buf: usize, size: usize) -> (
    KernelView,
    SyscallResult,
) {
    if fd >= kv.descriptors.len() || kv.descriptors[fd as int] is None {
        (kv, SyscallResult::Proceed(-1isize))
    } else if !spec_region_valid(kv, buf, size) {
        (kv, SyscallResult::Proceed(-1isize))
    } else {
        let bytes = kv.user_memory.subrange(buf as int, buf + size);
        match kv.descriptors[fd as int]->Some_0 {
            FileObject::Stdin => (kv, SyscallResult::Proceed(-1isize)),
            FileObject::Stdout => (
                KernelView { console_output: kv.console_output + bytes, ..kv },
                SyscallResult::Proceed(size as isize),
            ),
            FileObject::File { index } => {
                if index >= kv.files.len() {
                    (kv, SyscallResult::Proceed(-1isize))
                } else {
                    let file = kv.files[index as int];
                    let data = if size >= file.data.len() {
                        bytes
                    } else {
                        bytes + file.data.skip(size as int)
                    };
                    (
                        KernelView {
                            files: kv.files.update(
                                index as int,
                                FsFileView { data, ..file },
                            ),
                            ..kv
                        },
                        SyscallResult::Proceed(size as isize),
                    )
                }
            },
        }
    }
}

/// What `open` does: decode the path; with [`O_CREAT`], create it
/// (creation of an existing path fails, and a failed create or lookup is
/// fatal to the thread); look it up; bind a fresh descriptor to it.
/// Complete with the new handle.
pub open spec fn spec_sys_open(kv: KernelView, path_ptr: usize, flags: u32) -> (
    KernelView,
    Result<SyscallResult, FatalKind>,
) {
    match spec_cstr(kv.user_memory, path_ptr) {
        None => (kv, Err(FatalKind::OpenFailed)),
        Some(path) => {
            if flags & O_CREAT != 0 {
                if spec_lookup(kv.files, path) is Some {
                    (kv, Err(FatalKind::OpenFailed))
                } else {
                    let file = FsFileView {
                        path,
                        mode: DEFAULT_FILE_MODE,
                        data: Seq::<u8>::empty(),
                    };
                    let obj = FileObject::File { index: kv.files.len() as usize };
                    let (descs, fd) = spec_alloc_fd(kv.descriptors, obj);
                    (
                        KernelView { files: kv.files.push(file), descriptors: descs, ..kv },
                        Ok(SyscallResult::Proceed(fd)),
                    )
                }
            } else {
                match spec_lookup(kv.files, path) {
                    None => (kv, Err(FatalKind::OpenFailed)),
                    Some(index) => {
                        let obj = FileObject::File { index: index as usize };
                        let (descs, fd) = spec_alloc_fd(kv.descriptors, obj);
                        (
                            KernelView { descriptors: descs, ..kv },
                            Ok(SyscallResult::Proceed(fd)),
                        )
                    },
                }
            }
        },
    }
}

/// What `close` does: a handle outside the table, or naming a slot already
/// freed, is fatal; otherwise the slot is vacated and the call completes
/// with 0. A freed handle stays invalid until an `open` rebinds it.
pub open spec fn spec_sys_close(kv: KernelView, fd: i32) -> (
    KernelView,
    Result<SyscallResult, FatalKind>,
) {
    if fd < 0 || fd >= kv.descriptors.len() || kv.descriptors[fd as int] is None {
        (kv, Err(FatalKind::BadDescriptor))
    } else {
        (
            KernelView { descriptors: kv.descriptors.update(fd as int, None), ..kv },
            Ok(SyscallResult::Proceed(0isize)),
        )
    }
}

/// Byte-for-byte equality of two byte vectors.
fn bytes_equal(a: &Vec<u8>, b: &Vec<u8>) -> (r: bool)
    ensures
        r == (a@ == b@),
{
    if a.len() != b.len() {
        return false;
    }
    let n = a.len();
    let mut i: usize = 0;
    while i < n
        invariant
            i <= n,
            n == a@.len(),
            a@.len() == b@.len(),
            forall|j: int| 0 <= j < i ==> a@[j] == b@[j],
        decreases n - i,
    {
        if a[i] != b[i] {
            return false;
        }
        i = i + 1;
    }
    proof {
        assert(a@ =~= b@);
    }
    true
}

/// Look the path up in the root filesystem: the index of its file, if any.
fn lookup(files: &Vec<FsFile>, path: &Vec<u8>) -> (r: Option<usize>)
    ensures
        match r {
            Some(i) => spec_lookup(spec_files(files), path@) == Some(i as int),
            None => spec_lookup(spec_files(files), path@) is None,
        },
{
    let n = files.len();
    let mut i: usize = 0;
    while i < n
        invariant
            i <= n,
            n == files@.len(),
            spec_lookup_from(spec_files(files), path@, 0) == spec_lookup_from(
                spec_files(files),
                path@,
                i as int,
            ),
        decreases n - i,
    {
        if bytes_equal(&files[i].path, path) {
            proof {
                assert(spec_files(files)[i as int].path == path@);
            }
            return Some(i);
        }
        proof {
            assert(spec_files(files)[i as int].path != path@);
        }
        i = i + 1;
    }
    None
}

/// Bind `obj` to a fresh descriptor slot of the current thread: the first
/// vacant slot, or a new one at the end of the table.
fn alloc_fd(k: &mut Kernel, obj: FileObject) -> (fd: isize)
    requires
        old(k)@.descriptors.len() <= DESCRIPTOR_LIMIT,
    ensures
        final(k)@ == (KernelView {
            descriptors: spec_alloc_fd(old(k)@.descriptors, obj).0,
            ..old(k)@
        }),
        fd == spec_alloc_fd(old(k)@.descriptors, obj).1,
{
    let n = k.descriptors.len();
    let mut i: usize = 0;
    while i < n
        invariant
            i <= n,
            n == k@.descriptors.len(),
            k == old(k),
            n <= DESCRIPTOR_LIMIT,
            spec_first_free_from(k@.descriptors, 0) == spec_first_free_from(
                k@.descriptors,
                i as int,
            ),
        decreases n - i,
    {
        if k.descriptors[i].is_none() {
            k.descriptors[i] = Some(obj);
            return i as isize;
        }
        i = i + 1;
    }
    k.descriptors.push(Some(obj));
    n as isize
}

/// Read from the file bound to `fd` into the caller's buffer region; reads
/// happen at offset zero of the object. Complete with the positive byte
/// count moved, park the thread when no byte is available yet, complete
/// with -1 on a descriptor or buffer that cannot be used.
pub fn sys_read(k: &mut Kernel, fd: usize, buf: usize, size: usize) -> (r: SyscallResult)
    requires
        old(k).wf(),
    ensures
        final(k).wf(),
        final(k)@ == spec_sys_read(old(k)@, fd, buf, size).0,
        r == spec_sys_read(old(k)@, fd, buf, size).1,
        old(k)@.descriptors.len() > fd && old(k)@.descriptors[fd as int] == Some(
            FileObject::Stdin,
        ) && old(k)@.stdin_buffer.len() == 0 && spec_region_valid(old(k)@, buf, size)
            ==> r == SyscallResult::Park(0isize) && final(k)@ == old(k)@,
{
    if fd >= k.descriptors.len() {
        return SyscallResult::Proceed(-1isize);
    }
    let obj = k.descriptors[fd];
    let obj = match obj {
        None => { return SyscallResult::Proceed(-1isize); },
        Some(o) => o,
    };
    if !k.region_valid(buf, size) {
        return SyscallResult::Proceed(-1isize);
    }
    match obj {
        FileObject::Stdin => {
            let avail = k.stdin_buffer.len();
            let n = if size <= avail { size } else { avail };
            if n == 0 {
                return SyscallResult::Park(0isize);
            }
            let ghost kv0 = k@;
            let mut j: usize = 0;
            while j < n
                invariant
                    j <= n,
                    n <= size,
                    n <= kv0.stdin_buffer.len(),
                    buf + size <= kv0.user_memory.len(),
                    kv0.user_memory.len() <= usize::MAX,
                    k@.user_memory.len() == kv0.user_memory.len(),
                    forall|i: int|
                        buf <= i < buf + j ==> k@.user_memory[i] == kv0.stdin_buffer[i - buf],
                    forall|i: int|
                        0 <= i < kv0.user_memory.len() && !(buf <= i < buf + j)
                            ==> k@.user_memory[i] == kv0.user_memory[i],
                    k@ == (KernelView { user_memory: k@.user_memory, ..kv0 }),
                decreases n - j,
            {
                let b = k.stdin_buffer[j];
                k.user_memory[buf + j] = b;
                j = j + 1;
            }
            let mut dropped: usize = 0;
            while dropped < n
                invariant
                    dropped <= n,
                    n <= kv0.stdin_buffer.len(),
                    k@.stdin_buffer == kv0.stdin_buffer.skip(dropped as int),
                    k@ == (KernelView {
                        user_memory: k@.user_memory,
                        stdin_buffer: k@.stdin_buffer,
                        ..kv0
                    }),
                    k@.user_memory == spec_write_bytes(
                        kv0.user_memory,
                        buf as int,
                        kv0.stdin_buffer.take(n as int),
                    ),
                decreases n - dropped,
            {
                k.stdin_buffer.remove(0);
                proof {
                    assert(kv0.stdin_buffer.skip(dropped as int).remove(0) =~= kv0
                        .stdin_buffer
                        .skip(dropped + 1));
                }
                dropped = dropped + 1;
            }
            proof {
                assert(k@ =~~= spec_sys_read(kv0, fd, buf, size).0);
            }
            SyscallResult::Proceed(n as isize)
        },
        FileObject::Stdout => SyscallResult::Proceed(-1isize),
        FileObject::File { index } => {
            if index >= k.files.len() {
                return SyscallResult::Proceed(-1isize);
            }
            let avail = k.files[index].data.len();
            let n = if size <= avail { size } else { avail };
            if n == 0 {
                return SyscallResult::Park(0isize);
            }
            let ghost kv0 = k@;
            let mut j: usize = 0;
            while j < n
                invariant
                    j <= n,
                    n <= size,
                    index < k@.files.len(),
                    n <= k@.files[index as int].data.len(),
                    buf + size <= kv0.user_memory.len(),
                    kv0.user_memory.len() <= usize::MAX,
                    k@.user_memory.len() == kv0.user_memory.len(),
                    forall|i: int|
                        buf <= i < buf + j ==> k@.user_memory[i] == kv0.files[
                            index as int
                        ].data[i - buf],
                    forall|i: int|
                        0 <= i < kv0.user_memory.len() && !(buf <= i < buf + j)
                            ==> k@.user_memory[i] == kv0.user_memory[i],
                    k@ == (KernelView { user_memory: k@.user_memory, ..kv0 }),
                decreases n - j,
            {
                let b = k.files[index].data[j];
                k.user_memory[buf + j] = b;
                j = j + 1;
            }
            proof {
                assert(k@ =~~= spec_sys_read(kv0, fd, buf, size).0);
            }
            SyscallResult::Proceed(n as isize)
        },
    }
}

/// Write the caller's buffer region to the file bound to `fd`; writes land
/// at offset zero of a regular file and extend it as needed, or append to
/// the console. Never blocks: complete with the full byte count, or with -1
/// on a descriptor or buffer that cannot be used.
pub fn sys_write(k: &mut Kernel, fd: usize, buf: usize, size: usize) -> (r: SyscallResult)
    requires
        old(k).wf(),
    ensures
        final(k).wf(),
        final(k)@ == spec_sys_write(old(k)@, fd, buf, size).0,
        r == spec_sys_write(old(k)@, fd, buf, size).1,
        spec_region_valid(old(k)@, buf, size) && fd < old(k)@.descriptors.len() && (old(
            k,
        )@.descriptors[fd as int] == Some(FileObject::Stdout) || (old(k)@.descriptors[fd as int]
            matches Some(FileObject::File { index }) && index < old(k)@.files.len())) ==> r
            == SyscallResult::Proceed(size as isize),
{
    if fd >= k.descriptors.len() {
        return SyscallResult::Proceed(-1isize);
    }
    let obj = k.descriptors[fd];
    let obj = match obj {
        None => { return SyscallResult::Proceed(-1isize); },
        Some(o) => o,
    };
    if !k.region_valid(buf, size) {
        return SyscallResult::Proceed(-1isize);
    }
    match obj {
        FileObject::Stdin => SyscallResult::Proceed(-1isize),
        FileObject::Stdout => {
            let ghost kv0 = k@;
            let mut j: usize = 0;
            while j < size
                invariant
                    j <= size,
                    buf + size <= kv0.user_memory.len(),
                    kv0.user_memory.len() <= usize::MAX,
                    k@.console_output == kv0.console_output + kv0.user_memory.subrange(
                        buf as int,
                        buf + j,
                    ),
                    k@ == (KernelView { console_output: k@.console_output, ..kv0 }),
                decreases size - j,
            {
                let b = k.user_memory[buf + j];
                k.console_output.push(b);
                j = j + 1;
                proof {
                    assert(k@.console_output =~= kv0.console_output + kv0.user_memory.subrange(
                        buf as int,
                        buf + j,
                    ));
                }
            }
            proof {
                assert(k@ =~~= spec_sys_write(kv0, fd, buf, size).0);
            }
            SyscallResult::Proceed(size as isize)
        },
        FileObject::File { index } => {
            if index >= k.files.len() {
                return SyscallResult::Proceed(-1isize);
            }
            let ghost kv0 = k@;
            let mut file = k.files.remove(index);
            let mut data: Vec<u8> = Vec::new();
            let mut j: usize = 0;
            while j < size
                invariant
                    j <= size,
                    buf + size <= k@.user_memory.len(),
                    kv0.user_memory.len() <= usize::MAX,
                    k@.user_memory == kv0.user_memory,
                    data@ == kv0.user_memory.subrange(buf as int, buf + j),
                decreases size - j,
            {
                let b = k.user_memory[buf + j];
                data.push(b);
                j = j + 1;
                proof {
                    assert(data@ =~= kv0.user_memory.subrange(buf as int, buf + j));
                }
            }
            let old_len = file.data.len();
            if size < old_len {
                proof {
                    assert(data@ =~= kv0.user_memory.subrange(buf as int, buf + size)
                        + file.data@.subrange(size as int, size as int));
                }
                let mut t: usize = size;
                while t < old_len
                    invariant
                        size <= t <= old_len,
                        old_len == file.data@.len(),
                        buf + size <= kv0.user_memory.len(),
                        data@ == kv0.user_memory.subrange(buf as int, buf + size) + file.data@
                            .subrange(size as int, t as int),
                    decreases old_len - t,
                {
                    let b = file.data[t];
                    data.push(b);
                    t = t + 1;
                    proof {
                        assert(data@ =~= kv0.user_memory.subrange(buf as int, buf + size)
                            + file.data@.subrange(size as int, t as int));
                    }
                }
                proof {
                    assert(file.data@.subrange(size as int, old_len as int) =~= file.data@.skip(
                        size as int,
                    ));
                }
            }
            file.data = data;
            k.files.insert(index, file);
            proof {
                assert(spec_files(&k.files) =~= kv0.files.update(
                    index as int,
                    FsFileView {
                        data: spec_sys_write(kv0, fd, buf, size).0.files[index as int].data,
                        ..kv0.files[index as int]
                    },
                ));
                assert(k@ =~~= spec_sys_write(kv0, fd, buf, size).0);
            }
            SyscallResult::Proceed(size as isize)
        },
    }
}

/// Open the file named by the NUL-terminated path at `path` in the calling
/// thread's memory, creating it first when `flags` carries [`O_CREAT`], and
/// bind it to a fresh descriptor of the current thread. A failed create or
/// lookup — and a path without a terminator in the mapped region — is
/// fatal to the thread: there is no recoverable error path out of `open`.
pub fn sys_open(k: &mut Kernel, path: usize, flags: u32) -> (r: Result<SyscallResult, FatalKind>)
    requires
        old(k).wf(),
        old(k)@.descriptors.len() < DESCRIPTOR_LIMIT,
    ensures
        final(k).wf(),
        final(k)@ == spec_sys_open(old(k)@, path, flags).0,
        r == spec_sys_open(old(k)@, path, flags).1,
{
    let ghost kv0 = k@;
    let path_bytes = match from_cstr(&k.user_memory, path) {
        None => { return Err(FatalKind::OpenFailed); },
        Some(p) => p,
    };
    if flags & O_CREAT != 0 {
        if lookup(&k.files, &path_bytes).is_some() {
            return Err(FatalKind::OpenFailed);
        }
        let index = k.files.len();
        k.files.push(
            FsFile { path: path_bytes, mode: DEFAULT_FILE_MODE, data: Vec::new() },
        );
        proof {
            assert(spec_files(&k.files) =~= kv0.files.push(
                spec_sys_open(kv0, path, flags).0.files[kv0.files.len() as int],
            ));
        }
        let fd = alloc_fd(k, FileObject::File { index });
        proof {
            lemma_first_free_from(kv0.descriptors, 0);
            assert(k@ =~~= spec_sys_open(kv0, path, flags).0);
            assert forall|i: int|
                0 <= i < k@.descriptors.len() implies (#[trigger] k@.descriptors[i] matches Some(
                FileObject::File { index: x },
            ) ==> x < k@.files.len()) by {
                if 0 <= i < kv0.descriptors.len() {
                    assert(kv0.descriptors[i] matches Some(FileObject::File { index: y })
                        ==> y < kv0.files.len());
                }
            }
        }
        Ok(SyscallResult::Proceed(fd))
    } else {
        match lookup(&k.files, &path_bytes) {
            None => Err(FatalKind::OpenFailed),
            Some(index) => {
                let fd = alloc_fd(k, FileObject::File { index });
                proof {
                    lemma_first_free_from(kv0.descriptors, 0);
                    lemma_lookup_from(kv0.files, path_bytes@, 0);
                    assert(k@ =~~= spec_sys_open(kv0, path, flags).0);
                    assert forall|i: int|
                        0 <= i < k@.descriptors.len() implies (#[trigger] k@.descriptors[i]
                        matches Some(FileObject::File { index: x },
                    ) ==> x < k@.files.len()) by {
                        if 0 <= i < kv0.descriptors.len() {
                            assert(kv0.descriptors[i] matches Some(FileObject::File { index: y })
                                ==> y < kv0.files.len());
                        }
                    }
                }
                Ok(SyscallResult::Proceed(fd))
            },
        }
    }
}

/// Free the descriptor slot `fd` of the current thread. A handle outside
/// the table, or naming a slot already freed, is fatal to the thread;
/// rebinding a freed handle requires a later `open`.
pub fn sys_close(k: &mut Kernel, fd: i32) -> (r: Result<SyscallResult, FatalKind>)
    requires
        old(k).wf(),
    ensures
        final(k).wf(),
        final(k)@ == spec_sys_close(old(k)@, fd).0,
        r == spec_sys_close(old(k)@, fd).1,
{
    if fd < 0 {
        return Err(FatalKind::BadDescriptor);
    }
    let fdu = fd as usize;
    if fdu >= k.descriptors.len() {
        return Err(FatalKind::BadDescriptor);
    }
    if k.descriptors[fdu].is_none() {
        return Err(FatalKind::BadDescriptor);
    }
    k.descriptors[fdu] = None;
    Ok(SyscallResult::Proceed(0isize))
}

/// A read that finds the input buffer empty parks the thread and changes
/// nothing; once characters have arrived, the same read completes with a
/// positive count and delivers them into the buffer in arrival order.
pub proof fn lemma_blocked_read_completes_after_input(
    kv: KernelView,
    fd: usize,
    buf: usize,
    size: usize,
    cs: Seq<u8>,
)
    requires
        fd < kv.descriptors.len(),
        kv.descriptors[fd as int] == Some(FileObject::Stdin),
        kv.stdin_buffer.len() == 0,
        spec_region_valid(kv, buf, size),
        1 <= size,
        1 <= cs.len(),
    ensures
        spec_sys_read(kv, fd, buf, size) == (kv, SyscallResult::Park(0isize)),
        ({
            let kv2 = KernelView { stdin_buffer: cs, ..kv };
            let n = if size <= cs.len() {
                size as int
            } else {
                cs.len() as int
            };
            &&& 1 <= n
            &&& spec_sys_read(kv2, fd, buf, size).1 == SyscallResult::Proceed(n as isize)
            &&& forall|i: int|
                0 <= i < n ==> spec_sys_read(kv2, fd, buf, size).0.user_memory[buf + i] == cs[i]
            &&& spec_sys_read(kv2, fd, buf, size).0.stdin_buffer == cs.skip(n)
        }),
{
}

/// `open` with the creation flag on a path not present creates it, and a
/// later `open` of the same path without the flag succeeds with a
/// non-negative descriptor distinct from every descriptor then open.
pub proof fn lemma_open_creates_then_reopens(kv: KernelView, path_ptr: usize)
    requires
        view_wf(kv),
        kv.descriptors.len() + 2 <= DESCRIPTOR_LIMIT,
        spec_cstr(kv.user_memory, path_ptr) is Some,
        spec_lookup(kv.files, spec_cstr(kv.user_memory, path_ptr)->Some_0) is None,
    ensures
        ({
            let path = spec_cstr(kv.user_memory, path_ptr)->Some_0;
            let (kv1, r1) = spec_sys_open(kv, path_ptr, O_CREAT);
            &&& r1 matches Ok(SyscallResult::Proceed(fd1)) && fd1 >= 0
            &&& spec_lookup(kv1.files, path) is Some
            &&& ({
                let (kv2, r2) = spec_sys_open(kv1, path_ptr, 0);
                &&& r2 matches Ok(SyscallResult::Proceed(fd2)) && fd2 >= 0 && (forall|j: int|
                    0 <= j < kv1.descriptors.len() && kv1.descriptors[j] is Some ==> fd2 != j)
            })
        }),
{
    assert(O_CREAT & O_CREAT != 0) by (bit_vector);
    assert(0u32 & O_CREAT == 0) by (bit_vector);
    let path = spec_cstr(kv.user_memory, path_ptr)->Some_0;
    lemma_first_free_from(kv.descriptors, 0);
    let (kv1, r1) = spec_sys_open(kv, path_ptr, O_CREAT);
    assert(kv1.files[kv.files.len() as int].path == path);
    lemma_lookup_from(kv1.files, path, 0);
    lemma_first_free_from(kv1.descriptors, 0);
}

/// `close` on an open descriptor completes with 0 and vacates the slot;
/// a second `close` of the same handle, with no `open` in between, is the
/// fatal bad-descriptor condition and changes nothing.
pub proof fn lemma_close_twice_is_fatal(kv: KernelView, fd: i32)
    requires
        0 <= fd < kv.descriptors.len(),
        kv.descriptors[fd as int] is Some,
    ensures
        ({
            let (kv1, r1) = spec_sys_close(kv, fd);
            &&& r1 == Ok::<SyscallResult, FatalKind>(SyscallResult::Proceed(0isize))
            &&& kv1.descriptors[fd as int] is None
            &&& spec_sys_close(kv1, fd).1 == Err::<SyscallResult, FatalKind>(
                FatalKind::BadDescriptor,
            )
            &&& spec_sys_close(kv1, fd).0 == kv1
        }),
{
}

} // verus!
