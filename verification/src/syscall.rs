//! Syscall dispatcher and handlers.
//!
//! Syscalls are the only legal entry points that mutate kernel state from
//! outside.  The dispatcher maps a numeric id to a handler taking six
//! positional arguments and converts the handler's result into a signed
//! return word: non-negative means success payload, negative one of a
//! small closed set of error codes.
//!
//! Pointer arguments index into the calling task's memory, passed in as a
//! byte vector; a null pointer or a range that leaves that memory faults.
//! Every handler validates its arguments before touching shared state
//! ("validate, then act").

use vstd::prelude::*;

use crate::input::{read_input, InputQueue};
use crate::process::{
    exit_code_of, proc_with_status, Process, ProcessStatus, ProcessTable, wait_settled,
};
use crate::scheduler::Scheduler;

verus! {

/// Syscall error codes; negative values in the return-word convention.
#[derive(Debug, Clone, Copy, PartialEq, Eq, Structural)]
pub enum SysError {
    /// Invalid syscall number or argument.
    Invalid,
    /// Syscall not yet implemented.
    NotImplemented,
    /// Memory fault (e.g. invalid pointer).
    Fault,
    /// Permission denied.
    PermissionDenied,
    /// Resource not found.
    NotFound,
    /// Generic kernel error.
    Error,
    /// Bad file descriptor.
    BadFd,
}

impl SysError {
    /// The stable negative code of each error.
    pub open spec fn spec_code(self) -> i64 {
        match self {
            SysError::Invalid => -1i64,
            SysError::NotImplemented => -2i64,
            SysError::Fault => -3i64,
            SysError::PermissionDenied => -4i64,
            SysError::NotFound => -5i64,
            SysError::Error => -6i64,
            SysError::BadFd => -9i64,
        }
    }

    /// Convert the error to its syscall return value.
    pub fn to_return_value(self) -> (r: i64)
        ensures
            r == self.spec_code(),
    {
        match self {
            SysError::Invalid => -1,
            SysError::NotImplemented => -2,
            SysError::Fault => -3,
            SysError::PermissionDenied => -4,
            SysError::NotFound => -5,
            SysError::Error => -6,
            SysError::BadFd => -9,
        }
    }

    /// The error a numeric code stands for, if any.
    pub open spec fn spec_from_code(code: i64) -> Option<SysError> {
        if code == -1 {
            Some(SysError::Invalid)
        } else if code == -2 {
            Some(SysError::NotImplemented)
        } else if code == -3 {
            Some(SysError::Fault)
        } else if code == -4 {
            Some(SysError::PermissionDenied)
        } else if code == -5 {
            Some(SysError::NotFound)
        } else if code == -6 {
            Some(SysError::Error)
        } else if code == -9 {
            Some(SysError::BadFd)
        } else {
            None
        }
    }

    /// Recover an error from its numeric code.
    pub fn from_code(code: i64) -> (r: Option<SysError>)
        ensures
            r == Self::spec_from_code(code),
    {
        match code {
            -1 => Some(SysError::Invalid),
            -2 => Some(SysError::NotImplemented),
            -3 => Some(SysError::Fault),
            -4 => Some(SysError::PermissionDenied),
            -5 => Some(SysError::NotFound),
            -6 => Some(SysError::Error),
            -9 => Some(SysError::BadFd),
            _ => None,
        }
    }
}

/// Syscall result type.
pub type SysResult = Result<usize, SysError>;

/// Syscall number of the hello probe.
pub const SYS_HELLO: usize = 0;

/// Syscall number of the kernel-log write.
pub const SYS_LOG: usize = 1;

/// Syscall number of write.
pub const SYS_WRITE: usize = 2;

/// Syscall number of exit.
pub const SYS_EXIT: usize = 3;

/// Syscall number of read.
pub const SYS_READ: usize = 4;

/// Syscall number of task creation.
pub const SYS_TASK_CREATE: usize = 5;

/// Syscall number of task wait.
pub const SYS_TASK_WAIT: usize = 6;

/// Syscall number of the current-pid query.
pub const SYS_GET_PID: usize = 7;

/// Syscall number of the process listing.
pub const SYS_PS: usize = 8;

/// Syscall number of the uptime query.
pub const SYS_UPTIME: usize = 9;

/// One past the largest mapped syscall number.
pub const SYSCALL_COUNT: usize = 10;

/// The magic argument the hello probe expects.
pub const HELLO_MAGIC: usize = 0xCAFEBABE;

/// The fixed value the hello probe returns.
pub const HELLO_REPLY: usize = 0xDEADBEEF;

/// Largest byte count a single I/O syscall accepts.
pub const MAX_IO_LEN: usize = 4096;

/// The kernel context: the explicitly constructed state that syscall
/// handlers read and mutate, threaded by reference instead of living in
/// ambient statics.
pub struct Kernel {
    /// The process table.
    pub table: ProcessTable,
    /// The scheduler.
    pub sched: Scheduler,
    /// Decoded input characters awaiting the read syscall.
    pub input: InputQueue,
    /// Raw keyboard scancodes awaiting the terminal task.
    pub scancodes: InputQueue,
    /// Bytes routed to the TTY output sink, in order of writing; the
    /// embedding program drains this log to the actual device.
    pub tty: Vec<u8>,
}

impl Kernel {
    /// All components well-formed.
    pub open spec fn wf(&self) -> bool {
        &&& self.table.wf()
        &&& self.sched.wf()
        &&& self.input.wf()
        &&& self.scancodes.wf()
    }

    /// A fresh kernel context: empty table, idle scheduler, empty queues.
    pub fn new() -> (r: Kernel)
        ensures
            r.wf(),
            r.table.procs().len() == 0,
            r.sched.queue() == Seq::<u64>::empty(),
            r.sched.cur() is None,
            r.sched.elapsed() == 0,
            r.input.bytes() == Seq::<u8>::empty(),
            r.scancodes.bytes() == Seq::<u8>::empty(),
            r.tty@ == Seq::<u8>::empty(),
    {
        Kernel {
            table: ProcessTable::new(),
            sched: Scheduler::new(),
            input: InputQueue::new(),
            scancodes: InputQueue::new(),
            tty: Vec::new(),
        }
    }
}

/// sys_hello's result: the fixed reply for the magic argument, `Invalid`
/// for anything else.
pub open spec fn hello_res(arg1: usize) -> SysResult {
    if arg1 == HELLO_MAGIC {
        Ok(HELLO_REPLY)
    } else {
        Err(SysError::Invalid)
    }
}

/// sys_hello - liveness probe validating a fixed magic constant.
pub fn sys_hello(
    arg1: usize,
    _arg2: usize,
    _arg3: usize,
    _arg4: usize,
    _arg5: usize,
    _arg6: usize,
) -> (r: SysResult)
    ensures
        r == hello_res(arg1),
{
    if arg1 == HELLO_MAGIC {
        Ok(HELLO_REPLY)
    } else {
        Err(SysError::Invalid)
    }
}

/// sys_log's result: `Invalid` for a zero or oversized length, `Fault`
/// for a null pointer or a range leaving the caller's memory, otherwise
/// the byte count written.
pub open spec fn log_res(mem_len: int, arg1: usize, arg2: usize) -> SysResult {
    if arg2 == 0 {
        Err(SysError::Invalid)
    } else if arg2 > MAX_IO_LEN {
        Err(SysError::Invalid)
    } else if arg1 == 0 {
        Err(SysError::Fault)
    } else if arg1 + arg2 > mem_len {
        Err(SysError::Fault)
    } else {
        Ok(arg2)
    }
}

/// The TTY log after sys_log: on success the message bytes plus a
/// newline, appended; otherwise unchanged.
pub open spec fn log_tty(tty: Seq<u8>, mem: Seq<u8>, arg1: usize, arg2: usize) -> Seq<u8> {
    if log_res(mem.len() as int, arg1, arg2) is Ok {
        tty + mem.subrange(arg1 as int, arg1 + arg2) + seq![10u8]
    } else {
        tty
    }
}

/// sys_log - write a message to the kernel log.
///
/// Copies `arg2` bytes at pointer `arg1` of the caller's memory and
/// routes them, with a trailing newline, to the TTY sink.  The content is
/// not interpreted.
pub fn sys_log(
    k: &mut Kernel,
    mem: &Vec<u8>,
    arg1: usize,
    arg2: usize,
    _arg3: usize,
    _arg4: usize,
    _arg5: usize,
    _arg6: usize,
) -> (r: SysResult)
    requires
        old(k).wf(),
    ensures
        final(k).wf(),
        r == log_res(mem@.len() as int, arg1, arg2),
        final(k).tty@ == log_tty(old(k).tty@, mem@, arg1, arg2),
        final(k).table == old(k).table,
        final(k).sched == old(k).sched,
        final(k).input == old(k).input,
        final(k).scancodes == old(k).scancodes,
{
    let ptr = arg1;
    let len = arg2;

    if len == 0 {
        return Err(SysError::Invalid);
    }
    if len > MAX_IO_LEN {
        return Err(SysError::Invalid);
    }
    if ptr == 0 {
        return Err(SysError::Fault);
    }
    if ptr > mem.len() || len > mem.len() - ptr {
        return Err(SysError::Fault);
    }

    let data = vstd::slice::slice_subrange(mem.as_slice(), ptr, ptr + len);
    crate::tty::tty_write_with_newline(&mut k.tty, data);

    proof {
        assert(final(k).tty@ =~= log_tty(old(k).tty@, mem@, arg1, arg2));
    }
    Ok(len)
}

/// sys_write's result: only stdout (1) and stderr (2) are writable; the
/// length and pointer rules match sys_log.
pub open spec fn write_res(mem_len: int, arg1: usize, arg2: usize, arg3: usize) -> SysResult {
    if arg1 != 1 && arg1 != 2 {
        Err(SysError::BadFd)
    } else if arg3 == 0 {
        Err(SysError::Invalid)
    } else if arg3 > MAX_IO_LEN {
        Err(SysError::Invalid)
    } else if arg2 == 0 {
        Err(SysError::Fault)
    } else if arg2 + arg3 > mem_len {
        Err(SysError::Fault)
    } else {
        Ok(arg3)
    }
}

/// The TTY log after sys_write: on success the written bytes, appended
/// verbatim; otherwise unchanged.
pub open spec fn write_tty(tty: Seq<u8>, mem: Seq<u8>, arg1: usize, arg2: usize, arg3: usize) -> Seq<
    u8,
> {
    if write_res(mem.len() as int, arg1, arg2, arg3) is Ok {
        tty + mem.subrange(arg2 as int, arg2 + arg3)
    } else {
        tty
    }
}

/// sys_write - write to a file descriptor.
///
/// Writes `arg3` bytes at pointer `arg2` to descriptor `arg1`; stdout and
/// stderr both route to the TTY sink, with no newline added.
pub fn sys_write(
    k: &mut Kernel,
    mem: &Vec<u8>,
    arg1: usize,
    arg2: usize,
    arg3: usize,
    _arg4: usize,
    _arg5: usize,
    _arg6: usize,
) -> (r: SysResult)
    requires
        old(k).wf(),
    ensures
        final(k).wf(),
        r == write_res(mem@.len() as int, arg1, arg2, arg3),
        final(k).tty@ == write_tty(old(k).tty@, mem@, arg1, arg2, arg3),
        final(k).table == old(k).table,
        final(k).sched == old(k).sched,
        final(k).input == old(k).input,
        final(k).scancodes == old(k).scancodes,
{
    let fd = arg1;
    let ptr = arg2;
    let len = arg3;

    if fd != 1 && fd != 2 {
        return Err(SysError::BadFd);
    }
    if len == 0 {
        return Err(SysError::Invalid);
    }
    if len > MAX_IO_LEN {
        return Err(SysError::Invalid);
    }
    if ptr == 0 {
        return Err(SysError::Fault);
    }
    if ptr > mem.len() || len > mem.len() - ptr {
        return Err(SysError::Fault);
    }

    let data = vstd::slice::slice_subrange(mem.as_slice(), ptr, ptr + len);
    crate::tty::tty_write(&mut k.tty, data);

    proof {
        assert(final(k).tty@ =~= write_tty(old(k).tty@, mem@, arg1, arg2, arg3));
    }
    Ok(len)
}

/// The value of `x` read back as a signed 64-bit word (two's complement).
pub open spec fn signed_word(x: usize) -> int {
    if x <= i64::MAX {
        x as int
    } else {
        x as int - 0x1_0000_0000_0000_0000
    }
}

/// Reinterpret an unsigned machine word as the signed return word, the
/// way the syscall ABI reads registers.
fn word_to_i64(x: usize) -> (r: i64)
    ensures
        r as int == signed_word(x),
{
    let wide = x as u64;
    if wide <= 0x7fff_ffff_ffff_ffff {
        wide as i64
    } else {
        ((wide - 0x8000_0000_0000_0000) as i64) + i64::MIN
    }
}

/// A `u64` value as a machine word; exact whenever it fits.
fn u64_to_word(x: u64) -> (r: usize)
    ensures
        x <= usize::MAX ==> r == x,
{
    if x <= usize::MAX as u64 {
        x as usize
    } else {
        #[verifier::truncate] (x as usize)
    }
}

/// An exit code carried back through the unsigned result slot: exact for
/// codes the machine word can carry, two's-complement wrapped for
/// negative ones.
fn exit_code_to_word(code: i64) -> (r: usize)
    ensures
        0 <= code <= usize::MAX ==> r == code,
        code < 0 && code + usize::MAX + 1 >= 0 ==> r as int == code + usize::MAX + 1,
{
    if code >= 0 {
        let wide = code as u64;
        if wide <= usize::MAX as u64 {
            wide as usize
        } else {
            #[verifier::truncate] (wide as usize)
        }
    } else {
        let below = (-(code + 1)) as u64;
        if below <= usize::MAX as u64 {
            usize::MAX - (below as usize)
        } else {
            #[verifier::truncate] ((code as u64) as usize)
        }
    }
}

/// sys_read's result: only stdin (0) is readable; a zero length succeeds
/// at once with no bytes; otherwise the pointer rules match sys_write,
/// and the count is however many bytes the input queue can supply right
/// now, up to the requested length (non-blocking, possibly zero).
pub open spec fn read_res(mem_len: int, input: Seq<u8>, arg1: usize, arg2: usize, arg3: usize) -> SysResult {
    if arg1 != 0 {
        Err(SysError::BadFd)
    } else if arg3 == 0 {
        Ok(0)
    } else if arg3 > MAX_IO_LEN {
        Err(SysError::Invalid)
    } else if arg2 == 0 {
        Err(SysError::Fault)
    } else if arg2 + arg3 > mem_len {
        Err(SysError::Fault)
    } else if input.len() < arg3 {
        Ok(input.len() as usize)
    } else {
        Ok(arg3)
    }
}

/// The number of bytes sys_read transfers.
pub open spec fn read_count(mem_len: int, input: Seq<u8>, arg1: usize, arg2: usize, arg3: usize) -> int {
    match read_res(mem_len, input, arg1, arg2, arg3) {
        Ok(n) => n as int,
        Err(_) => 0,
    }
}

/// The caller's memory after sys_read: the transferred bytes land at the
/// pointer, everything else stays.
pub open spec fn read_mem(mem: Seq<u8>, input: Seq<u8>, arg1: usize, arg2: usize, arg3: usize) -> Seq<u8> {
    let k = read_count(mem.len() as int, input, arg1, arg2, arg3);
    if k == 0 {
        mem
    } else {
        mem.take(arg2 as int) + input.take(k) + mem.skip(arg2 + k)
    }
}

/// The input queue after sys_read: the transferred bytes leave the head.
pub open spec fn read_input_left(mem_len: int, input: Seq<u8>, arg1: usize, arg2: usize, arg3: usize) -> Seq<u8> {
    input.skip(read_count(mem_len, input, arg1, arg2, arg3))
}

/// sys_read - read from a file descriptor.
///
/// Drains up to `arg3` currently available bytes from the kernel input
/// queue into the caller's memory at pointer `arg2`.
pub fn sys_read(
    k: &mut Kernel,
    mem: &mut Vec<u8>,
    arg1: usize,
    arg2: usize,
    arg3: usize,
    _arg4: usize,
    _arg5: usize,
    _arg6: usize,
) -> (r: SysResult)
    requires
        old(k).wf(),
    ensures
        final(k).wf(),
        r == read_res(old(mem)@.len() as int, old(k).input.bytes(), arg1, arg2, arg3),
        final(mem)@ == read_mem(old(mem)@, old(k).input.bytes(), arg1, arg2, arg3),
        final(k).input.bytes() == read_input_left(old(mem)@.len() as int, old(k).input.bytes(), arg1, arg2, arg3),
        final(k).table == old(k).table,
        final(k).sched == old(k).sched,
        final(k).scancodes == old(k).scancodes,
        final(k).tty == old(k).tty,
{
    let fd = arg1;
    let ptr = arg2;
    let len = arg3;

    if fd != 0 {
        return Err(SysError::BadFd);
    }
    if len == 0 {
        // Reading zero bytes succeeds immediately.
        return Ok(0);
    }
    if len > MAX_IO_LEN {
        return Err(SysError::Invalid);
    }
    if ptr == 0 {
        return Err(SysError::Fault);
    }
    if ptr > mem.len() || len > mem.len() - ptr {
        return Err(SysError::Fault);
    }

    let total: usize = mem.len();
    let mut staging = crate::process::zero_bytes(len);
    let count = read_input(&mut k.input, &mut staging);

    let mut i: usize = 0;
    while i < count
        invariant
            ptr == arg2,
            len == arg3,
            i <= count,
            count <= len,
            count <= staging@.len(),
            ptr + len <= total,
            total == mem@.len(),
            mem@.len() == old(mem)@.len(),
            forall|j: int| 0 <= j < i ==> mem@[arg2 + j] == staging@[j],
            forall|j: int| 0 <= j < mem@.len() && !(arg2 <= j < arg2 + i) ==> mem@[j] == old(mem)@[j],
        decreases count - i,
    {
        mem.set(ptr + i, staging[i]);
        i = i + 1;
        proof {
            assert forall|j: int| 0 <= j < i implies mem@[arg2 + j] == staging@[j] by {
                if j == i - 1 {
                    assert(mem@[arg2 + j] == staging@[j]);
                }
            }
        }
    }

    proof {
        assert(staging@.take(count as int) =~= old(k).input.bytes().take(count as int));
        assert(final(mem)@ =~= read_mem(old(mem)@, old(k).input.bytes(), arg1, arg2, arg3));
    }
    Ok(count)
}

/// sys_exit's result: recording the exit succeeds whenever a current
/// process exists; with no current process there is nothing to exit.
pub open spec fn exit_res(cur: Option<u64>) -> SysResult {
    match cur {
        Some(_) => Ok(0),
        None => Err(SysError::NotFound),
    }
}

/// The process table after sys_exit: a known current process is marked
/// `Exited` with the signed reading of `arg1`.
pub open spec fn exit_table(procs: Seq<Process>, cur: Option<u64>, arg1: usize) -> Seq<Process> {
    match cur {
        Some(p) => if 1 <= p <= procs.len() {
            procs.update(
                p - 1,
                proc_with_status(procs[p - 1], ProcessStatus::Exited(signed_word(arg1) as i64)),
            )
        } else {
            procs
        },
        None => procs,
    }
}

/// sys_exit - terminate the calling process.
///
/// Marks the currently scheduled process `Exited` with the given code.
/// Removal from scheduling is deferred to the next timer-driven resched;
/// after a successful return the embedding program halts the calling
/// task instead of resuming it.
pub fn sys_exit(
    k: &mut Kernel,
    arg1: usize,
    _arg2: usize,
    _arg3: usize,
    _arg4: usize,
    _arg5: usize,
    _arg6: usize,
) -> (r: SysResult)
    requires
        old(k).wf(),
    ensures
        final(k).wf(),
        r == exit_res(old(k).sched.cur()),
        final(k).table.procs() == exit_table(old(k).table.procs(), old(k).sched.cur(), arg1),
        final(k).table.next() == old(k).table.next(),
        final(k).sched == old(k).sched,
        final(k).input == old(k).input,
        final(k).scancodes == old(k).scancodes,
        final(k).tty == old(k).tty,
{
    let exit_code = word_to_i64(arg1);

    match crate::scheduler::current_process(&k.sched) {
        Some(current_pid) => {
            crate::process::set_process_status(
                &mut k.table,
                current_pid,
                ProcessStatus::Exited(exit_code),
            );
            Ok(0)
        }
        None => Err(SysError::NotFound),
    }
}

/// sys_task_create's result: a fresh id for a non-null entry point while
/// the table has room; `Invalid` for a null entry point, `Error` for a
/// full table.
pub open spec fn task_create_res(table_len: int, arg1: usize) -> SysResult {
    if arg1 == 0 {
        Err(SysError::Invalid)
    } else if table_len >= crate::process::PROCESS_TABLE_CAP {
        Err(SysError::Error)
    } else {
        Ok((table_len + 1) as usize)
    }
}

/// sys_task_create - create a new process/task.
///
/// Validates a non-null entry point, delegates to process creation (which
/// allocates the stack and seeds the context), enqueues the fresh id with
/// the scheduler, and returns the id.
pub fn sys_task_create(
    k: &mut Kernel,
    arg1: usize,
    _arg2: usize,
    _arg3: usize,
    _arg4: usize,
    _arg5: usize,
    _arg6: usize,
) -> (r: SysResult)
    requires
        old(k).wf(),
    ensures
        final(k).wf(),
        r == task_create_res(old(k).table.procs().len() as int, arg1),
        r is Err ==> final(k).table == old(k).table && final(k).sched == old(k).sched,
        r matches Ok(pid) ==> {
            &&& final(k).table.procs().drop_last() == old(k).table.procs()
            &&& final(k).table.procs().len() == old(k).table.procs().len() + 1
            &&& final(k).table.procs().last().id.0 == pid
            &&& final(k).table.procs().last().entry_point == arg1
            &&& final(k).table.procs().last().status == ProcessStatus::Ready
            &&& forall|i: int| 0 <= i < old(k).table.procs().len()
                ==> (#[trigger] old(k).table.procs()[i]).id.0 < pid
            &&& final(k).sched.queue() == crate::scheduler::rr_enqueue(old(k).sched.queue(), Some(pid as u64))
            &&& final(k).sched.cur() == old(k).sched.cur()
        },
        final(k).input == old(k).input,
        final(k).scancodes == old(k).scancodes,
        final(k).tty == old(k).tty,
{
    let entry_point = arg1;

    if entry_point == 0 {
        return Err(SysError::Invalid);
    }

    let pid = crate::process::create_process(&mut k.table, &mut k.sched, entry_point as u64);

    if pid < 0 {
        match pid {
            -1 => Err(SysError::Invalid),
            _ => Err(SysError::Error),
        }
    } else {
        // Re-enqueue (idempotent) and restate readiness, mirroring the
        // belt-and-suspenders path the dispatcher always took.
        proof {
            if !old(k).sched.queue().contains(pid as u64) {
                assert(k.sched.queue().last() == pid as u64);
                assert(k.sched.queue().contains(pid as u64));
            }
        }
        crate::scheduler::enqueue_process(&mut k.sched, pid as u64);
        crate::process::set_process_status(&mut k.table, pid as u64, ProcessStatus::Ready);
        proof {
            assert(final(k).table.procs() =~= old(k).table.procs().push(
                final(k).table.procs().last(),
            ));
            assert(final(k).sched.queue() =~= crate::scheduler::rr_enqueue(
                old(k).sched.queue(),
                Some(pid as u64),
            ));
        }
        Ok(pid as usize)
    }
}

/// sys_task_wait's result: `Invalid` for id zero, `NotFound` for an id
/// never issued, otherwise the exited process's code carried through the
/// unsigned result slot.
pub open spec fn task_wait_ok(table: &ProcessTable, arg1: usize) -> bool {
    arg1 != 0 && table.contains_pid(arg1 as u64)
}

/// sys_task_wait - wait for a task to complete and return its exit code.
///
/// The busy-poll is settled by the time the handler runs — the
/// embedding's retry loop polls the status between scheduling events —
/// so the target is already exited or unknown.
pub fn sys_task_wait(
    k: &mut Kernel,
    arg1: usize,
    _arg2: usize,
    _arg3: usize,
    _arg4: usize,
    _arg5: usize,
    _arg6: usize,
) -> (r: SysResult)
    requires
        old(k).wf(),
        arg1 != 0 ==> wait_settled(&old(k).table, arg1 as u64),
    ensures
        final(k).wf(),
        *final(k) == *old(k),
        arg1 == 0 ==> r == Err::<usize, SysError>(SysError::Invalid),
        arg1 != 0 && !old(k).table.contains_pid(arg1 as u64) ==> r == Err::<usize, SysError>(
            SysError::NotFound,
        ),
        task_wait_ok(&old(k).table, arg1) ==> {
            let code = exit_code_of(old(k).table.proc_of(arg1 as u64).status);
            &&& r is Ok
            &&& (0 <= code <= usize::MAX ==> r == Ok::<usize, SysError>(code as usize))
            &&& (code < 0 && code + usize::MAX + 1 >= 0 ==> (r matches Ok(w) && w as int == code + usize::MAX + 1))
        },
{
    let pid = arg1 as u64;

    if pid == 0 {
        return Err(SysError::Invalid);
    }

    match crate::process::wait_process(&k.table, pid) {
        Some(exit_code) => Ok(exit_code_to_word(exit_code)),
        None => Err(SysError::NotFound),
    }
}

/// sys_get_pid - the currently running process id, or 1 (the first task)
/// when the scheduler is idle.
pub fn sys_get_pid(
    k: &mut Kernel,
    _arg1: usize,
    _arg2: usize,
    _arg3: usize,
    _arg4: usize,
    _arg5: usize,
    _arg6: usize,
) -> (r: SysResult)
    requires
        old(k).wf(),
    ensures
        final(k).wf(),
        *final(k) == *old(k),
        old(k).sched.cur() is None ==> r == Ok::<usize, SysError>(1),
        old(k).sched.cur() matches Some(p) ==> r is Ok && (p <= usize::MAX ==> r == Ok::<usize, SysError>(p as usize)),
{
    let pid = match crate::scheduler::current_process(&k.sched) {
        Some(p) => p,
        None => 1,
    };
    Ok(u64_to_word(pid))
}

/// sys_uptime - whole seconds since boot, from the timer tick counter.
pub fn sys_uptime(
    k: &mut Kernel,
    _arg1: usize,
    _arg2: usize,
    _arg3: usize,
    _arg4: usize,
    _arg5: usize,
    _arg6: usize,
) -> (r: SysResult)
    requires
        old(k).wf(),
    ensures
        final(k).wf(),
        *final(k) == *old(k),
        r is Ok,
        old(k).sched.elapsed() / crate::scheduler::TICKS_PER_SECOND <= usize::MAX ==> r == Ok::<usize, SysError>(
            (old(k).sched.elapsed() / crate::scheduler::TICKS_PER_SECOND) as usize,
        ),
{
    let seconds = crate::scheduler::get_elapsed_seconds(&k.sched);
    Ok(u64_to_word(seconds))
}


// ---------------------------------------------------------------------------
// Process listing (sys_ps)
// ---------------------------------------------------------------------------

/// Decimal digits of `n`, most significant first, as ASCII bytes.
pub open spec fn dec_digits(n: int) -> Seq<u8>
    decreases n,
{
    if n < 10 {
        seq![(48 + n) as u8]
    } else {
        dec_digits(n / 10).push((48 + n % 10) as u8)
    }
}

/// A process id rendered right-aligned in a field of width three (wider
/// ids take their natural width).
pub open spec fn pid_field(n: int) -> Seq<u8> {
    if n < 10 {
        seq![32u8, 32u8] + dec_digits(n)
    } else if n < 100 {
        seq![32u8] + dec_digits(n)
    } else {
        dec_digits(n)
    }
}

/// The status word shown for each process.
pub open spec fn status_label(status: ProcessStatus) -> Seq<u8> {
    match status {
        ProcessStatus::Ready => seq![82u8, 101u8, 97u8, 100u8, 121u8],
        ProcessStatus::Running => seq![82u8, 117u8, 110u8, 110u8, 105u8, 110u8, 103u8],
        ProcessStatus::Blocked => seq![66u8, 108u8, 111u8, 99u8, 107u8, 101u8, 100u8],
        ProcessStatus::Exited(_) => seq![69u8, 120u8, 105u8, 116u8, 101u8, 100u8],
    }
}

/// The heading line of the listing.
pub open spec fn ps_header() -> Seq<u8> {
    seq![80u8, 73u8, 68u8, 32u8, 83u8, 116u8, 97u8, 116u8, 117u8, 115u8, 10u8]
}

/// One listing line: padded id, a space, the status word, a newline.
pub open spec fn ps_line(p: Process) -> Seq<u8> {
    pid_field(p.id.0 as int) + seq![32u8] + status_label(p.status) + seq![10u8]
}

/// The listing lines for all processes, in table order.
pub open spec fn ps_body(procs: Seq<Process>) -> Seq<u8>
    decreases procs.len(),
{
    if procs.len() == 0 {
        Seq::empty()
    } else {
        ps_body(procs.drop_last()) + ps_line(procs.last())
    }
}

/// The full listing: heading plus one line per process.
pub open spec fn ps_output(procs: Seq<Process>) -> Seq<u8> {
    ps_header() + ps_body(procs)
}

/// A number below 1000 renders to its exact digit count, at most three.
proof fn lemma_dec_digits_len(n: int)
    requires
        0 <= n <= 999,
    ensures
        dec_digits(n).len() == (if n < 10 {
            1int
        } else if n < 100 {
            2int
        } else {
            3int
        }),
    decreases n,
{
    if n >= 10 {
        lemma_dec_digits_len(n / 10);
    }
}

/// With ids below 1000, a listing line takes at most 12 bytes.
proof fn lemma_ps_line_len(p: Process)
    requires
        0 <= p.id.0 <= 999,
    ensures
        ps_line(p).len() <= 12,
{
    lemma_dec_digits_len(p.id.0 as int);
}

/// The listing of a well-formed table of `n` processes takes at most
/// `11 + 12 n` bytes — in particular it always fits a signed return word.
pub proof fn lemma_ps_output_len(procs: Seq<Process>)
    requires
        procs.len() <= crate::process::PROCESS_TABLE_CAP,
        forall|i: int| 0 <= i < procs.len() ==> (#[trigger] procs[i]).id.0 == i + 1,
    ensures
        ps_output(procs).len() <= 11 + procs.len() * 12,
    decreases procs.len(),
{
    if procs.len() > 0 {
        let prefix = procs.drop_last();
        assert(forall|i: int| 0 <= i < prefix.len() ==> (#[trigger] prefix[i]).id.0 == i + 1);
        lemma_ps_output_len(prefix);
        lemma_ps_line_len(procs.last());
    }
}

/// Append `src` to `out`.
fn append_bytes(out: &mut Vec<u8>, src: &Vec<u8>)
    ensures
        final(out)@ == old(out)@ + src@,
{
    let n = src.len();
    let mut i: usize = 0;
    while i < n
        invariant
            i <= n,
            n == src@.len(),
            out@ =~= old(out)@ + src@.take(i as int),
        decreases n - i,
    {
        out.push(src[i]);
        i = i + 1;
        proof {
            assert(out@ =~= old(out)@ + src@.take(i as int));
        }
    }
    proof {
        assert(final(out)@ =~= old(out)@ + src@);
    }
}

/// The decimal digits of `n`, most significant first.
fn u64_to_dec(n: u64) -> (v: Vec<u8>)
    ensures
        v@ == dec_digits(n as int),
    decreases n,
{
    if n < 10 {
        let mut v: Vec<u8> = Vec::new();
        v.push(48 + n as u8);
        proof {
            assert(v@ =~= dec_digits(n as int));
        }
        v
    } else {
        let mut v = u64_to_dec(n / 10);
        v.push(48 + (n % 10) as u8);
        proof {
            assert(v@ =~= dec_digits(n as int));
        }
        v
    }
}

/// Append one listing line for (id, status) to `out`.
#[verifier::rlimit(50)]
fn append_ps_line(out: &mut Vec<u8>, pid: u64, status: ProcessStatus)
    ensures
        final(out)@ == old(out)@ + pid_field(pid as int) + seq![32u8] + status_label(status)
            + seq![10u8],
{
    if pid < 10 {
        out.push(32u8);
        out.push(32u8);
    } else if pid < 100 {
        out.push(32u8);
    }
    let digits = u64_to_dec(pid);
    append_bytes(out, &digits);
    proof {
        assert(out@ =~= old(out)@ + pid_field(pid as int));
    }
    out.push(32u8);
    match status {
        ProcessStatus::Ready => {
            out.push(82u8);
            out.push(101u8);
            out.push(97u8);
            out.push(100u8);
            out.push(121u8);
        }
        ProcessStatus::Running => {
            out.push(82u8);
            out.push(117u8);
            out.push(110u8);
            out.push(110u8);
            out.push(105u8);
            out.push(110u8);
            out.push(103u8);
        }
        ProcessStatus::Blocked => {
            out.push(66u8);
            out.push(108u8);
            out.push(111u8);
            out.push(99u8);
            out.push(107u8);
            out.push(101u8);
            out.push(100u8);
        }
        ProcessStatus::Exited(_) => {
            out.push(69u8);
            out.push(120u8);
            out.push(105u8);
            out.push(116u8);
            out.push(101u8);
            out.push(100u8);
        }
    }
    out.push(10u8);
    proof {
        assert(final(out)@ =~= old(out)@ + pid_field(pid as int) + seq![32u8] + status_label(
            status,
        ) + seq![10u8]);
    }
}

/// Render the full process listing of a table.
fn render_ps(table: &ProcessTable) -> (out: Vec<u8>)
    requires
        table.wf(),
    ensures
        out@ == ps_output(table.procs()),
{
    let mut out: Vec<u8> = Vec::new();
    out.push(80u8);
    out.push(73u8);
    out.push(68u8);
    out.push(32u8);
    out.push(83u8);
    out.push(116u8);
    out.push(97u8);
    out.push(116u8);
    out.push(117u8);
    out.push(115u8);
    out.push(10u8);
    proof {
        assert(out@ =~= ps_header() + ps_body(table.procs().take(0)));
    }

    let n = table.processes.len();
    let mut i: usize = 0;
    while i < n
        invariant
            table.wf(),
            i <= n,
            n == table.procs().len(),
            out@ =~= ps_header() + ps_body(table.procs().take(i as int)),
        decreases n - i,
    {
        append_ps_line(&mut out, table.processes[i].id.0, table.processes[i].status);
        i = i + 1;
        proof {
            let taken = table.procs().take(i as int);
            assert(taken.drop_last() =~= table.procs().take(i - 1));
            assert(taken.last() == table.procs()[i - 1]);
            assert(out@ =~= ps_header() + ps_body(taken));
        }
    }
    proof {
        assert(table.procs().take(n as int) =~= table.procs());
    }
    out
}

/// The caller's memory after sys_ps: on success the rendered listing
/// lands at the buffer pointer, everything else stays.
pub open spec fn ps_mem(mem: Seq<u8>, procs: Seq<Process>, arg1: usize, arg2: usize) -> Seq<u8> {
    let out = ps_output(procs);
    if arg1 != 0 && arg2 != 0 && out.len() <= arg2 && arg1 + out.len() <= mem.len() {
        mem.take(arg1 as int) + out + mem.skip(arg1 + out.len())
    } else {
        mem
    }
}

/// sys_ps - list all processes.
///
/// Renders the (id, status) listing into the caller's buffer at pointer
/// `arg1` of capacity `arg2`; fails with `Invalid` on a null pointer,
/// zero capacity, or a buffer too small for the listing, and with `Fault`
/// when the buffer leaves the caller's memory.
pub fn sys_ps(
    k: &mut Kernel,
    mem: &mut Vec<u8>,
    arg1: usize,
    arg2: usize,
    _arg3: usize,
    _arg4: usize,
    _arg5: usize,
    _arg6: usize,
) -> (r: SysResult)
    requires
        old(k).wf(),
    ensures
        final(k).wf(),
        *final(k) == *old(k),
        final(mem)@ == ps_mem(old(mem)@, old(k).table.procs(), arg1, arg2),
        arg1 == 0 || arg2 == 0 ==> r == Err::<usize, SysError>(SysError::Invalid),
        arg1 != 0 && arg2 != 0 && ps_output(old(k).table.procs()).len() > arg2 ==> r == Err::<
            usize,
            SysError,
        >(SysError::Invalid),
        arg1 != 0 && arg2 != 0 && ps_output(old(k).table.procs()).len() <= arg2 && arg1
            + ps_output(old(k).table.procs()).len() > old(mem)@.len() ==> r == Err::<
            usize,
            SysError,
        >(SysError::Fault),
        arg1 != 0 && arg2 != 0 && ps_output(old(k).table.procs()).len() <= arg2 && arg1
            + ps_output(old(k).table.procs()).len() <= old(mem)@.len() ==> (r matches Ok(n) && n
            == ps_output(old(k).table.procs()).len()),
{
    let buf_ptr = arg1;
    let buf_len = arg2;

    if buf_ptr == 0 || buf_len == 0 {
        return Err(SysError::Invalid);
    }

    let out = render_ps(&k.table);

    if out.len() > buf_len {
        // Buffer too small for the listing.
        return Err(SysError::Invalid);
    }

    let total: usize = mem.len();
    if buf_ptr > total || out.len() > total - buf_ptr {
        return Err(SysError::Fault);
    }

    let count = out.len();
    let mut i: usize = 0;
    while i < count
        invariant
            i <= count,
            count == out@.len(),
            buf_ptr == arg1,
            buf_ptr + count <= total,
            total == mem@.len(),
            mem@.len() == old(mem)@.len(),
            forall|j: int| 0 <= j < i ==> mem@[arg1 + j] == out@[j],
            forall|j: int| 0 <= j < mem@.len() && !(arg1 <= j < arg1 + i) ==> mem@[j] == old(mem)@[j],
        decreases count - i,
    {
        mem.set(buf_ptr + i, out[i]);
        i = i + 1;
        proof {
            assert forall|j: int| 0 <= j < i implies mem@[arg1 + j] == out@[j] by {
                if j == i - 1 {
                    assert(mem@[arg1 + j] == out@[j]);
                }
            }
        }
    }

    proof {
        assert(final(mem)@ =~= ps_mem(old(mem)@, old(k).table.procs(), arg1, arg2));
    }
    Ok(count)
}


// ---------------------------------------------------------------------------
// Dispatch
// ---------------------------------------------------------------------------

/// The signed return word of a handler result: the success payload read
/// back as a signed word, or the error's negative code.
pub open spec fn sys_ret_of(res: SysResult) -> int {
    match res {
        Ok(v) => signed_word(v),
        Err(e) => e.spec_code() as int,
    }
}

/// Convert a handler result into the signed syscall return word.
fn result_to_return_value(res: SysResult) -> (r: i64)
    ensures
        r as int == sys_ret_of(res),
{
    match res {
        Ok(v) => word_to_i64(v),
        Err(e) => e.to_return_value(),
    }
}

/// Main syscall dispatcher.
///
/// Selects the handler mapped to `syscall_nr` — a dense table indexed by
/// the numeric id — hands it the six positional arguments and the
/// caller's memory, and converts its result into the signed return word.
/// An out-of-range id yields `NotImplemented`, whatever the arguments.
pub fn dispatch_syscall(
    k: &mut Kernel,
    mem: &mut Vec<u8>,
    syscall_nr: usize,
    arg1: usize,
    arg2: usize,
    arg3: usize,
    arg4: usize,
    arg5: usize,
    arg6: usize,
) -> (r: i64)
    requires
        old(k).wf(),
        syscall_nr == SYS_TASK_WAIT && arg1 != 0 ==> wait_settled(&old(k).table, arg1 as u64),
    ensures
        final(k).wf(),
        syscall_nr >= SYSCALL_COUNT ==> r == SysError::NotImplemented.spec_code() && *final(k)
            == *old(k) && final(mem)@ == old(mem)@,
        syscall_nr == SYS_HELLO ==> r as int == sys_ret_of(hello_res(arg1)) && *final(k) == *old(k)
            && final(mem)@ == old(mem)@,
        syscall_nr == SYS_LOG ==> {
            &&& r as int == sys_ret_of(log_res(old(mem)@.len() as int, arg1, arg2))
            &&& final(k).tty@ == log_tty(old(k).tty@, old(mem)@, arg1, arg2)
            &&& final(k).table == old(k).table
            &&& final(k).sched == old(k).sched
            &&& final(k).input == old(k).input
            &&& final(k).scancodes == old(k).scancodes
            &&& final(mem)@ == old(mem)@
        },
        syscall_nr == SYS_WRITE ==> {
            &&& r as int == sys_ret_of(write_res(old(mem)@.len() as int, arg1, arg2, arg3))
            &&& final(k).tty@ == write_tty(old(k).tty@, old(mem)@, arg1, arg2, arg3)
            &&& final(k).table == old(k).table
            &&& final(k).sched == old(k).sched
            &&& final(k).input == old(k).input
            &&& final(k).scancodes == old(k).scancodes
            &&& final(mem)@ == old(mem)@
        },
        syscall_nr == SYS_EXIT ==> {
            &&& r as int == sys_ret_of(exit_res(old(k).sched.cur()))
            &&& final(k).table.procs() == exit_table(
                old(k).table.procs(),
                old(k).sched.cur(),
                arg1,
            )
            &&& final(k).sched == old(k).sched
            &&& final(k).input == old(k).input
            &&& final(k).scancodes == old(k).scancodes
            &&& final(k).tty == old(k).tty
            &&& final(mem)@ == old(mem)@
        },
        syscall_nr == SYS_READ ==> {
            &&& r as int == sys_ret_of(
                read_res(old(mem)@.len() as int, old(k).input.bytes(), arg1, arg2, arg3),
            )
            &&& final(mem)@ == read_mem(old(mem)@, old(k).input.bytes(), arg1, arg2, arg3)
            &&& final(k).input.bytes() == read_input_left(
                old(mem)@.len() as int,
                old(k).input.bytes(),
                arg1,
                arg2,
                arg3,
            )
            &&& final(k).table == old(k).table
            &&& final(k).sched == old(k).sched
            &&& final(k).scancodes == old(k).scancodes
            &&& final(k).tty == old(k).tty
        },
        syscall_nr == SYS_TASK_CREATE ==> {
            &&& r as int == sys_ret_of(
                task_create_res(old(k).table.procs().len() as int, arg1),
            )
            &&& (task_create_res(old(k).table.procs().len() as int, arg1) is Err ==> final(k).table == old(k).table && final(k).sched == old(k).sched)
            &&& (task_create_res(old(k).table.procs().len() as int, arg1) is Ok ==> {
                &&& final(k).table.procs().drop_last() == old(k).table.procs()
                &&& final(k).table.procs().len() == old(k).table.procs().len() + 1
                &&& final(k).table.procs().last().id.0 == old(k).table.procs().len() + 1
                &&& final(k).table.procs().last().entry_point == arg1
                &&& final(k).table.procs().last().status == ProcessStatus::Ready
                &&& final(k).sched.queue() == crate::scheduler::rr_enqueue(
                    old(k).sched.queue(),
                    Some((old(k).table.procs().len() + 1) as u64),
                )
                &&& final(k).sched.cur() == old(k).sched.cur()
            })
            &&& final(k).input == old(k).input
            &&& final(k).scancodes == old(k).scancodes
            &&& final(k).tty == old(k).tty
            &&& final(mem)@ == old(mem)@
        },
        syscall_nr == SYS_TASK_WAIT ==> {
            &&& *final(k) == *old(k)
            &&& final(mem)@ == old(mem)@
            &&& (arg1 == 0 ==> r == SysError::Invalid.spec_code())
            &&& (arg1 != 0 && !old(k).table.contains_pid(arg1 as u64) ==> r
                == SysError::NotFound.spec_code())
            &&& (task_wait_ok(&old(k).table, arg1) ==> {
                let code = exit_code_of(old(k).table.proc_of(arg1 as u64).status);
                &&& (0 <= code <= usize::MAX ==> r == code)
                &&& (code < 0 && usize::MAX == 0xffff_ffff_ffff_ffff ==> r == code)
            })
        },
        syscall_nr == SYS_GET_PID ==> {
            &&& *final(k) == *old(k)
            &&& final(mem)@ == old(mem)@
            &&& (old(k).sched.cur() is None ==> r == 1)
            &&& (old(k).sched.cur() matches Some(p) ==> {
                &&& (p <= usize::MAX && p <= i64::MAX ==> r == p)
                &&& (i64::MAX < p <= usize::MAX ==> r as int == p - 0x1_0000_0000_0000_0000)
            })
        },
        syscall_nr == SYS_PS ==> {
            let out = ps_output(old(k).table.procs());
            &&& *final(k) == *old(k)
            &&& final(mem)@ == ps_mem(old(mem)@, old(k).table.procs(), arg1, arg2)
            &&& (arg1 == 0 || arg2 == 0 ==> r == SysError::Invalid.spec_code())
            &&& (arg1 != 0 && arg2 != 0 && out.len() > arg2 ==> r
                == SysError::Invalid.spec_code())
            &&& (arg1 != 0 && arg2 != 0 && out.len() <= arg2 && arg1 + out.len() > old(mem)@.len()
                ==> r == SysError::Fault.spec_code())
            &&& (arg1 != 0 && arg2 != 0 && out.len() <= arg2 && arg1 + out.len() <= old(mem)@.len() ==> r == out.len())
        },
        syscall_nr == SYS_UPTIME ==> {
            &&& *final(k) == *old(k)
            &&& final(mem)@ == old(mem)@
            &&& (old(k).sched.elapsed() / crate::scheduler::TICKS_PER_SECOND <= usize::MAX ==> r
                == old(k).sched.elapsed() / crate::scheduler::TICKS_PER_SECOND)
        },
{
    if syscall_nr == SYS_HELLO {
        result_to_return_value(sys_hello(arg1, arg2, arg3, arg4, arg5, arg6))
    } else if syscall_nr == SYS_LOG {
        result_to_return_value(sys_log(k, mem, arg1, arg2, arg3, arg4, arg5, arg6))
    } else if syscall_nr == SYS_WRITE {
        result_to_return_value(sys_write(k, mem, arg1, arg2, arg3, arg4, arg5, arg6))
    } else if syscall_nr == SYS_EXIT {
        result_to_return_value(sys_exit(k, arg1, arg2, arg3, arg4, arg5, arg6))
    } else if syscall_nr == SYS_READ {
        result_to_return_value(sys_read(k, mem, arg1, arg2, arg3, arg4, arg5, arg6))
    } else if syscall_nr == SYS_TASK_CREATE {
        result_to_return_value(sys_task_create(k, arg1, arg2, arg3, arg4, arg5, arg6))
    } else if syscall_nr == SYS_TASK_WAIT {
        result_to_return_value(sys_task_wait(k, arg1, arg2, arg3, arg4, arg5, arg6))
    } else if syscall_nr == SYS_GET_PID {
        result_to_return_value(sys_get_pid(k, arg1, arg2, arg3, arg4, arg5, arg6))
    } else if syscall_nr == SYS_PS {
        proof {
            lemma_ps_output_len(old(k).table.procs());
        }
        result_to_return_value(sys_ps(k, mem, arg1, arg2, arg3, arg4, arg5, arg6))
    } else if syscall_nr == SYS_UPTIME {
        result_to_return_value(sys_uptime(k, arg1, arg2, arg3, arg4, arg5, arg6))
    } else {
        SysError::NotImplemented.to_return_value()
    }
}

} // verus!
