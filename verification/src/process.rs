//! Process table and lifecycle.
//!
//! A process is a schedulable unit: a unique id, an entry point, a 4 KiB
//! stack that grows downward, a saved register context, and a status.  The
//! table is the shared mutable ledger the scheduler and the syscall layer
//! consult; it is constructed explicitly and threaded by reference.

use vstd::prelude::*;

verus! {

/// Bytes of stack owned by each task.
pub const TASK_STACK_SIZE: usize = 4096;

/// Unique identifier for a process/task.
///
/// Ids are handed out by the table's monotonic counter starting at 1 and
/// are never reused.
#[derive(Debug, Clone, Copy, PartialEq, Eq, Structural)]
pub struct ProcessId(pub u64);

impl ProcessId {
    /// Wrap a raw id value.
    pub fn new(value: u64) -> (r: ProcessId)
        ensures
            r.0 == value,
    {
        ProcessId(value)
    }
}

/// Status of a process.
#[derive(Debug, Clone, Copy, PartialEq, Eq, Structural)]
pub enum ProcessStatus {
    /// Process is ready to run.
    Ready,
    /// Process is currently running.
    Running,
    /// Process is waiting for I/O or an event.
    Blocked,
    /// Process has exited with the given code.
    Exited(i64),
}

/// CPU context: every register saved for a process.
///
/// The field order is a stable ABI shared by the register capture and
/// restore operations of the embedding program; the rest of the kernel
/// treats the struct as a plain value.
#[derive(Debug, Clone, Copy, PartialEq, Eq, Structural)]
pub struct TaskContext {
    /// General purpose register rax.
    pub rax: u64,
    /// General purpose register rbx.
    pub rbx: u64,
    /// General purpose register rcx.
    pub rcx: u64,
    /// General purpose register rdx.
    pub rdx: u64,
    /// General purpose register rsi.
    pub rsi: u64,
    /// General purpose register rdi.
    pub rdi: u64,
    /// Base pointer.
    pub rbp: u64,
    /// Stack pointer.
    pub rsp: u64,
    /// General purpose register r8.
    pub r8: u64,
    /// General purpose register r9.
    pub r9: u64,
    /// General purpose register r10.
    pub r10: u64,
    /// General purpose register r11.
    pub r11: u64,
    /// General purpose register r12.
    pub r12: u64,
    /// General purpose register r13.
    pub r13: u64,
    /// General purpose register r14.
    pub r14: u64,
    /// General purpose register r15.
    pub r15: u64,
    /// Instruction pointer.
    pub rip: u64,
    /// CPU flags register.
    pub rflags: u64,
}

/// The flags value with only the interrupt-enable bit set.
pub const RFLAGS_INTERRUPTS_ENABLED: u64 = 0x200;

/// The context a fresh task starts from: the task function pointer rides in
/// `rdi` (the first-argument slot), execution begins at the entry point, the
/// stack pointer sits one machine word below the stack top to leave room for
/// a return address, and interrupts are enabled.
pub open spec fn initial_context(entry_point: u64, stack_top: u64) -> TaskContext {
    TaskContext {
        rax: 0,
        rbx: 0,
        rcx: 0,
        rdx: 0,
        rsi: 0,
        rdi: entry_point,
        rbp: stack_top,
        rsp: (stack_top - 8) as u64,
        r8: 0,
        r9: 0,
        r10: 0,
        r11: 0,
        r12: 0,
        r13: 0,
        r14: 0,
        r15: 0,
        rip: entry_point,
        rflags: RFLAGS_INTERRUPTS_ENABLED,
    }
}

impl TaskContext {
    /// Create a fresh context for a task starting at `entry_point` with its
    /// stack top at `stack_top`.
    pub fn new(entry_point: u64, stack_top: u64) -> (r: TaskContext)
        requires
            stack_top >= 8,
        ensures
            r == initial_context(entry_point, stack_top),
    {
        TaskContext {
            rax: 0,
            rbx: 0,
            rcx: 0,
            rdx: 0,
            rsi: 0,
            rdi: entry_point,
            rbp: stack_top,
            rsp: stack_top - 8,
            r8: 0,
            r9: 0,
            r10: 0,
            r11: 0,
            r12: 0,
            r13: 0,
            r14: 0,
            r15: 0,
            rip: entry_point,
            rflags: RFLAGS_INTERRUPTS_ENABLED,
        }
    }
}

/// A lightweight process/task that the kernel manages.
#[derive(Debug)]
pub struct Process {
    /// Unique process identifier.
    pub id: ProcessId,
    /// Entry point address; must be non-zero for a schedulable process.
    pub entry_point: u64,
    /// The task's 4 KiB stack; grows downward, and holds the loaded image
    /// when the process is binary-backed.
    pub stack: Vec<u8>,
    /// Saved CPU context, written by context save and read by restore.
    pub saved_context: TaskContext,
    /// Current status.
    pub status: ProcessStatus,
    /// Return value; meaningful once the status is `Exited`.
    pub exit_code: i64,
}

impl Process {
    /// A process owns exactly one stack of the fixed size.
    pub open spec fn wf(&self) -> bool {
        self.stack@.len() == TASK_STACK_SIZE
    }

    /// Create a new process with the given id and entry point: a zeroed
    /// stack, a fresh context aimed at the entry point with the stack top
    /// at the stack size (stack-relative addressing), status `Ready`.
    pub fn new(id: u64, entry_point: u64) -> (p: Process)
        ensures
            p.wf(),
            p.id.0 == id,
            p.entry_point == entry_point,
            forall|i: int| 0 <= i < TASK_STACK_SIZE ==> p.stack@[i] == 0u8,
            p.saved_context == initial_context(entry_point, TASK_STACK_SIZE as u64),
            p.status == ProcessStatus::Ready,
            p.exit_code == 0,
    {
        Process {
            id: ProcessId::new(id),
            entry_point,
            stack: zero_bytes(TASK_STACK_SIZE),
            saved_context: TaskContext::new(entry_point, TASK_STACK_SIZE as u64),
            status: ProcessStatus::Ready,
            exit_code: 0,
        }
    }
}

/// A vector of `n` zero bytes.
pub(crate) fn zero_bytes(n: usize) -> (v: Vec<u8>)
    ensures
        v@.len() == n,
        forall|i: int| 0 <= i < n ==> v@[i] == 0u8,
{
    let mut v: Vec<u8> = Vec::new();
    let mut i: usize = 0;
    while i < n
        invariant
            i <= n,
            v@.len() == i,
            forall|j: int| 0 <= j < i ==> v@[j] == 0u8,
        decreases n - i,
    {
        v.push(0u8);
        i = i + 1;
    }
    v
}

/// The largest number of processes the table accepts.
pub const PROCESS_TABLE_CAP: usize = 256;

/// The shared mutable ledger of processes.
///
/// Ids are handed out by a monotonic counter starting at 1 and are never
/// reused; entries are never pruned, so the process at index `i` carries id
/// `i + 1`.
pub struct ProcessTable {
    /// Process records, in creation order.
    pub processes: Vec<Process>,
    /// The id the next successful creation will receive.
    pub next_pid: u64,
}

/// `p` with its status replaced.
pub open spec fn proc_with_status(p: Process, status: ProcessStatus) -> Process {
    Process {
        id: p.id,
        entry_point: p.entry_point,
        stack: p.stack,
        saved_context: p.saved_context,
        status,
        exit_code: p.exit_code,
    }
}

/// `p` with its saved context replaced.
pub open spec fn proc_with_context(p: Process, ctx: TaskContext) -> Process {
    Process {
        id: p.id,
        entry_point: p.entry_point,
        stack: p.stack,
        saved_context: ctx,
        status: p.status,
        exit_code: p.exit_code,
    }
}

/// `ctx` with its stack pointer replaced.
pub open spec fn ctx_with_rsp(ctx: TaskContext, rsp: u64) -> TaskContext {
    TaskContext {
        rax: ctx.rax,
        rbx: ctx.rbx,
        rcx: ctx.rcx,
        rdx: ctx.rdx,
        rsi: ctx.rsi,
        rdi: ctx.rdi,
        rbp: ctx.rbp,
        rsp,
        r8: ctx.r8,
        r9: ctx.r9,
        r10: ctx.r10,
        r11: ctx.r11,
        r12: ctx.r12,
        r13: ctx.r13,
        r14: ctx.r14,
        r15: ctx.r15,
        rip: ctx.rip,
        rflags: ctx.rflags,
    }
}

impl ProcessTable {
    /// The table's processes, in creation order.
    pub open spec fn procs(&self) -> Seq<Process> {
        self.processes@
    }

    /// The id the next successful creation will receive.
    pub open spec fn next(&self) -> u64 {
        self.next_pid
    }

    /// Well-formedness: at most the cap of entries, ids are exactly the
    /// positions shifted by one (so ids are strictly increasing in table
    /// order and never reused), the id counter sits one past the last id,
    /// and every process owns a full-size stack.
    pub open spec fn wf(&self) -> bool {
        &&& self.processes@.len() <= PROCESS_TABLE_CAP
        &&& self.next_pid == self.processes@.len() + 1
        &&& forall|i: int| 0 <= i < self.processes@.len()
            ==> (#[trigger] self.processes@[i]).id.0 == i + 1 && self.processes@[i].wf()
    }

    /// Whether some process carries id `pid`.
    pub open spec fn contains_pid(&self, pid: u64) -> bool {
        1 <= pid <= self.processes@.len()
    }

    /// The process carrying id `pid` (meaningful when present).
    pub open spec fn proc_of(&self, pid: u64) -> Process {
        self.processes@[pid - 1]
    }

    /// The status of process `pid`, or `None` when the id was never issued.
    pub open spec fn status_of(&self, pid: u64) -> Option<ProcessStatus> {
        if self.contains_pid(pid) {
            Some(self.proc_of(pid).status)
        } else {
            None
        }
    }

    /// Create an empty table.
    pub fn new() -> (r: ProcessTable)
        ensures
            r.wf(),
            r.procs().len() == 0,
            r.next() == 1,
    {
        ProcessTable { processes: Vec::new(), next_pid: 1 }
    }

    /// The position of the process carrying `pid`, by linear search.
    fn find(&self, pid: u64) -> (r: Option<usize>)
        requires
            self.wf(),
        ensures
            self.contains_pid(pid) ==> r == Some((pid - 1) as usize),
            !self.contains_pid(pid) ==> r is None,
    {
        let n = self.processes.len();
        let mut i: usize = 0;
        while i < n
            invariant
                self.wf(),
                i <= n,
                n == self.procs().len(),
                forall|j: int| 0 <= j < i ==> (#[trigger] self.procs()[j]).id.0 != pid,
            decreases n - i,
        {
            if self.processes[i].id.0 == pid {
                proof {
                    assert(self.procs()[i as int].id.0 == i + 1);
                }
                return Some(i);
            }
            i = i + 1;
        }
        proof {
            if self.contains_pid(pid) {
                assert(self.procs()[pid - 1].id.0 == pid);
                assert(false);
            }
        }
        None
    }
}

/// Create a new process with the given entry point and enqueue it with the
/// scheduler.
///
/// Returns the fresh process id (positive) on success, `-1` for a zero
/// entry point, `-2` when the table is full.  Fresh ids are strictly
/// greater than every id the table has ever issued, so no id repeats
/// across any sequence of creations, including after exits.
pub fn create_process(
    table: &mut ProcessTable,
    sched: &mut crate::scheduler::Scheduler,
    entry_point: u64,
) -> (r: i64)
    requires
        old(table).wf(),
        old(sched).wf(),
    ensures
        final(table).wf(),
        final(sched).wf(),
        entry_point == 0 ==> r == -1
            && *final(table) == *old(table) && *final(sched) == *old(sched),
        entry_point != 0 && old(table).procs().len() >= PROCESS_TABLE_CAP ==> r == -2
            && *final(table) == *old(table) && *final(sched) == *old(sched),
        entry_point != 0 && old(table).procs().len() < PROCESS_TABLE_CAP ==> {
            &&& r == old(table).procs().len() + 1
            &&& r == old(table).next()
            &&& final(table).procs().drop_last() == old(table).procs()
            &&& final(table).procs().len() == old(table).procs().len() + 1
            &&& final(table).procs().last().id.0 == r
            &&& final(table).procs().last().entry_point == entry_point
            &&& final(table).procs().last().status == ProcessStatus::Ready
            &&& final(table).procs().last().saved_context
                == initial_context(entry_point, TASK_STACK_SIZE as u64)
            &&& final(table).procs().last().exit_code == 0
            &&& forall|i: int| 0 <= i < old(table).procs().len()
                ==> (#[trigger] old(table).procs()[i]).id.0 < r
            &&& final(sched).queue()
                == crate::scheduler::rr_enqueue(old(sched).queue(), Some(r as u64))
            &&& final(sched).cur() == old(sched).cur()
        },
{
    if entry_point == 0 {
        return -1;
    }

    if table.processes.len() >= PROCESS_TABLE_CAP {
        return -2;
    }

    let pid = table.next_pid;
    let process = Process::new(pid, entry_point);
    table.processes.push(process);
    table.next_pid = table.next_pid + 1;

    crate::scheduler::enqueue_process(sched, pid);

    proof {
        assert(final(table).procs().drop_last() =~= old(table).procs());
    }
    pid as i64
}

/// Look a process up by id.
pub fn get_process(table: &ProcessTable, pid: u64) -> (r: Option<ProcessId>)
    requires
        table.wf(),
    ensures
        r == (if table.contains_pid(pid) {
            Some(ProcessId(pid))
        } else {
            None::<ProcessId>
        }),
{
    match table.find(pid) {
        Some(i) => Some(table.processes[i].id),
        None => None,
    }
}

/// The status of a process, or `None` when the id was never issued.
pub fn get_process_status(table: &ProcessTable, pid: u64) -> (r: Option<ProcessStatus>)
    requires
        table.wf(),
    ensures
        r == table.status_of(pid),
{
    match table.find(pid) {
        Some(i) => Some(table.processes[i].status),
        None => None,
    }
}

/// Update a process's status; reports whether the id was found.
pub fn set_process_status(table: &mut ProcessTable, pid: u64, status: ProcessStatus) -> (r: bool)
    requires
        old(table).wf(),
    ensures
        final(table).wf(),
        r == old(table).contains_pid(pid),
        old(table).contains_pid(pid) ==> final(table).procs()
            == old(table).procs().update(pid - 1, proc_with_status(old(table).proc_of(pid), status)),
        !old(table).contains_pid(pid) ==> *final(table) == *old(table),
        final(table).next() == old(table).next(),
{
    match table.find(pid) {
        Some(i) => {
            let p = &mut table.processes[i];
            p.status = status;
            true
        }
        None => false,
    }
}

/// Whether waiting on `pid` is already decided: the id was never issued,
/// or the process has exited.  With the table held for the call, a wait on
/// a still-live process would poll forever; the embedding's retry loop
/// polls the status between scheduling events instead.
pub open spec fn wait_settled(table: &ProcessTable, pid: u64) -> bool {
    !table.contains_pid(pid) || table.proc_of(pid).status is Exited
}

/// Wait for a process to exit and return its exit code, or `None` when the
/// id was never issued.
pub fn wait_process(table: &ProcessTable, pid: u64) -> (r: Option<i64>)
    requires
        table.wf(),
        wait_settled(table, pid),
    ensures
        !table.contains_pid(pid) ==> r is None,
        table.contains_pid(pid) ==> r == Some(exit_code_of(table.proc_of(pid).status)),
{
    match table.find(pid) {
        Some(i) => {
            match table.processes[i].status {
                ProcessStatus::Exited(code) => Some(code),
                _ => {
                    // Excluded by the precondition: the wait is settled.
                    proof {
                        assert(false);
                    }
                    None
                }
            }
        }
        None => None,
    }
}

/// The code a status carries, for an exited process.
pub open spec fn exit_code_of(status: ProcessStatus) -> i64 {
    match status {
        ProcessStatus::Exited(code) => code,
        _ => 0,
    }
}

/// A snapshot of (id, status) pairs, in table order.
pub fn list_processes(table: &ProcessTable) -> (r: Vec<(u64, ProcessStatus)>)
    requires
        table.wf(),
    ensures
        r@.len() == table.procs().len(),
        forall|i: int| 0 <= i < r@.len()
            ==> r@[i] == (table.procs()[i].id.0, table.procs()[i].status),
{
    let n = table.processes.len();
    let mut out: Vec<(u64, ProcessStatus)> = Vec::new();
    let mut i: usize = 0;
    while i < n
        invariant
            table.wf(),
            i <= n,
            n == table.procs().len(),
            out@.len() == i,
            forall|j: int| 0 <= j < i
                ==> out@[j] == (table.procs()[j].id.0, table.procs()[j].status),
        decreases n - i,
    {
        out.push((table.processes[i].id.0, table.processes[i].status));
        i = i + 1;
    }
    out
}

/// The first process in table order whose status is `Ready`, if any — the
/// one a direct-execution pass would run next.
pub fn next_ready_process(table: &ProcessTable) -> (r: Option<u64>)
    requires
        table.wf(),
    ensures
        r is Some <==> exists|i: int| 0 <= i < table.procs().len()
            && (#[trigger] table.procs()[i]).status == ProcessStatus::Ready,
        r matches Some(pid) ==> {
            &&& table.contains_pid(pid)
            &&& table.proc_of(pid).status == ProcessStatus::Ready
            &&& forall|j: int| 0 <= j < pid - 1
                ==> (#[trigger] table.procs()[j]).status != ProcessStatus::Ready
        },
{
    let n = table.processes.len();
    let mut i: usize = 0;
    while i < n
        invariant
            table.wf(),
            i <= n,
            n == table.procs().len(),
            forall|j: int| 0 <= j < i ==> (#[trigger] table.procs()[j]).status != ProcessStatus::Ready,
        decreases n - i,
    {
        if matches!(table.processes[i].status, ProcessStatus::Ready) {
            return Some(table.processes[i].id.0);
        }
        i = i + 1;
    }
    None
}

/// A copy of a process's saved context.
pub fn get_process_context(table: &ProcessTable, pid: u64) -> (r: Option<TaskContext>)
    requires
        table.wf(),
    ensures
        r == (if table.contains_pid(pid) {
            Some(table.proc_of(pid).saved_context)
        } else {
            None::<TaskContext>
        }),
{
    match table.find(pid) {
        Some(i) => Some(table.processes[i].saved_context),
        None => None,
    }
}

/// Replace a process's saved context; reports whether the id was found.
pub fn set_process_context(table: &mut ProcessTable, pid: u64, ctx: TaskContext) -> (r: bool)
    requires
        old(table).wf(),
    ensures
        final(table).wf(),
        r == old(table).contains_pid(pid),
        old(table).contains_pid(pid) ==> final(table).procs()
            == old(table).procs().update(pid - 1, proc_with_context(old(table).proc_of(pid), ctx)),
        !old(table).contains_pid(pid) ==> *final(table) == *old(table),
        final(table).next() == old(table).next(),
{
    match table.find(pid) {
        Some(i) => {
            let p = &mut table.processes[i];
            p.saved_context = ctx;
            true
        }
        None => false,
    }
}

/// A process's saved stack pointer.
pub fn get_process_stack_pointer(table: &ProcessTable, pid: u64) -> (r: Option<u64>)
    requires
        table.wf(),
    ensures
        r == (if table.contains_pid(pid) {
            Some(table.proc_of(pid).saved_context.rsp)
        } else {
            None::<u64>
        }),
{
    match table.find(pid) {
        Some(i) => Some(table.processes[i].saved_context.rsp),
        None => None,
    }
}

/// Update a process's saved stack pointer; reports whether the id was found.
pub fn set_process_stack_pointer(table: &mut ProcessTable, pid: u64, rsp: u64) -> (r: bool)
    requires
        old(table).wf(),
    ensures
        final(table).wf(),
        r == old(table).contains_pid(pid),
        old(table).contains_pid(pid) ==> final(table).procs()
            == old(table).procs().update(
            pid - 1,
            proc_with_context(
                old(table).proc_of(pid),
                ctx_with_rsp(old(table).proc_of(pid).saved_context, rsp),
            ),
        ),
        !old(table).contains_pid(pid) ==> *final(table) == *old(table),
        final(table).next() == old(table).next(),
{
    match table.find(pid) {
        Some(i) => {
            let p = &mut table.processes[i];
            p.saved_context.rsp = rsp;
            true
        }
        None => false,
    }
}

/// A token granting mutable access to one process's record.
pub struct ProcessMutRef {
    /// The id of the process the token refers to.
    pub pid: u64,
}

impl ProcessMutRef {
    /// The id this token refers to.
    pub open spec fn pid(&self) -> u64 {
        self.pid
    }

    /// Replace the saved context of the process this token refers to.
    pub fn update_context(&self, table: &mut ProcessTable, ctx: TaskContext)
        requires
            old(table).wf(),
        ensures
            final(table).wf(),
            old(table).contains_pid(self.pid()) ==> final(table).procs()
                == old(table).procs().update(
                self.pid() - 1,
                proc_with_context(old(table).proc_of(self.pid()), ctx),
            ),
            !old(table).contains_pid(self.pid()) ==> *final(table) == *old(table),
    {
        set_process_context(table, self.pid, ctx);
    }
}

/// A mutable-access token for process `pid`, or `None` when the id was
/// never issued.
pub fn get_process_mut(table: &ProcessTable, pid: u64) -> (r: Option<ProcessMutRef>)
    requires
        table.wf(),
    ensures
        r is Some <==> table.contains_pid(pid),
        r matches Some(m) ==> m.pid() == pid,
{
    match table.find(pid) {
        Some(_) => Some(ProcessMutRef { pid }),
        None => None,
    }
}

} // verus!
