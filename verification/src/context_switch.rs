//! The table side of the context-switch protocol.
//!
//! A switch has two halves.  The hardware half — capturing the running
//! register file into a `TaskContext` and installing a saved one, which
//! never returns — is raw machine code and belongs to the embedding
//! program.  The bookkeeping half lives here: stamping the outgoing
//! process `Ready` (unless the table already marked it `Blocked` or
//! `Exited`) and the incoming one `Running`, plus the diagnostic guard
//! that checks a saved context before it is restored.

use vstd::prelude::*;

use crate::process::{
    proc_with_status, set_process_status, Process, ProcessStatus, ProcessTable, TaskContext,
};

verus! {

/// First address of the kernel heap, where task stacks live.
pub const KERNEL_HEAP_START: u64 = 0x0000_4444_4444_0000;

/// One past the last heap byte: the heap spans 100 KiB.
pub const KERNEL_HEAP_END: u64 = 0x0000_4444_4444_0000 + 100 * 1024;

/// Largest span a task stack may cover, with some overflow room.
pub const MAX_CONTEXT_STACK_SPAN: u64 = 4096 + 256;

/// What the diagnostic guard accepts: non-null stack and instruction
/// pointers, a stack pointer inside the kernel heap and strictly below the
/// base pointer, and a stack span within the allowed bound.  (A cleared
/// interrupt flag is suspicious but not fatal, and does not fail the
/// check.)
pub open spec fn context_valid(ctx: TaskContext) -> bool {
    &&& ctx.rsp != 0
    &&& ctx.rip != 0
    &&& KERNEL_HEAP_START <= ctx.rsp <= KERNEL_HEAP_END
    &&& ctx.rsp < ctx.rbp
    &&& ctx.rbp - ctx.rsp <= MAX_CONTEXT_STACK_SPAN
}

/// Best-effort check of a saved context before a restore, catching
/// corrupted contexts early instead of double-faulting.
pub fn validate_context(ctx: &TaskContext) -> (r: bool)
    ensures
        r == context_valid(*ctx),
{
    if ctx.rsp == 0 {
        return false;
    }
    if ctx.rip == 0 {
        return false;
    }
    if ctx.rsp < KERNEL_HEAP_START || ctx.rsp > KERNEL_HEAP_END {
        return false;
    }
    if ctx.rsp >= ctx.rbp {
        return false;
    }
    if ctx.rbp - ctx.rsp > MAX_CONTEXT_STACK_SPAN {
        return false;
    }
    true
}

/// The table after the outgoing process is stamped `Ready`: a present
/// current process still marked `Running` becomes `Ready`; one the table
/// already marked otherwise — or does not know — is left as it is.
pub open spec fn stamp_previous_ready(procs: Seq<Process>, current: Option<u64>) -> Seq<Process> {
    match current {
        Some(p) => if 1 <= p <= procs.len() && procs[p - 1].status == ProcessStatus::Running {
            procs.update(p - 1, proc_with_status(procs[p - 1], ProcessStatus::Ready))
        } else {
            procs
        },
        None => procs,
    }
}

/// The table after the incoming process is stamped `Running`.
pub open spec fn stamp_next_running(procs: Seq<Process>, next: Option<u64>) -> Seq<Process> {
    match next {
        Some(p) => if 1 <= p <= procs.len() {
            procs.update(p - 1, proc_with_status(procs[p - 1], ProcessStatus::Running))
        } else {
            procs
        },
        None => procs,
    }
}

/// Record a context switch in the process table: the outgoing process is
/// stamped `Ready` unless already `Blocked` or `Exited`, the incoming one
/// `Running`.
///
/// The hardware transition — saving the register file of `current_pid`,
/// restoring that of `next_pid` (which transfers control away), or halting
/// until the next interrupt when there is no next process — is performed
/// by the embedding program around this call.
pub fn context_switch(table: &mut ProcessTable, current_pid: Option<u64>, next_pid: Option<u64>)
    requires
        old(table).wf(),
    ensures
        final(table).wf(),
        final(table).procs() == stamp_next_running(
            stamp_previous_ready(old(table).procs(), current_pid),
            next_pid,
        ),
        final(table).next() == old(table).next(),
{
    if let Some(pid) = current_pid {
        match crate::process::get_process_status(table, pid) {
            Some(ProcessStatus::Running) => {
                set_process_status(table, pid, ProcessStatus::Ready);
            }
            _ => {}
        }
    }

    if let Some(pid) = next_pid {
        set_process_status(table, pid, ProcessStatus::Running);
    }
}

} // verus!
