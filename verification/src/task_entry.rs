//! Task execution entry conventions.
//!
//! When a task is first scheduled, its saved context carries the task
//! function pointer in `rdi` and a stack pointer prepared by
//! `init_task_stack`.  The wrapper routine that calls the function and
//! converts its return value into an exit syscall is machine code and
//! lives with the embedding program, as does taking that routine's
//! address.

use vstd::prelude::*;

verus! {

/// Initialize a task's stack: the adjusted stack pointer for a fresh
/// context leaves one machine word of room below the top.
///
/// The task function pointer is passed via `rdi` during context
/// restoration, so nothing is written to the stack here.
pub fn init_task_stack(stack_top: u64, task_fn: u64) -> (r: u64)
    requires
        stack_top >= 8,
    ensures
        r == stack_top - 8,
{
    let _ = task_fn;
    stack_top - 8
}

} // verus!
