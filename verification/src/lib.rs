//! Core task-execution subsystem of a small x86-64 teaching kernel.
//!
//! The library covers the process table and lifecycle, the round-robin
//! scheduler with preemption toggling, the table side of the context-switch
//! protocol, the syscall dispatch layer, the ELF entry-point loader, and the
//! fixed-capacity ring buffer that serves as the kernel's only IPC primitive.
//!
//! All state is explicitly constructed and threaded by reference; the
//! hardware edges (register capture and restore, interrupt wiring, the
//! actual jump into loaded code) live with the embedding program.

pub mod binary_loader;
pub mod common;
pub mod context_switch;
pub mod elf_loader;
pub mod input;
pub mod interrupts;
pub mod ipc;
pub mod multiprocess;
pub mod process;
pub mod scheduler;
pub mod syscall;
pub mod task_entry;
pub mod tty;
pub mod userspace;
