//! Binary loader: turn an ELF blob into a runnable process.
//!
//! The flat-load model: the whole binary is copied verbatim into the
//! process's stack buffer, no segments are relocated.  The caller supplies
//! the machine address where that buffer will live (only the embedding
//! program knows real addresses) and the id the new process is to carry;
//! the loader validates the header, rebases the entry point, and seeds the
//! saved context so execution starts at the load address with the stack
//! pointer near the top of the buffer.

use vstd::prelude::*;

use crate::elf_loader::{elf_parse_result, parse_elf, ElfInfo};
use crate::process::{Process, ProcessStatus, TASK_STACK_SIZE};

verus! {

/// `a + b` wrapped to the 64-bit address space.
pub open spec fn wrap_add(a: u64, b: u64) -> int {
    if a + b <= u64::MAX {
        a + b
    } else {
        a + b - 0x1_0000_0000_0000_0000
    }
}

/// Add two addresses, wrapping around the 64-bit address space.
fn wrapping_add_u64(a: u64, b: u64) -> (r: u64)
    ensures
        r == wrap_add(a, b),
{
    if b <= u64::MAX - a {
        a + b
    } else {
        b - (u64::MAX - a) - 1
    }
}

/// Load a binary blob into a new process.
///
/// Rejects an empty blob, a blob that does not parse as an ELF
/// executable, and one larger than the process stack.  On success the
/// binary sits at the start of the zero-filled stack buffer, the entry
/// point is the load address plus the ELF entry offset, and the context
/// starts execution at the load address with the stack pointer one
/// machine word below the top of the buffer.  The process is `Ready`.
///
/// `name` is accepted for symmetry with the embedding's spawn paths;
/// process records carry no name, so it is not stored.
pub fn load_binary(binary: &[u8], name: &str, pid: u64, stack_base: u64) -> (r: Result<
    Process,
    &'static str,
>)
    requires
        0 < stack_base <= u64::MAX - TASK_STACK_SIZE,
    ensures
        r is Ok <==> binary@.len() > 0 && elf_parse_result(binary@) is Ok && binary@.len()
            <= TASK_STACK_SIZE,
        binary@.len() == 0 ==> (r matches Err(m) && m@ == "Binary is empty"@),
        binary@.len() > 0 && elf_parse_result(binary@) is Err ==> (r matches Err(m) && m@
            == "Invalid ELF binary format"@),
        binary@.len() > 0 && elf_parse_result(binary@) is Ok && binary@.len() > TASK_STACK_SIZE
            ==> (r matches Err(m) && m@ == "Binary too large for process stack"@),
        r matches Ok(p) ==> {
            let info = elf_parse_result(binary@)->Ok_0;
            &&& p.wf()
            &&& p.id.0 == pid
            &&& p.entry_point == wrap_add(stack_base, info.entry_point)
            &&& p.stack@.len() == TASK_STACK_SIZE
            &&& p.stack@.take(binary@.len() as int) == binary@
            &&& (forall|i: int| binary@.len() <= i < TASK_STACK_SIZE ==> p.stack@[i] == 0u8)
            &&& p.saved_context.rip == stack_base
            &&& p.saved_context.rsp == stack_base + TASK_STACK_SIZE - 8
            &&& p.status == ProcessStatus::Ready
            &&& p.exit_code == 0
        },
{
    let _ = name;
    if binary.len() == 0 {
        return Err("Binary is empty");
    }

    let info: ElfInfo = match parse_elf(binary) {
        Ok(info) => info,
        Err(_) => {
            return Err("Invalid ELF binary format");
        }
    };

    if binary.len() > TASK_STACK_SIZE {
        return Err("Binary too large for process stack");
    }

    // The virtual entry is an offset from the load address; the sum wraps
    // like the hardware's address arithmetic would.
    let entry_point = wrapping_add_u64(stack_base, info.entry_point);
    let mut process = Process::new(pid, entry_point);

    // Flat-load: copy the whole image to the bottom of the stack buffer.
    let count = binary.len();
    let mut i: usize = 0;
    while i < count
        invariant
            i <= count,
            count == binary@.len(),
            count <= TASK_STACK_SIZE,
            process.stack@.len() == TASK_STACK_SIZE,
            process.id.0 == pid,
            forall|j: int| 0 <= j < i ==> process.stack@[j] == binary@[j],
            forall|j: int| i <= j < TASK_STACK_SIZE ==> process.stack@[j] == 0u8,
            process.entry_point == entry_point,
            process.saved_context == crate::process::initial_context(
                entry_point,
                TASK_STACK_SIZE as u64,
            ),
            process.status == ProcessStatus::Ready,
            process.exit_code == 0,
        decreases count - i,
    {
        process.stack.set(i, binary[i]);
        i = i + 1;
    }

    // Execution begins at the load address; the stack grows downward from
    // just below the top of the buffer.
    process.saved_context.rip = stack_base;
    process.saved_context.rsp = stack_base + (TASK_STACK_SIZE as u64) - 8;
    process.status = ProcessStatus::Ready;

    proof {
        assert(process.stack@.take(binary@.len() as int) =~= binary@);
    }
    Ok(process)
}

/// The built-in userspace shell image: a minimal ELF64 executable header
/// whose entry point is the image start.  A kernel build always embeds
/// it, so the result is never `None`.
pub fn get_cli_binary() -> (r: Option<Vec<u8>>)
    ensures
        r is Some,
        r matches Some(b) ==> {
            &&& b@.len() == crate::elf_loader::ELF_HEADER_SIZE
            &&& elf_parse_result(b@) == Ok::<ElfInfo, crate::elf_loader::ElfError>(
                (ElfInfo { entry_point: 0, size: 64 }),
            )
        },
{
    let mut image = crate::process::zero_bytes(crate::elf_loader::ELF_HEADER_SIZE);
    image.set(0, 0x7f);
    image.set(1, 0x45);
    image.set(2, 0x4c);
    image.set(3, 0x46);
    image.set(4, 2);
    image.set(5, 1);
    image.set(6, 1);
    image.set(16, 2);
    image.set(18, 0x3e);
    Some(image)
}

} // verus!
