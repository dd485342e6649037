//! TTY output primitive.
//!
//! A minimal terminal abstraction that decouples logical output (stdout,
//! stderr, the kernel log) from the physical backend.  Here the backend
//! is the kernel's output log — a byte vector the embedding program
//! drains to the actual device; each write appends raw bytes with no
//! buffering, interpretation, or control sequences.

use vstd::prelude::*;

verus! {

/// Maximum bytes per TTY write operation, matching the syscall layer's
/// validation limit.  A larger write is a kernel bug, not caller input,
/// so it is ruled out rather than reported.
pub const TTY_MAX_WRITE: usize = 4096;

/// Write raw bytes to the TTY device.
///
/// Appends `buf` verbatim to the output log and reports how many bytes
/// were written.  Nothing is added or modified; an empty write leaves the
/// log untouched.
pub fn tty_write(tty: &mut Vec<u8>, buf: &[u8]) -> (r: usize)
    requires
        buf@.len() <= TTY_MAX_WRITE,
    ensures
        final(tty)@ == old(tty)@ + buf@,
        r == buf@.len(),
{
    let count = buf.len();
    let mut i: usize = 0;
    while i < count
        invariant
            i <= count,
            count == buf@.len(),
            tty@ =~= old(tty)@ + buf@.take(i as int),
        decreases count - i,
    {
        tty.push(buf[i]);
        i = i + 1;
        proof {
            assert(tty@ =~= old(tty)@ + buf@.take(i as int));
        }
    }
    proof {
        assert(final(tty)@ =~= old(tty)@ + buf@);
    }
    count
}

/// Write raw bytes followed by a newline, for kernel-log readability.
pub fn tty_write_with_newline(tty: &mut Vec<u8>, buf: &[u8]) -> (r: usize)
    requires
        buf@.len() <= TTY_MAX_WRITE,
    ensures
        final(tty)@ == old(tty)@ + buf@ + seq![10u8],
        r == buf@.len(),
{
    let written = tty_write(tty, buf);
    tty.push(10u8);
    written
}

} // verus!
