//! Kernel input buffers.
//!
//! Two byte queues fed from interrupt context: one of decoded input
//! characters that the read syscall drains, and one of raw keyboard
//! scancodes for the terminal task.  Both sit on the lock-free bounded
//! queue of the `crossbeam-queue` crate; the queue itself is trusted
//! (its contract is stated, not proved), and everything around it is
//! verified against that contract.

use vstd::prelude::*;

use crossbeam_queue::ArrayQueue;

verus! {

/// Capacity of each input queue, in bytes.
pub const INPUT_QUEUE_CAPACITY: usize = 256;

/// Declares crossbeam_queue::ArrayQueue to the verifier.  Its values are
/// opaque; everything the contracts say about one goes through the two
/// names below.
#[verifier::external_type_specification]
#[verifier::external_body]
#[verifier::reject_recursive_types(T)]
pub struct ExArrayQueue<T>(ArrayQueue<T>);

/// The bytes resident in a queue, oldest first.
pub uninterp spec fn queue_bytes(q: ArrayQueue<u8>) -> Seq<u8>;

/// The fixed capacity a queue was created with.
pub uninterp spec fn queue_capacity(q: ArrayQueue<u8>) -> nat;

/// Relies on crossbeam_queue::ArrayQueue::new: an empty queue with the
/// given capacity (the call panics on capacity zero, and on one so large
/// that the next power of two overflows, both excluded here).
#[verifier::external_body]
fn queue_new(cap: usize) -> (q: ArrayQueue<u8>)
    requires
        0 < cap < 0x1000_0000,
    ensures
        queue_bytes(q) == Seq::<u8>::empty(),
        queue_capacity(q) == cap,
{
    ArrayQueue::new(cap)
}

/// Relies on crossbeam_queue::ArrayQueue::push: appends at the tail when
/// the queue is not full, and hands the value back (here: reports false)
/// when it is.
#[verifier::external_body]
fn queue_push(q: &mut ArrayQueue<u8>, value: u8) -> (accepted: bool)
    ensures
        queue_bytes(*old(q)).len() < queue_capacity(*old(q)) ==> accepted && queue_bytes(*final(q)) == queue_bytes(*old(q)).push(value),
        queue_bytes(*old(q)).len() >= queue_capacity(*old(q)) ==> !accepted && queue_bytes(*final(q)) == queue_bytes(*old(q)),
        queue_capacity(*final(q)) == queue_capacity(*old(q)),
{
    q.push(value).is_ok()
}

/// Relies on crossbeam_queue::ArrayQueue::pop: removes and returns the
/// head, or reports an empty queue.
#[verifier::external_body]
fn queue_pop(q: &mut ArrayQueue<u8>) -> (r: Option<u8>)
    ensures
        queue_capacity(*final(q)) == queue_capacity(*old(q)),
        queue_bytes(*old(q)).len() == 0 ==> r is None && queue_bytes(*final(q)) == queue_bytes(*old(q)),
        queue_bytes(*old(q)).len() > 0 ==> r == Some(queue_bytes(*old(q))[0]) && queue_bytes(*final(q)) == queue_bytes(*old(q)).drop_first(),
{
    q.pop()
}

/// A bounded byte queue fed from interrupt context.
pub struct InputQueue {
    /// The underlying lock-free bounded queue.
    pub queue: ArrayQueue<u8>,
}

impl InputQueue {
    /// The resident bytes, oldest first.
    pub open spec fn bytes(&self) -> Seq<u8> {
        queue_bytes(self.queue)
    }

    /// The queue was created with the fixed input capacity.
    pub open spec fn wf(&self) -> bool {
        queue_capacity(self.queue) == INPUT_QUEUE_CAPACITY
    }

    /// Create an empty input queue.
    pub fn new() -> (r: InputQueue)
        ensures
            r.wf(),
            r.bytes() == Seq::<u8>::empty(),
    {
        InputQueue { queue: queue_new(INPUT_QUEUE_CAPACITY) }
    }
}

/// Add a character to the input buffer (from keyboard decoding).  A full
/// buffer drops the character.
pub fn add_input_char(input: &mut InputQueue, ch: u8)
    requires
        old(input).wf(),
    ensures
        final(input).wf(),
        old(input).bytes().len() < INPUT_QUEUE_CAPACITY ==> final(input).bytes() == old(
            input,
        ).bytes().push(ch),
        old(input).bytes().len() >= INPUT_QUEUE_CAPACITY ==> final(input).bytes() == old(
            input,
        ).bytes(),
{
    queue_push(&mut input.queue, ch);
}

/// Add a raw scancode for the terminal task to read.  A full buffer drops
/// the scancode.
pub fn add_scancode(scancodes: &mut InputQueue, scancode: u8)
    requires
        old(scancodes).wf(),
    ensures
        final(scancodes).wf(),
        old(scancodes).bytes().len() < INPUT_QUEUE_CAPACITY ==> final(scancodes).bytes() == old(
            scancodes,
        ).bytes().push(scancode),
        old(scancodes).bytes().len() >= INPUT_QUEUE_CAPACITY ==> final(scancodes).bytes() == old(
            scancodes,
        ).bytes(),
{
    queue_push(&mut scancodes.queue, scancode);
}

/// Take one scancode if any is available (non-blocking).
pub fn get_scancode(scancodes: &mut InputQueue) -> (r: Option<u8>)
    requires
        old(scancodes).wf(),
    ensures
        final(scancodes).wf(),
        old(scancodes).bytes().len() == 0 ==> r is None && final(scancodes).bytes() == old(scancodes).bytes(),
        old(scancodes).bytes().len() > 0 ==> r == Some(old(scancodes).bytes()[0]) && final(scancodes).bytes() == old(scancodes).bytes().drop_first(),
{
    queue_pop(&mut scancodes.queue)
}

/// Drain available input bytes into the front of `buf`, non-blocking.
///
/// Fills at most `buf`'s length; returns how many bytes were taken.  The
/// taken bytes leave the queue, the rest of `buf` keeps its old contents.
pub fn read_input(input: &mut InputQueue, buf: &mut Vec<u8>) -> (count: usize)
    requires
        old(input).wf(),
    ensures
        final(input).wf(),
        count == spec_min_nat(old(buf)@.len(), old(input).bytes().len()),
        final(input).bytes() == old(input).bytes().skip(count as int),
        final(buf)@ == old(input).bytes().take(count as int) + old(buf)@.skip(count as int),
{
    let len = buf.len();
    let mut count: usize = 0;
    loop
        invariant
            input.wf(),
            count <= len,
            len == old(buf)@.len(),
            buf@.len() == len,
            count <= old(input).bytes().len(),
            input.bytes() == old(input).bytes().skip(count as int),
            buf@ =~= old(input).bytes().take(count as int) + old(buf)@.skip(count as int),
        ensures
            count == spec_min_nat(old(buf)@.len(), old(input).bytes().len()),
            input.bytes() == old(input).bytes().skip(count as int),
            buf@ =~= old(input).bytes().take(count as int) + old(buf)@.skip(count as int),
        decreases len - count,
    {
        if count >= len {
            proof {
                assert(count == len);
            }
            break;
        }
        match queue_pop(&mut input.queue) {
            Some(ch) => {
                buf.set(count, ch);
                count = count + 1;
                proof {
                    assert(buf@ =~= old(input).bytes().take(count as int) + old(buf)@.skip(
                        count as int,
                    ));
                }
            }
            None => {
                break;
            }
        }
    }
    count
}

/// The smaller of two lengths.
pub open spec fn spec_min_nat(a: nat, b: nat) -> nat {
    if a < b {
        a
    } else {
        b
    }
}

} // verus!
