//! IPC ring buffer primitive.
//!
//! The kernel's only IPC abstraction: a fixed-capacity queue of raw
//! messages with a write index and a read index interpreted modulo the
//! capacity.  One slot is sacrificed to tell a full buffer from an empty
//! one, so at most capacity − 1 messages are resident.  No serialization,
//! routing, access control, retry, or ordering policy beyond FIFO lives
//! here; all of that belongs to the layers above.

use vstd::prelude::*;

verus! {

/// Maximum payload per message, in bytes.
pub const MAX_PAYLOAD: usize = 256;

/// Slots in the ring buffer (a power of two).
pub const RING_BUFFER_SIZE: usize = 256;

/// Raw IPC message transmitted over the ring buffer: a simple byte
/// container whose payload userspace interprets.
#[derive(Debug, Clone, Copy)]
pub struct RingMessage {
    /// Sender task ID (set by the kernel, unused by it).
    pub sender_task_id: u32,
    /// Message ID (userspace-defined, unused by the kernel).
    pub msg_id: u32,
    /// Payload size in bytes (0-256).
    pub payload_len: u16,
    /// Raw message payload; userspace decides the interpretation.
    pub payload: [u8; 256],
}

impl RingMessage {
    /// Create a new message with a zeroed payload.
    pub fn new(sender_task_id: u32, msg_id: u32, payload_len: u16) -> (r: RingMessage)
        requires
            payload_len <= MAX_PAYLOAD,
        ensures
            r.sender_task_id == sender_task_id,
            r.msg_id == msg_id,
            r.payload_len == payload_len,
            forall|i: int| 0 <= i < MAX_PAYLOAD ==> r.payload@[i] == 0u8,
    {
        RingMessage { sender_task_id, msg_id, payload_len, payload: [0u8; 256] }
    }

    /// Copy `data` (truncated to the payload capacity) into the payload
    /// and record its length.
    pub fn set_payload(&mut self, data: &[u8])
        ensures
            final(self).sender_task_id == old(self).sender_task_id,
            final(self).msg_id == old(self).msg_id,
            final(self).payload_len == spec_min(data@.len() as int, MAX_PAYLOAD as int),
            final(self).payload@ == data@.take(final(self).payload_len as int) + old(
                self,
            ).payload@.skip(final(self).payload_len as int),
    {
        let len = if data.len() < MAX_PAYLOAD {
            data.len()
        } else {
            MAX_PAYLOAD
        };
        let mut i: usize = 0;
        while i < len
            invariant
                i <= len,
                len <= MAX_PAYLOAD,
                len <= data@.len(),
                self.payload@.len() == MAX_PAYLOAD,
                self.sender_task_id == old(self).sender_task_id,
                self.msg_id == old(self).msg_id,
                forall|j: int| 0 <= j < i ==> self.payload@[j] == data@[j],
                forall|j: int| i <= j < MAX_PAYLOAD ==> self.payload@[j] == old(self).payload@[j],
            decreases len - i,
        {
            self.payload[i] = data[i];
            i = i + 1;
        }
        self.payload_len = len as u16;
        proof {
            assert(final(self).payload@ =~= data@.take(len as int) + old(self).payload@.skip(
                len as int,
            ));
        }
    }

    /// The payload as a slice of its recorded length.
    pub fn payload_slice(&self) -> (r: &[u8])
        requires
            self.payload_len <= MAX_PAYLOAD,
        ensures
            r@ == self.payload@.take(self.payload_len as int),
    {
        vstd::slice::slice_subrange(self.payload.as_slice(), 0, self.payload_len as usize)
    }
}

/// The smaller of two values.
pub open spec fn spec_min(a: int, b: int) -> int {
    if a < b {
        a
    } else {
        b
    }
}

/// Ring buffer for IPC messages.
///
/// Single writer, single reader per endpoint.  The indices always sit
/// below the capacity; advancing wraps modulo the capacity.  The buffer is
/// full when advancing the write index would land on the read index.
pub struct RingBuffer {
    /// Ring buffer storage; filled to the full capacity by `init`.
    pub messages: Vec<RingMessage>,
    /// Write index, advanced by `enqueue`.
    pub write_index: usize,
    /// Read index, advanced by `dequeue`.
    pub read_index: usize,
}

impl RingBuffer {
    /// Both indices sit below the capacity, and the storage is either
    /// still unallocated or filled to the full capacity.
    pub open spec fn inv(&self) -> bool {
        &&& self.write_index < RING_BUFFER_SIZE
        &&& self.read_index < RING_BUFFER_SIZE
        &&& (self.messages@.len() == 0 || self.messages@.len() == RING_BUFFER_SIZE)
    }

    /// Whether the storage has been initialized to the full capacity.
    pub open spec fn ready(&self) -> bool {
        self.messages@.len() == RING_BUFFER_SIZE
    }

    /// Resident messages, oldest first: the slots from the read index up
    /// to (but excluding) the write index, wrapping around the capacity.
    pub open spec fn contents(&self) -> Seq<RingMessage> {
        if self.write_index >= self.read_index {
            self.messages@.subrange(self.read_index as int, self.write_index as int)
        } else {
            self.messages@.subrange(self.read_index as int, RING_BUFFER_SIZE as int)
                + self.messages@.subrange(0, self.write_index as int)
        }
    }

    /// The index distance from read to write, modulo the capacity.
    pub open spec fn spec_depth(&self) -> int {
        (self.write_index + RING_BUFFER_SIZE - self.read_index) % (RING_BUFFER_SIZE as int)
    }

    /// Create a new, uninitialized ring buffer.
    pub fn new() -> (r: RingBuffer)
        ensures
            r.inv(),
            !r.ready(),
            r.write_index == 0,
            r.read_index == 0,
    {
        RingBuffer { messages: Vec::new(), write_index: 0, read_index: 0 }
    }

    /// Fill the buffer with empty messages and reset both indices.
    pub fn init(&mut self)
        ensures
            final(self).inv(),
            final(self).ready(),
            final(self).contents() == Seq::<RingMessage>::empty(),
            final(self).spec_depth() == 0,
    {
        self.messages.clear();
        let mut i: usize = 0;
        while i < RING_BUFFER_SIZE
            invariant
                i <= RING_BUFFER_SIZE,
                self.messages@.len() == i,
            decreases RING_BUFFER_SIZE - i,
        {
            self.messages.push(RingMessage::new(0, 0, 0));
            i = i + 1;
        }
        self.write_index = 0;
        self.read_index = 0;
        proof {
            assert(final(self).contents() =~= Seq::<RingMessage>::empty());
        }
    }

    /// Enqueue a message; fails without blocking when the buffer is full
    /// (capacity − 1 messages resident), leaving buffer and indices
    /// untouched.  An accepted message goes behind every resident one.
    pub fn enqueue(&mut self, message: &RingMessage) -> (r: Result<(), ()>)
        requires
            old(self).inv(),
            old(self).ready(),
        ensures
            final(self).inv(),
            final(self).ready(),
            r is Err <==> old(self).contents().len() == RING_BUFFER_SIZE - 1,
            r is Err ==> *final(self) == *old(self),
            r is Ok ==> final(self).contents() == old(self).contents().push(*message),
    {
        proof {
            self.lemma_depth_is_contents_len();
        }
        let write = self.write_index;
        let read = self.read_index;

        // Full when one more step would make write meet read.
        if (write + 1) % RING_BUFFER_SIZE == read {
            return Err(());
        }

        self.messages.set(write, *message);
        self.write_index = (write + 1) % RING_BUFFER_SIZE;

        proof {
            self.lemma_depth_is_contents_len();
            assert(final(self).contents() =~= old(self).contents().push(*message));
        }
        Ok(())
    }

    /// Dequeue the oldest resident message, or report an empty buffer,
    /// leaving buffer and indices untouched.
    pub fn dequeue(&mut self) -> (r: Option<RingMessage>)
        requires
            old(self).inv(),
            old(self).ready(),
        ensures
            final(self).inv(),
            final(self).ready(),
            r is None <==> old(self).contents().len() == 0,
            r is None ==> *final(self) == *old(self),
            r matches Some(m) ==> m == old(self).contents()[0] && final(self).contents() == old(
                self,
            ).contents().drop_first(),
    {
        proof {
            self.lemma_depth_is_contents_len();
        }
        let read = self.read_index;
        let write = self.write_index;

        if read == write {
            return None;
        }

        let message = self.messages[read];
        self.read_index = (read + 1) % RING_BUFFER_SIZE;

        proof {
            self.lemma_depth_is_contents_len();
            assert(final(self).contents() =~= old(self).contents().drop_first());
        }
        Some(message)
    }

    /// Whether the buffer holds no message (a diagnostic snapshot).
    pub fn is_empty(&self) -> (r: bool)
        requires
            self.inv(),
        ensures
            r == (self.spec_depth() == 0),
            self.ready() ==> r == (self.contents().len() == 0),
    {
        proof {
            if self.ready() {
                self.lemma_depth_is_contents_len();
            }
        }
        self.read_index == self.write_index
    }

    /// The number of resident messages (a diagnostic snapshot).
    pub fn depth(&self) -> (r: usize)
        requires
            self.inv(),
        ensures
            r == self.spec_depth(),
            self.ready() ==> r == self.contents().len(),
    {
        proof {
            if self.ready() {
                self.lemma_depth_is_contents_len();
            }
        }
        (self.write_index + RING_BUFFER_SIZE - self.read_index) % RING_BUFFER_SIZE
    }

    /// The index distance always counts exactly the resident messages.
    proof fn lemma_depth_is_contents_len(&self)
        requires
            self.inv(),
            self.ready(),
        ensures
            self.contents().len() == self.spec_depth(),
    {
    }
}


/// FIFO order: a buffer whose resident messages are `msgs` hands them
/// back in exactly that order — after `k` dequeues the oldest remaining
/// message is the one accepted `k`-th.
pub proof fn lemma_ring_fifo_order(msgs: Seq<RingMessage>, k: int)
    requires
        0 <= k < msgs.len(),
    ensures
        msgs.skip(k)[0] == msgs[k],
{
}

} // verus!
