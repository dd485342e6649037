use orbital::ipc::{RingBuffer, RingMessage, RING_BUFFER_SIZE};

#[test]
fn test_enqueue_dequeue() {
    let mut rb = RingBuffer::new();
    rb.init();

    let mut msg = RingMessage::new(42, 1, 5);
    msg.payload[..5].copy_from_slice(b"hello");

    assert!(rb.enqueue(&msg).is_ok());
    assert_eq!(rb.depth(), 1);

    let received = rb.dequeue();
    assert!(received.is_some());
    let received = received.unwrap();
    assert_eq!(received.sender_task_id, 42);
    assert_eq!(received.msg_id, 1);
    assert_eq!(received.payload_len, 5);
    assert_eq!(received.payload_slice(), b"hello");
}

#[test]
fn test_empty() {
    let mut rb = RingBuffer::new();
    rb.init();
    assert!(rb.is_empty());
    assert_eq!(rb.depth(), 0);
}

#[test]
fn test_fifo_order() {
    let mut rb = RingBuffer::new();
    rb.init();
    for i in 0..5u32 {
        let msg = RingMessage::new(1, i, 0);
        assert!(rb.enqueue(&msg).is_ok());
    }
    for i in 0..5u32 {
        assert_eq!(rb.dequeue().unwrap().msg_id, i);
    }
    assert!(rb.dequeue().is_none());
}

#[test]
fn test_full_rejects_without_corruption() {
    let mut rb = RingBuffer::new();
    rb.init();
    // One slot is sacrificed: capacity - 1 messages fit.
    for i in 0..(RING_BUFFER_SIZE as u32 - 1) {
        let msg = RingMessage::new(1, i, 0);
        assert!(rb.enqueue(&msg).is_ok());
    }
    assert_eq!(rb.depth(), RING_BUFFER_SIZE - 1);
    let overflow = RingMessage::new(1, 9999, 0);
    assert!(rb.enqueue(&overflow).is_err());
    // The rejection left the buffer intact: all messages drain in order.
    assert_eq!(rb.depth(), RING_BUFFER_SIZE - 1);
    for i in 0..(RING_BUFFER_SIZE as u32 - 1) {
        assert_eq!(rb.dequeue().unwrap().msg_id, i);
    }
    assert!(rb.is_empty());
}

#[test]
fn test_wraparound_keeps_fifo() {
    let mut rb = RingBuffer::new();
    rb.init();
    // Drive the indices around the ring several times.
    let mut next_in = 0u32;
    let mut next_out = 0u32;
    for _ in 0..3 {
        for _ in 0..200 {
            let msg = RingMessage::new(1, next_in, 0);
            assert!(rb.enqueue(&msg).is_ok());
            next_in += 1;
        }
        for _ in 0..200 {
            assert_eq!(rb.dequeue().unwrap().msg_id, next_out);
            next_out += 1;
        }
    }
    assert!(rb.is_empty());
}

#[test]
fn test_set_payload_truncates() {
    let mut msg = RingMessage::new(7, 8, 0);
    let data = vec![0xabu8; 300];
    msg.set_payload(&data);
    assert_eq!(msg.payload_len, 256);
    assert_eq!(msg.payload_slice(), &data[..256]);

    let mut short = RingMessage::new(7, 9, 0);
    short.set_payload(b"abc");
    assert_eq!(short.payload_len, 3);
    assert_eq!(short.payload_slice(), b"abc");
}
