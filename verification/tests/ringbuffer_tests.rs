use kvcore::ringbuffer::{FdRingBuffer, RING_CAPACITY};

#[test]
fn fifo_order() {
    let mut rbuf = FdRingBuffer::init();
    rbuf.put(11).unwrap();
    rbuf.put(22).unwrap();
    assert_eq!(rbuf.get(), Some(11));
    assert_eq!(rbuf.get(), Some(22));
    assert_eq!(rbuf.get(), None);
}

#[test]
fn get_on_empty_yields_nothing() {
    let mut rbuf = FdRingBuffer::init();
    assert_eq!(rbuf.get(), None);
}

#[test]
fn put_beyond_capacity_refused_until_a_get_frees_a_slot() {
    let mut rbuf = FdRingBuffer::init();
    for i in 0..RING_CAPACITY {
        rbuf.put(i as i32).unwrap();
    }
    // the buffer is saturated: the producer is stalled, the descriptor
    // comes back untouched
    assert_eq!(rbuf.put(7777), Err(7777));
    // one consumption frees exactly one slot and unblocks the producer
    assert_eq!(rbuf.get(), Some(0));
    rbuf.put(7777).unwrap();
    assert_eq!(rbuf.put(8888), Err(8888));
}

#[test]
fn capacity_is_never_exceeded() {
    let mut rbuf = FdRingBuffer::init();
    let mut accepted = 0usize;
    for i in 0..(RING_CAPACITY + 100) {
        if rbuf.put(i as i32).is_ok() {
            accepted += 1;
        }
    }
    assert_eq!(accepted, RING_CAPACITY);
}

#[test]
fn fifo_order_across_wraparound() {
    let mut rbuf = FdRingBuffer::init();
    // move the indices near the end of the slot array, then run a window
    // of live items across the wrap point
    for i in 0..RING_CAPACITY - 2 {
        rbuf.put(i as i32).unwrap();
        assert_eq!(rbuf.get(), Some(i as i32));
    }
    for i in 0..5 {
        rbuf.put(1000 + i).unwrap();
    }
    for i in 0..5 {
        assert_eq!(rbuf.get(), Some(1000 + i));
    }
    assert_eq!(rbuf.get(), None);
}

#[test]
fn drain_full_buffer_in_order() {
    let mut rbuf = FdRingBuffer::init();
    for i in 0..RING_CAPACITY {
        rbuf.put(i as i32).unwrap();
    }
    for i in 0..RING_CAPACITY {
        assert_eq!(rbuf.get(), Some(i as i32));
    }
    assert_eq!(rbuf.get(), None);
}
