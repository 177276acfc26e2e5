use observatory_core::history::HistoryBuffer;

#[test]
fn fresh_buffer_is_all_neutral() {
    let buf: HistoryBuffer<f32> = HistoryBuffer::new(30, 0.0);
    assert_eq!(buf.len(), 30);
    for i in 0..30 {
        assert_eq!(buf.get(i), 0.0);
    }
}

#[test]
fn single_push_fills_last_slot() {
    // Capacity 30, all-zero initial; one push of 0.42 leaves 29 zeroes then 0.42.
    let mut buf: HistoryBuffer<f32> = HistoryBuffer::new(30, 0.0);
    buf.push(0.42);
    assert_eq!(buf.len(), 30);
    for i in 0..29 {
        assert_eq!(buf.get(i), 0.0);
    }
    assert_eq!(buf.get(29), 0.42);
}

#[test]
fn fifo_under_capacity() {
    let mut buf: HistoryBuffer<u64> = HistoryBuffer::new(5, 0);
    buf.push(1);
    buf.push(2);
    buf.push(3);
    assert_eq!(buf.samples().as_slice(), &[0, 0, 1, 2, 3]);
}

#[test]
fn fifo_over_capacity_keeps_last_n() {
    let mut buf: HistoryBuffer<u64> = HistoryBuffer::new(3, 0);
    for s in 1..=5u64 {
        buf.push(s);
    }
    assert_eq!(buf.samples().as_slice(), &[3, 4, 5]);
}

#[test]
fn length_never_changes() {
    let mut buf: HistoryBuffer<u64> = HistoryBuffer::new(4, 7);
    assert_eq!(buf.len(), 4);
    for s in 0..100u64 {
        buf.push(s);
        assert_eq!(buf.len(), 4);
    }
}
