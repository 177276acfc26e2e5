use observatory_core::channel::{BoundedChannel, SendOutcome};

#[test]
fn send_then_recv_in_order() {
    let mut chan: BoundedChannel<u64> = BoundedChannel::new(4);
    assert_eq!(chan.try_send(10), SendOutcome::Sent);
    assert_eq!(chan.try_send(20), SendOutcome::Sent);
    assert_eq!(chan.try_send(30), SendOutcome::Sent);
    assert_eq!(chan.recv(), Some(10));
    assert_eq!(chan.recv(), Some(20));
    assert_eq!(chan.recv(), Some(30));
    assert_eq!(chan.recv(), None);
}

#[test]
fn full_channel_refuses_and_returns_the_item() {
    let mut chan: BoundedChannel<u64> = BoundedChannel::new(1);
    assert_eq!(chan.try_send(1), SendOutcome::Sent);
    assert!(chan.is_full());
    assert_eq!(chan.try_send(2), SendOutcome::Full(2));
    assert_eq!(chan.try_send(2), SendOutcome::Full(2));
    assert_eq!(chan.len(), 1);
    assert_eq!(chan.recv(), Some(1));
    assert_eq!(chan.try_send(2), SendOutcome::Sent);
    assert_eq!(chan.recv(), Some(2));
    assert_eq!(chan.recv(), None);
}

#[test]
fn recv_on_empty_is_none() {
    let mut chan: BoundedChannel<u64> = BoundedChannel::new(3);
    assert_eq!(chan.recv(), None);
    assert_eq!(chan.len(), 0);
}

#[test]
fn producer_stalls_then_everything_arrives_in_order() {
    // Capacity 10, a producer 15 snapshots ahead of the consumer: the sends
    // of items 11..15 are refused until the consumer frees space, and the
    // consumer still receives all 15 in order, none lost.
    let mut chan: BoundedChannel<u64> = BoundedChannel::new(10);
    let mut received: Vec<u64> = Vec::new();
    let mut stalled_items: Vec<u64> = Vec::new();
    let mut next: u64 = 1;
    while next <= 15 {
        match chan.try_send(next) {
            SendOutcome::Sent => {
                next += 1;
            }
            SendOutcome::Full(returned) => {
                // The producer suspends; the consumer drains one item.
                assert_eq!(returned, next);
                stalled_items.push(returned);
                if let Some(item) = chan.recv() {
                    received.push(item);
                }
            }
        }
    }
    while let Some(item) = chan.recv() {
        received.push(item);
    }
    let expected: Vec<u64> = (1..=15).collect();
    assert_eq!(received, expected);
    assert_eq!(stalled_items, vec![11, 12, 13, 14, 15]);
}
