//! Bounded, ordered, first-in-first-out delivery channel.
//!
//! The snapshot producer feeds the dispatcher through a channel of small
//! fixed capacity. A send on a full channel is refused — the producer
//! suspends and retries rather than dropping or reordering — so a slow
//! consumer costs bounded lag, never lost samples or unbounded memory.
//! Two ghost histories record everything ever sent and everything ever
//! received; the channel invariant ties them together: what was sent is
//! exactly what was received followed by what is still pending, in order.

use vstd::prelude::*;

verus! {

/// What a send attempt did.
#[derive(Debug, PartialEq, Eq)]
pub enum SendOutcome<T> {
    /// The item was enqueued.
    Sent,
    /// The channel is at capacity; nothing changed and the item comes back.
    /// The producer must suspend and retry once the consumer has drained an
    /// item.
    Full(T),
}

/// A single-producer, single-consumer queue of fixed capacity.
pub struct BoundedChannel<T> {
    items: Vec<T>,
    capacity: usize,
    sent: Ghost<Seq<T>>,
    received: Ghost<Seq<T>>,
}

impl<T> BoundedChannel<T> {
    /// Items sent but not yet received, oldest first.
    pub closed spec fn pending(&self) -> Seq<T> {
        self.items@
    }

    /// The most items that can be in flight at once.
    pub closed spec fn capacity(&self) -> nat {
        self.capacity as nat
    }

    /// Every item ever accepted by a send, in send order.
    pub closed spec fn sent(&self) -> Seq<T> {
        self.sent@
    }

    /// Every item ever handed to the consumer, in receive order.
    pub closed spec fn received(&self) -> Seq<T> {
        self.received@
    }

    /// Channel invariant: the pending queue never exceeds capacity, and the
    /// send history is exactly the receive history followed by the pending
    /// queue — no item is ever lost, duplicated or reordered.
    pub open spec fn wf(&self) -> bool {
        &&& self.capacity() >= 1
        &&& self.pending().len() <= self.capacity()
        &&& self.sent() == self.received() + self.pending()
    }

    /// An empty channel of the given capacity.
    pub fn new(capacity: usize) -> (channel: BoundedChannel<T>)
        requires
            capacity >= 1,
        ensures
            channel.wf(),
            channel.capacity() == capacity,
            channel.sent() == Seq::<T>::empty(),
            channel.received() == Seq::<T>::empty(),
            channel.pending() == Seq::<T>::empty(),
    {
        let channel = BoundedChannel {
            items: Vec::new(),
            capacity,
            sent: Ghost(Seq::empty()),
            received: Ghost(Seq::empty()),
        };
        proof {
            assert(channel.sent() =~= channel.received() + channel.pending());
        }
        channel
    }

    /// Attempts to enqueue an item. On a full channel nothing is dropped,
    /// replaced or reordered: the channel is left exactly as it was, and the
    /// item comes back to the caller, who must suspend.
    pub fn try_send(&mut self, item: T) -> (outcome: SendOutcome<T>)
        requires
            old(self).wf(),
        ensures
            final(self).wf(),
            final(self).capacity() == old(self).capacity(),
            final(self).received() == old(self).received(),
            old(self).pending().len() < old(self).capacity() ==> {
                &&& outcome == SendOutcome::<T>::Sent
                &&& final(self).pending() == old(self).pending().push(item)
                &&& final(self).sent() == old(self).sent().push(item)
            },
            old(self).pending().len() >= old(self).capacity() ==> {
                &&& outcome == SendOutcome::Full(item)
                &&& final(self).pending() == old(self).pending()
                &&& final(self).sent() == old(self).sent()
            },
    {
        if self.items.len() < self.capacity {
            self.items.push(item);
            proof {
                self.sent@ = self.sent@.push(item);
                assert(self.sent() =~= self.received() + self.pending());
            }
            SendOutcome::Sent
        } else {
            SendOutcome::Full(item)
        }
    }

    /// Dequeues the oldest pending item, if any.
    pub fn recv(&mut self) -> (item: Option<T>)
        requires
            old(self).wf(),
        ensures
            final(self).wf(),
            final(self).capacity() == old(self).capacity(),
            final(self).sent() == old(self).sent(),
            old(self).pending().len() == 0 ==> {
                &&& item is None
                &&& final(self).pending() == old(self).pending()
                &&& final(self).received() == old(self).received()
            },
            old(self).pending().len() > 0 ==> {
                &&& item == Some(old(self).pending()[0])
                &&& final(self).pending() == old(self).pending().subrange(
                    1,
                    old(self).pending().len() as int,
                )
                &&& final(self).received() == old(self).received().push(
                    old(self).pending()[0],
                )
            },
    {
        if self.items.len() == 0 {
            None
        } else {
            let item = self.items.remove(0);
            proof {
                self.received@ = self.received@.push(item);
                assert(self.items@ =~= old(self).pending().subrange(
                    1,
                    old(self).pending().len() as int,
                ));
                assert(self.sent() =~= self.received() + self.pending());
            }
            Some(item)
        }
    }

    /// How many items are pending.
    pub fn len(&self) -> (n: usize)
        ensures
            n == self.pending().len(),
    {
        self.items.len()
    }

    /// Whether a send would be refused right now.
    pub fn is_full(&self) -> (full: bool)
        ensures
            full == (self.pending().len() >= self.capacity()),
    {
        self.items.len() >= self.capacity
    }
}

/// Backpressure law: at any moment, what the consumer has received is
/// exactly the oldest prefix of what the producer sent, in the original
/// order, and every remaining sent item is still pending — none lost, none
/// reordered. Once the consumer drains the queue, it has received the whole
/// send history.
pub proof fn lemma_delivery_order<T>(channel: &BoundedChannel<T>)
    requires
        channel.wf(),
    ensures
        channel.received() == channel.sent().take(channel.received().len() as int),
        channel.pending() == channel.sent().skip(channel.received().len() as int),
        channel.sent().len() == channel.received().len() + channel.pending().len(),
        channel.pending().len() == 0 ==> channel.received() == channel.sent(),
{
    assert(channel.received() =~= channel.sent().take(channel.received().len() as int));
    assert(channel.pending() =~= channel.sent().skip(channel.received().len() as int));
    if channel.pending().len() == 0 {
        assert(channel.received() =~= channel.sent());
    }
}

} // verus!
