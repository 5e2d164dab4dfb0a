//! An unbounded FIFO channel, the transport every loop of this crate
//! consumes from.
//!
//! The channel is a single owned value: the queue of pending items together
//! with the liveness of its two ends. Sending appends at the back, receiving
//! takes from the front, so delivery order within one channel is exactly
//! arrival order. A send whose receiving end is gone fails silently, which
//! is the crate-wide policy for disconnected peers.

use vstd::prelude::*;

verus! {

/// The mathematical value of a channel: the queued items, oldest first,
/// and whether each end is still live.
#[verifier::ext_equal]
pub struct ChannelView<T> {
    /// Pending items, the front at index zero.
    pub queue: Seq<T>,
    /// Whether some sending handle is still live.
    pub sender_live: bool,
    /// Whether the receiving end is still live.
    pub receiver_live: bool,
}

impl<T> ChannelView<T> {
    /// Whether a send would be accepted now.
    pub open spec fn can_send(self) -> bool {
        self.sender_live && self.receiver_live
    }

    /// The view after one send: appended when both ends are live,
    /// unchanged otherwise (a silent failure).
    pub open spec fn sent(self, v: T) -> ChannelView<T> {
        if self.can_send() {
            ChannelView { queue: self.queue.push(v), sender_live: self.sender_live, receiver_live: self.receiver_live }
        } else {
            self
        }
    }

    /// The view after one receive attempt.
    pub open spec fn received(self) -> ChannelView<T> {
        if self.receiver_live && self.queue.len() > 0 {
            ChannelView { queue: self.queue.drop_first(), sender_live: self.sender_live, receiver_live: self.receiver_live }
        } else {
            self
        }
    }

    /// What one receive attempt yields.
    pub open spec fn receive_outcome(self) -> Recv<T> {
        if !self.receiver_live {
            Recv::Disconnected
        } else if self.queue.len() > 0 {
            Recv::Item(self.queue.first())
        } else if self.sender_live {
            Recv::Empty
        } else {
            Recv::Disconnected
        }
    }
}

/// Outcome of one attempt to take the next item from a channel.
pub enum Recv<T> {
    /// The oldest pending item.
    Item(T),
    /// Nothing queued yet, but a sender is still live: the consumer
    /// should try again later.
    Empty,
    /// Nothing will ever arrive again: every sending handle is gone, or
    /// the receiving end itself was closed.
    Disconnected,
}

/// An unbounded FIFO queue with the lifecycle of a channel.
pub struct Channel<T> {
    items: Vec<T>,
    sender_open: bool,
    receiver_open: bool,
}

impl<T> View for Channel<T> {
    type V = ChannelView<T>;

    closed spec fn view(&self) -> ChannelView<T> {
        ChannelView { queue: self.items@, sender_live: self.sender_open, receiver_live: self.receiver_open }
    }
}

impl<T> Channel<T> {
    /// A fresh channel: empty, both ends live.
    pub fn new() -> (c: Channel<T>)
        ensures
            c@ == (ChannelView::<T> { queue: Seq::empty(), sender_live: true, receiver_live: true }),
    {
        let c = Channel { items: Vec::new(), sender_open: true, receiver_open: true };
        proof {
            assert(c@ =~= ChannelView::<T> { queue: Seq::empty(), sender_live: true, receiver_live: true });
        }
        c
    }

    /// Whether a send would be accepted now.
    pub fn can_send(&self) -> (b: bool)
        ensures
            b == self@.can_send(),
    {
        self.sender_open && self.receiver_open
    }

    /// Enqueue a value at the back. A channel with a dead end drops the
    /// value silently and reports the failure.
    pub fn send(&mut self, v: T) -> (accepted: bool)
        ensures
            accepted == old(self)@.can_send(),
            final(self)@ == old(self)@.sent(v),
    {
        if self.sender_open && self.receiver_open {
            self.items.push(v);
            proof {
                assert(self@ =~= old(self)@.sent(v));
            }
            true
        } else {
            false
        }
    }

    /// Take the oldest pending item, without blocking.
    pub fn try_recv(&mut self) -> (r: Recv<T>)
        ensures
            r == old(self)@.receive_outcome(),
            final(self)@ == old(self)@.received(),
    {
        if !self.receiver_open {
            Recv::Disconnected
        } else if self.items.len() > 0 {
            let v = self.items.remove(0);
            proof {
                assert(self@ =~= old(self)@.received());
            }
            Recv::Item(v)
        } else if self.sender_open {
            Recv::Empty
        } else {
            Recv::Disconnected
        }
    }

    /// Drop every sending handle: nothing can be enqueued any more, and
    /// once the queue is drained the consumer observes disconnection.
    pub fn disconnect(&mut self)
        ensures
            final(self)@ == (ChannelView { queue: old(self)@.queue, sender_live: false, receiver_live: old(self)@.receiver_live }),
    {
        self.sender_open = false;
        proof {
            assert(self@ =~= ChannelView { queue: old(self)@.queue, sender_live: false, receiver_live: old(self)@.receiver_live });
        }
    }

    /// Close the receiving end: every item still queued is discarded and
    /// later sends fail silently.
    pub fn close(&mut self)
        ensures
            final(self)@ == (ChannelView::<T> { queue: Seq::empty(), sender_live: old(self)@.sender_live, receiver_live: false }),
    {
        self.items.clear();
        self.receiver_open = false;
        proof {
            assert(self@ =~= ChannelView::<T> { queue: Seq::empty(), sender_live: old(self)@.sender_live, receiver_live: false });
        }
    }

    /// How many items are pending.
    pub fn len(&self) -> (n: usize)
        ensures
            n == self@.queue.len(),
    {
        self.items.len()
    }
}

} // verus!
