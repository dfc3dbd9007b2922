//! A bounded FIFO message queue built on a `tokio` mpsc channel.
//!
//! The queue owns both channel endpoints, so the coordinator enqueues
//! without blocking (`try_send`) and a worker drains without blocking
//! (`try_recv`); app-level code shares it behind a lock. Verus cannot look
//! inside the channel, so the queue's contents and bound are modelled by the
//! uninterpreted functions [`queue_contents`] and [`queue_bound`], and each
//! method states over that model what tokio's documentation and source
//! promise.
use vstd::prelude::*;
use crate::message::VehicleMessage;

verus! {

/// A bounded FIFO queue of messages.
#[verifier::external_body]
pub struct BoundedQueue {
    tx: tokio::sync::mpsc::Sender<VehicleMessage>,
    rx: tokio::sync::mpsc::Receiver<VehicleMessage>,
}

/// The messages in the queue, oldest first.
pub uninterp spec fn queue_contents(q: BoundedQueue) -> Seq<VehicleMessage>;

/// The capacity the queue was created with.
pub uninterp spec fn queue_bound(q: BoundedQueue) -> usize;

impl BoundedQueue {
    /// Relies on tokio::sync::mpsc::channel: a fresh channel is empty and
    /// holds at most `capacity` messages. tokio panics on a zero capacity,
    /// so that input is excluded.
    #[verifier::external_body]
    pub(crate) fn new(capacity: usize) -> (q: Self)
        requires
            capacity >= 1,
        ensures
            queue_contents(q) == Seq::<VehicleMessage>::empty(),
            queue_bound(q) == capacity,
    {
        let (tx, rx) = tokio::sync::mpsc::channel(capacity);
        BoundedQueue { tx, rx }
    }

    /// Relies on tokio Sender::try_send: with the receiver half alive, the
    /// send succeeds exactly when a buffer slot is free, and a successful
    /// send appends the message.
    #[verifier::external_body]
    pub(crate) fn try_send(&mut self, m: VehicleMessage) -> (ok: bool)
        ensures
            queue_bound(*final(self)) == queue_bound(*old(self)),
            queue_contents(*old(self)).len() < queue_bound(*old(self)) ==> ok
                && queue_contents(*final(self)) == queue_contents(*old(self)).push(m),
            queue_contents(*old(self)).len() >= queue_bound(*old(self)) ==> !ok
                && queue_contents(*final(self)) == queue_contents(*old(self)),
    {
        self.tx.try_send(m).is_ok()
    }

    /// Relies on tokio Receiver::try_recv: messages come out in the order
    /// they were sent; an empty channel yields nothing.
    #[verifier::external_body]
    pub(crate) fn try_recv(&mut self) -> (r: Option<VehicleMessage>)
        ensures
            queue_bound(*final(self)) == queue_bound(*old(self)),
            queue_contents(*old(self)).len() > 0 ==> r == Some(
                queue_contents(*old(self))[0],
            ) && queue_contents(*final(self)) == queue_contents(*old(self)).drop_first(),
            queue_contents(*old(self)).len() == 0 ==> r is None && queue_contents(
                *final(self),
            ) == queue_contents(*old(self)),
    {
        self.rx.try_recv().ok()
    }

    /// Relies on tokio Receiver::len: the number of buffered messages.
    #[verifier::external_body]
    pub(crate) fn len(&self) -> (n: usize)
        ensures
            n == queue_contents(*self).len(),
    {
        self.rx.len()
    }
}

} // verus!
