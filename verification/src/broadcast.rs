use vstd::prelude::*;

use crate::channel::{channel_send, unbounded_channel};

verus! {

/// The error of a delivery that failed because the subscriber's receiving
/// end was dropped; it carries the undelivered clone of the message.
#[derive(Debug)]
pub struct SendError<T>(pub T);

/// A registry of outbound channels: every `subscribe` adds one, and `send`
/// delivers a clone of the message to each of them, in subscription order.
#[verifier::reject_recursive_types(T)]
pub struct Broadcast<T> {
    channels: Vec<crossbeam_channel::Sender<T>>,
}

impl<T: 'static + Clone + Send + Sync> Broadcast<T> {
    /// The sending halves of the subscribers' channels, oldest first; a
    /// subscription is never dropped for the broadcast's lifetime.
    pub closed spec fn senders(self) -> Seq<crossbeam_channel::Sender<T>> {
        self.channels@
    }

    /// How many subscribers have been registered.
    pub open spec fn subscriber_count(self) -> nat {
        self.senders().len()
    }

    /// A broadcast with no subscribers.
    pub fn new() -> (b: Self)
        ensures
            b.subscriber_count() == 0,
    {
        Self { channels: Vec::new() }
    }

    /// Registers a new subscriber: stores the sending half of a fresh
    /// unbounded channel after all earlier ones and hands back the receiving
    /// half, which the caller alone owns.
    pub fn subscribe(&mut self) -> (rx: crossbeam_channel::Receiver<T>)
        ensures
            final(self).subscriber_count() == old(self).subscriber_count() + 1,
            final(self).senders().drop_last() == old(self).senders(),
    {
        let (tx, rx) = unbounded_channel();
        self.channels.push(tx);
        proof {
            assert(self.channels@.drop_last() =~= old(self).channels@);
        }
        rx
    }

    /// Clones the message to every subscriber in subscription order. The
    /// send fails fast: it stops at the first subscriber whose receiving end
    /// was dropped and hands that subscriber's undelivered clone back, so
    /// later subscribers see nothing of this message. With no subscribers
    /// there is nothing to deliver and the send succeeds.
    pub fn send(&self, message: T) -> (r: Result<(), SendError<T>>)
        ensures
            self.subscriber_count() == 0 ==> r is Ok,
            r matches Err(e) ==> self.subscriber_count() > 0,
    {
        let mut idx: usize = 0;
        while idx < self.channels.len()
            invariant
                idx <= self.channels@.len(),
            decreases self.channels@.len() - idx,
        {
            match channel_send(&self.channels[idx], message.clone()) {
                Ok(()) => {},
                Err(m) => {
                    return Err(SendError(m));
                },
            }
            idx = idx + 1;
        }
        Ok(())
    }
}

impl<T: 'static + Clone + Send + Sync> Default for Broadcast<T> {
    /// The same as [`Broadcast::new`]: a broadcast with no subscribers.
    fn default() -> (b: Self)
        ensures
            b.subscriber_count() == 0,
    {
        Self::new()
    }
}

} // verus!
