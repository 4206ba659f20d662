//! The hand-off queue between the native threads and the dispatcher.

use crate::channel::{channel_send, channel_try_recv, joined, queued, unbounded_channel};
use crate::envelope::Envelope;
use crossbeam_channel::{Receiver, Sender};
use vstd::prelude::*;

verus! {

/// An unbounded first-in-first-out queue of envelopes, with a sentinel that
/// tells the dispatcher to stop.
///
/// The queue owns both ends of its channel and never gives one away. Every
/// operation that changes it takes the queue exclusively; threads that share a
/// queue do so behind a lock.
pub struct HandoffQueue {
    tx: Sender<Option<Envelope>>,
    rx: Receiver<Option<Envelope>>,
}

impl HandoffQueue {
    #[verifier::type_invariant]
    spec fn connected(self) -> bool {
        joined(self.tx, self.rx)
    }

    /// What waits in the queue, oldest first. `None` is the shutdown sentinel.
    pub closed spec fn view(&self) -> Seq<Option<Envelope>> {
        queued(self.rx)
    }

    /// An empty queue.
    pub fn new() -> (queue: Self)
        ensures
            queue@ == Seq::<Option<Envelope>>::empty(),
    {
        let (tx, rx) = unbounded_channel();
        HandoffQueue { tx, rx }
    }

    /// Puts `envelope` behind everything that waits.
    pub fn enqueue(&mut self, envelope: Envelope)
        ensures
            final(self)@ == old(self)@.push(Some(envelope)),
    {
        proof {
            use_type_invariant(&*self);
        }
        channel_send(&self.tx, &mut self.rx, Some(envelope));
    }

    /// Puts the shutdown sentinel behind everything that waits.
    pub fn shutdown(&mut self)
        ensures
            final(self)@ == old(self)@.push(None),
    {
        proof {
            use_type_invariant(&*self);
        }
        channel_send(&self.tx, &mut self.rx, None);
    }

    /// Takes the oldest message off the queue, if one waits: an envelope, or
    /// the sentinel as `Some(None)`. The call does not wait; an empty queue is
    /// answered with `None` and it is the caller's part to come back.
    pub fn dequeue(&mut self) -> (message: Option<Option<Envelope>>)
        ensures
            match message {
                Some(m) => {
                    &&& old(self)@.len() > 0
                    &&& m == old(self)@.first()
                    &&& final(self)@ == old(self)@.drop_first()
                },
                None => old(self)@.len() == 0 && final(self)@ == old(self)@,
            },
    {
        proof {
            use_type_invariant(&*self);
        }
        channel_try_recv(&self.tx, &mut self.rx)
    }
}

} // verus!
