//! The reply channel: the one-shot path on which the answer to one callback
//! travels back to the native thread that raised it.

use crate::channel::{bounded_channel, channel_recv, channel_try_send, passed, taken};
use crate::handle::Handle;
use crossbeam_channel::{Receiver, Sender};
use vstd::prelude::*;

verus! {

/// What the native thread receives for one callback: the result code it hands
/// to the engine, and the native object the callable produced where the
/// callback asks for one.
#[derive(Clone, Copy, Debug, PartialEq, Eq)]
pub struct Reply {
    pub result: i32,
    pub object: Option<Handle>,
}

/// The result code that tells the engine to carry on as if no callable had
/// been registered.
pub const FALLBACK_RESULT: i32 = 0;

/// The reply a native thread gets when the interpreter gave no answer.
pub open spec fn fallback() -> Reply {
    Reply { result: FALLBACK_RESULT, object: None }
}

/// The end of a reply channel that travels with the envelope. Sending
/// consumes it, so one envelope can be answered at most once.
#[derive(Debug)]
pub struct ReplySender {
    tx: Sender<Reply>,
}

/// The end of a reply channel that stays with the native thread. Receiving
/// consumes it, so the channel is gone after the one read.
#[derive(Debug)]
pub struct ReplyReceiver {
    rx: Receiver<Reply>,
}

/// What the native thread proceeds with, given what its end of the reply
/// channel produced: the reply that arrived, or the fallback where the channel
/// closed without one.
pub open spec fn or_fallback(received: Option<Reply>) -> Reply {
    match received {
        Some(r) => r,
        None => fallback(),
    }
}

impl ReplySender {
    /// The reply that the native thread at the other end takes from the
    /// channel, or nothing where the channel closes without one. It is settled
    /// only when the channel has been used; until then the two ends just agree
    /// on it.
    pub closed spec fn carries(&self) -> Option<Reply> {
        passed(self.tx)
    }

    /// Hands `reply` to the waiting native thread. The answer is `false` when
    /// the reply could not be placed, which is the case when the native thread
    /// gave up its end. A reply that was placed is the one the native thread
    /// takes; where it could not be placed, nothing is taken from the channel.
    pub fn send(self, reply: Reply) -> (delivered: bool)
        ensures
            self.carries() == if delivered {
                Some(reply)
            } else {
                None
            },
    {
        channel_try_send(self.tx, reply)
    }
}

impl ReplyReceiver {
    /// The reply that this end takes from the channel, or nothing where the
    /// channel closes without one.
    pub closed spec fn carries(&self) -> Option<Reply> {
        taken(self.rx)
    }

    /// Waits for the reply to the callback this receiver was made for, and
    /// returns it, or nothing where the channel closed without one: the
    /// envelope was dropped unanswered.
    pub fn take(self) -> (received: Option<Reply>)
        ensures
            received == self.carries(),
    {
        channel_recv(self.rx)
    }

    /// Waits for the reply to the callback this receiver was made for. When the
    /// envelope was dropped without an answer, the reply is the fallback.
    pub fn recv(self) -> (reply: Reply)
        ensures
            reply == or_fallback(self.carries()),
    {
        reply_or_fallback(self.take())
    }
}

/// A fresh reply channel: room for exactly one reply, and two ends that agree
/// on what it carries.
pub fn reply_channel() -> (ends: (ReplySender, ReplyReceiver))
    ensures
        ends.0.carries() == ends.1.carries(),
{
    let (tx, rx) = bounded_channel(1);
    (ReplySender { tx }, ReplyReceiver { rx })
}

/// What the native thread proceeds with, given what its end of the reply
/// channel produced: the reply that arrived, or the fallback where the channel
/// closed without one.
pub fn reply_or_fallback(received: Option<Reply>) -> (reply: Reply)
    ensures
        reply == or_fallback(received),
{
    match received {
        Some(r) => r,
        None => Reply { result: FALLBACK_RESULT, object: None },
    }
}

} // verus!
