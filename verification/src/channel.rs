//! The channels of `crossbeam_channel` as the bridge uses them.
//!
//! Nothing in this file is proved. The contracts below say what the channel's
//! functions do, and every proof about the hand-off queue rests on them.
//!
//! The hand-off channel is described by what it holds. That description is
//! sound only while nobody else can reach the channel between two calls, so the
//! functions that change it ask for both ends: the exclusive borrow of the
//! receiving end together with `joined` shows that the caller owns the whole
//! channel. `HandoffQueue` is the one place where such a pair lives.
//!
//! The reply channel is crossed by two threads, one at each end, and each end
//! is used once: the functions below take the end they work on by value. Such
//! a channel is described by the one reply that its receiving end takes out of
//! it, if it takes one. Neither thread can tell beforehand what that will be.
//! What is claimed is only how the two ends agree: a reply that was placed is
//! the reply that is taken, and where none could be placed none is taken.

use crate::envelope::Envelope;
use crate::reply::Reply;
use crossbeam_channel::{Receiver, Sender};
use vstd::prelude::*;

verus! {

#[verifier::external_type_specification]
#[verifier::external_body]
#[verifier::reject_recursive_types(T)]
pub struct ExSender<T>(Sender<T>);

#[verifier::external_type_specification]
#[verifier::external_body]
#[verifier::reject_recursive_types(T)]
pub struct ExReceiver<T>(Receiver<T>);

/// The messages waiting in the hand-off channel whose receiving end is `rx`,
/// oldest first. `None` is the shutdown sentinel.
pub uninterp spec fn queued(rx: Receiver<Option<Envelope>>) -> Seq<Option<Envelope>>;

/// `tx` and `rx` are the two ends of one hand-off channel, and that channel
/// has no other end.
pub uninterp spec fn joined(tx: Sender<Option<Envelope>>, rx: Receiver<Option<Envelope>>) -> bool;

/// What the receiving end `rx` of a reply channel takes out of it: the reply,
/// or nothing where every sending end went away without placing one.
pub uninterp spec fn taken(rx: Receiver<Reply>) -> Option<Reply>;

/// What the receiving end of the reply channel takes that `tx` sends into.
pub uninterp spec fn passed(tx: Sender<Reply>) -> Option<Reply>;

/// `crossbeam_channel::unbounded`: makes a channel without a limit and
/// returns its two ends. The channel is empty and has no other end.
#[verifier::external_body]
pub(crate) fn unbounded_channel() -> (ends: (Sender<Option<Envelope>>, Receiver<Option<Envelope>>))
    ensures
        joined(ends.0, ends.1),
        queued(ends.1) == Seq::<Option<Envelope>>::empty(),
{
    crossbeam_channel::unbounded()
}

/// `Sender::send` on a channel without a limit: the message is put behind all
/// that wait. On such a channel the call never waits, and it fails only when
/// every receiving end is gone, which cannot be while the caller holds one. It
/// does not panic.
#[verifier::external_body]
pub(crate) fn channel_send(
    tx: &Sender<Option<Envelope>>,
    rx: &mut Receiver<Option<Envelope>>,
    message: Option<Envelope>,
)
    requires
        joined(*tx, *old(rx)),
    ensures
        joined(*tx, *final(rx)),
        queued(*final(rx)) == queued(*old(rx)).push(message),
    no_unwind
{
    let _ = tx.send(message);
}

/// `Receiver::try_recv`: takes the oldest waiting message out of the channel,
/// or returns at once with nothing when none waits. It does not panic.
#[verifier::external_body]
pub(crate) fn channel_try_recv(
    tx: &Sender<Option<Envelope>>,
    rx: &mut Receiver<Option<Envelope>>,
) -> (message: Option<Option<Envelope>>)
    requires
        joined(*tx, *old(rx)),
    ensures
        joined(*tx, *final(rx)),
        match message {
            Some(m) => queued(*old(rx)).len() > 0 && m == queued(*old(rx)).first()
                && queued(*final(rx)) == queued(*old(rx)).drop_first(),
            None => queued(*old(rx)).len() == 0 && queued(*final(rx)) == queued(*old(rx)),
        },
    no_unwind
{
    match rx.try_recv() {
        Ok(m) => Some(m),
        Err(_) => None,
    }
}

/// `crossbeam_channel::bounded`: makes a channel with room for `capacity`
/// messages and returns its two ends. What goes in at one end is what comes
/// out at the other.
#[verifier::external_body]
pub(crate) fn bounded_channel(capacity: usize) -> (ends: (Sender<Reply>, Receiver<Reply>))
    requires
        capacity == 1,
    ensures
        passed(ends.0) == taken(ends.1),
{
    crossbeam_channel::bounded(capacity)
}

/// `Sender::try_send`, on a sending end that is given up with the call: places
/// the reply if the channel has room and a receiving end, and says whether it
/// did. It never waits. A reply that was placed is what the receiving end
/// takes. The channel has room, since this end is the only one that sends and
/// has not sent before; so the reply is not placed only where the receiving end
/// is gone, and then nothing is ever taken. Whether a receiving end is left is
/// up to another thread, so success is not promised.
#[verifier::external_body]
pub(crate) fn channel_try_send(tx: Sender<Reply>, reply: Reply) -> (placed: bool)
    ensures
        placed ==> passed(tx) == Some(reply),
        !placed ==> passed(tx) is None,
{
    tx.try_send(reply).is_ok()
}

/// `Receiver::recv`, on a receiving end that is given up with the call: waits
/// until a reply arrives or every sending end is gone, and returns the reply or
/// nothing. This is the one taking that `taken` speaks of.
#[verifier::external_body]
pub(crate) fn channel_recv(rx: Receiver<Reply>) -> (reply: Option<Reply>)
    ensures
        reply == taken(rx),
{
    match rx.recv() {
        Ok(r) => Some(r),
        Err(_) => None,
    }
}

} // verus!
