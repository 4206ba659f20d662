//! What a native thread does when the engine calls back: wrap the arguments
//! into an envelope, hand it over, and wait for the reply.
//!
//! The functions the engine itself calls have the engine's signatures and
//! belong to the embedding program. They read the raw arguments, call the
//! function of the same name here while they hold the queue, let go of the
//! queue, and then wait with `wait`.

use crate::envelope::{
    command_enqueued, event_enqueued, system_enqueued, CommandCallbackType, CommandReplayCallback,
    EventCallback, EventCallbackParameterType, StudioSystemCallback,
};
use crate::handle::{Guid, Handle};
use crate::queue::HandoffQueue;
use crate::reply::{fallback, or_fallback, Reply, ReplyReceiver, FALLBACK_RESULT};
use crate::sidecar::{answering_slot, Arena, EventUserData};
use vstd::prelude::*;

verus! {

/// Where a native thread stands after it raised a callback.
#[derive(Debug)]
pub enum Raised {
    /// The envelope is on the queue; the reply will come through the receiver.
    Waiting(ReplyReceiver),
    /// Nothing was enqueued; this is the reply.
    Answered(Reply),
}

/// An event instance called back. The record that answers is the instance's
/// own or else its description's; where neither has one, no callable can be
/// registered, nothing is enqueued and the answer is the fallback.
pub fn event_callback(
    queue: &mut HandoffQueue,
    events: &Arena<EventUserData>,
    type_: u32,
    instance: Handle,
    parameter: EventCallbackParameterType,
    slot: usize,
    parent: usize,
) -> (raised: Raised)
    ensures
        answering_slot(events@, slot, parent) == 0 ==> raised == Raised::Answered(fallback())
            && final(queue)@ == old(queue)@,
        answering_slot(events@, slot, parent) != 0 ==> raised is Waiting && event_enqueued(
            old(queue)@,
            final(queue)@,
            instance,
            type_,
            parameter,
            answering_slot(events@, slot, parent),
            raised->Waiting_0,
        ),
{
    let user_data = events.answering(slot, parent);
    if user_data == 0 {
        Raised::Answered(Reply { result: FALLBACK_RESULT, object: None })
    } else {
        Raised::Waiting(EventCallback::create(queue, instance, type_, parameter, user_data))
    }
}

/// A studio system called back. The engine hands over the bank the callback
/// is about, or nothing, and the slot value registered with the callback.
pub fn system_callback(
    queue: &mut HandoffQueue,
    system: Handle,
    type_: u32,
    data: Option<Handle>,
    userdata: usize,
) -> (receiver: ReplyReceiver)
    ensures
        system_enqueued(old(queue)@, final(queue)@, system, type_, data, userdata, receiver),
{
    StudioSystemCallback::create(queue, system, type_, data, userdata)
}

/// A command replay is about to create an instance of `description`.
pub fn create_instance_callback(
    queue: &mut HandoffQueue,
    replay: Handle,
    commandindex: i32,
    description: Handle,
    userdata: usize,
) -> (receiver: ReplyReceiver)
    ensures
        command_enqueued(
            old(queue)@,
            final(queue)@,
            CommandCallbackType::Instance { replay, commandindex, description },
            userdata,
            receiver,
        ),
{
    CommandReplayCallback::create(
        queue,
        CommandCallbackType::Instance { replay, commandindex, description },
        userdata,
    )
}

/// A command replay reached a frame.
pub fn frame_callback(
    queue: &mut HandoffQueue,
    replay: Handle,
    commandindex: i32,
    time_bits: u32,
    userdata: usize,
) -> (receiver: ReplyReceiver)
    ensures
        command_enqueued(
            old(queue)@,
            final(queue)@,
            CommandCallbackType::Frame { replay, commandindex, time_bits },
            userdata,
            receiver,
        ),
{
    CommandReplayCallback::create(
        queue,
        CommandCallbackType::Frame { replay, commandindex, time_bits },
        userdata,
    )
}

/// A command replay is about to load a bank. The engine may leave out the
/// bank's id and its file name.
pub fn load_bank_callback(
    queue: &mut HandoffQueue,
    replay: Handle,
    commandindex: i32,
    guid: Option<Guid>,
    bankfilename: Option<String>,
    flags: u32,
    userdata: usize,
) -> (receiver: ReplyReceiver)
    ensures
        command_enqueued(
            old(queue)@,
            final(queue)@,
            CommandCallbackType::Bank { replay, commandindex, guid, bankfilename, flags },
            userdata,
            receiver,
        ),
{
    CommandReplayCallback::create(
        queue,
        CommandCallbackType::Bank { replay, commandindex, guid, bankfilename, flags },
        userdata,
    )
}

/// Blocks the native thread until its callback is answered, and returns the
/// reply it proceeds with. A thread that was answered on the spot does not
/// wait.
pub fn wait(raised: Raised) -> (reply: Reply)
    ensures
        reply == match raised {
            Raised::Waiting(receiver) => or_fallback(receiver.carries()),
            Raised::Answered(r) => r,
        },
{
    match raised {
        Raised::Waiting(receiver) => receiver.recv(),
        Raised::Answered(reply) => reply,
    }
}

} // verus!
