//! Callback envelopes: one pending request to call into the interpreter.

use crate::handle::{Guid, Handle};
use crate::queue::HandoffQueue;
use crate::reply::{reply_channel, ReplyReceiver, ReplySender};
use vstd::prelude::*;

verus! {

/// The timing of a beat on an event's timeline. The tempo is carried as the
/// bit pattern of the engine's 32-bit float.
#[derive(Clone, Copy, Debug, PartialEq, Eq)]
pub struct TimelineBeatProperties {
    pub bar: i32,
    pub beat: i32,
    pub position: i32,
    pub tempo_bits: u32,
    pub timesignatureupper: i32,
    pub timesignaturelower: i32,
}

/// What the engine hands over with an event callback, by the kind of event.
#[derive(Debug, PartialEq, Eq)]
pub enum EventCallbackParameterType {
    /// The timeline passed a named marker.
    TimelineMarker { name: String, position: i32 },
    /// The timeline passed a beat.
    TimelineBeat(TimelineBeatProperties),
    /// A start-event command created the given instance.
    EventInstance(Handle),
    /// A nested timeline, belonging to the event with the given id, passed a beat.
    TimelineNested { eventid: Guid, properties: TimelineBeatProperties },
    /// The event carries nothing.
    Nothing,
}

/// The type of an event callback, under the name the engine gives it. Types
/// the bridge has no name for are `Other`.
#[derive(Clone, Copy, Debug, PartialEq, Eq)]
pub enum EventCallbackType {
    Created,
    Starting,
    Started,
    Restarted,
    Stopped,
    StartFailed,
    RealToVirtual,
    VirtualToReal,
    TimelineMarker,
    TimelineBeat,
    StartEventCommand,
    NestedTimelineBeat,
    Other,
}

/// The shape of what the engine hands over with an event callback.
#[derive(Clone, Copy, Debug, PartialEq, Eq)]
pub enum EventCallbackData {
    /// Nothing to read.
    Nothing,
    /// The properties of a timeline marker.
    TimelineMarker,
    /// The properties of a timeline beat.
    TimelineBeat,
    /// An event instance.
    EventInstance,
    /// The properties of a beat on a nested timeline.
    TimelineNested,
}

/// What the engine hands over with an event callback of type `kind`, or
/// nothing where the bridge cannot wrap what that type carries. The eight types
/// that report a stage in the life of an instance carry nothing; a marker, a
/// beat, a start-event command and a nested beat carry their data.
pub open spec fn carried_data(kind: EventCallbackType) -> Option<EventCallbackData> {
    match kind {
        EventCallbackType::Created
        | EventCallbackType::Starting
        | EventCallbackType::Started
        | EventCallbackType::Restarted
        | EventCallbackType::Stopped
        | EventCallbackType::StartFailed
        | EventCallbackType::RealToVirtual
        | EventCallbackType::VirtualToReal => Some(EventCallbackData::Nothing),
        EventCallbackType::TimelineMarker => Some(EventCallbackData::TimelineMarker),
        EventCallbackType::TimelineBeat => Some(EventCallbackData::TimelineBeat),
        EventCallbackType::StartEventCommand => Some(EventCallbackData::EventInstance),
        EventCallbackType::NestedTimelineBeat => Some(EventCallbackData::TimelineNested),
        EventCallbackType::Other => None,
    }
}

impl EventCallbackType {
    /// Says how to read what the engine hands over with a callback of this
    /// type, or `None` where the type is not supported.
    pub fn data(self) -> (data: Option<EventCallbackData>)
        ensures
            data == carried_data(self),
    {
        match self {
            EventCallbackType::Created
            | EventCallbackType::Starting
            | EventCallbackType::Started
            | EventCallbackType::Restarted
            | EventCallbackType::Stopped
            | EventCallbackType::StartFailed
            | EventCallbackType::RealToVirtual
            | EventCallbackType::VirtualToReal => Some(EventCallbackData::Nothing),
            EventCallbackType::TimelineMarker => Some(EventCallbackData::TimelineMarker),
            EventCallbackType::TimelineBeat => Some(EventCallbackData::TimelineBeat),
            EventCallbackType::StartEventCommand => Some(EventCallbackData::EventInstance),
            EventCallbackType::NestedTimelineBeat => Some(EventCallbackData::TimelineNested),
            EventCallbackType::Other => None,
        }
    }
}

/// What the engine hands over with a command-replay callback, by the kind of
/// callback. The time of a frame is carried as the bit pattern of the engine's
/// 32-bit float.
#[derive(Debug, PartialEq, Eq)]
pub enum CommandCallbackType {
    /// The replay is about to create an instance of `description`.
    Instance { replay: Handle, commandindex: i32, description: Handle },
    /// The replay reached a frame.
    Frame { replay: Handle, commandindex: i32, time_bits: u32 },
    /// The replay is about to load a bank.
    Bank {
        replay: Handle,
        commandindex: i32,
        guid: Option<Guid>,
        bankfilename: Option<String>,
        flags: u32,
    },
}

/// A callback of a studio system, waiting to be answered. `user_data` is the
/// slot value of the sidecar that holds the callable.
#[derive(Debug)]
pub struct StudioSystemCallback {
    pub system: Handle,
    pub type_: u32,
    pub data: Option<Handle>,
    pub user_data: usize,
    pub sender: ReplySender,
}

/// A callback of an event instance, waiting to be answered. `user_data` is
/// the slot value of the sidecar that holds the callable.
#[derive(Debug)]
pub struct EventCallback {
    pub event: Handle,
    pub type_: u32,
    pub parameter: EventCallbackParameterType,
    pub user_data: usize,
    pub sender: ReplySender,
}

/// A callback of a command replay, waiting to be answered. `userdata` is the
/// slot value of the sidecar that holds the callable.
#[derive(Debug)]
pub struct CommandReplayCallback {
    pub type_: CommandCallbackType,
    pub userdata: usize,
    pub sender: ReplySender,
}

/// One unit of pending work for the interpreter, by the kind of native object
/// that raised it.
#[derive(Debug)]
pub enum Envelope {
    System(StudioSystemCallback),
    Event(EventCallback),
    CommandReplay(CommandReplayCallback),
}

/// `after` is the queue `before` with one envelope put behind it: that of a
/// studio system's callback with the given contents, to be answered on the
/// reply channel that `receiver` is the other end of.
pub open spec fn system_enqueued(
    before: Seq<Option<Envelope>>,
    after: Seq<Option<Envelope>>,
    system: Handle,
    type_: u32,
    data: Option<Handle>,
    user_data: usize,
    receiver: ReplyReceiver,
) -> bool {
    &&& after == before.push(after.last())
    &&& after.last() matches Some(Envelope::System(c)) && c.system == system && c.type_ == type_
        && c.data == data && c.user_data == user_data && c.sender.carries() == receiver.carries()
}

/// `after` is the queue `before` with one envelope put behind it: that of an
/// event instance's callback with the given contents, to be answered on the
/// reply channel that `receiver` is the other end of.
pub open spec fn event_enqueued(
    before: Seq<Option<Envelope>>,
    after: Seq<Option<Envelope>>,
    event: Handle,
    type_: u32,
    parameter: EventCallbackParameterType,
    user_data: usize,
    receiver: ReplyReceiver,
) -> bool {
    &&& after == before.push(after.last())
    &&& after.last() matches Some(Envelope::Event(c)) && c.event == event && c.type_ == type_
        && c.parameter == parameter && c.user_data == user_data && c.sender.carries()
        == receiver.carries()
}

/// `after` is the queue `before` with one envelope put behind it: that of a
/// command replay's callback with the given contents, to be answered on the
/// reply channel that `receiver` is the other end of.
pub open spec fn command_enqueued(
    before: Seq<Option<Envelope>>,
    after: Seq<Option<Envelope>>,
    type_: CommandCallbackType,
    userdata: usize,
    receiver: ReplyReceiver,
) -> bool {
    &&& after == before.push(after.last())
    &&& after.last() matches Some(Envelope::CommandReplay(c)) && c.type_ == type_ && c.userdata
        == userdata && c.sender.carries() == receiver.carries()
}

/// Hands a callback over to the dispatcher: puts it behind everything that
/// waits in the hand-off queue. What waits keeps its place.
pub fn add_callback(queue: &mut HandoffQueue, callback: Envelope)
    ensures
        final(queue)@ == old(queue)@.push(Some(callback)),
{
    queue.enqueue(callback);
}

impl StudioSystemCallback {
    /// Records that a studio system raised a callback: puts the envelope at the
    /// back of the hand-off queue and returns the end of a fresh reply channel
    /// on which the native thread waits for the answer.
    pub fn create(
        queue: &mut HandoffQueue,
        system: Handle,
        type_: u32,
        data: Option<Handle>,
        user_data: usize,
    ) -> (receiver: ReplyReceiver)
        ensures
            system_enqueued(old(queue)@, final(queue)@, system, type_, data, user_data, receiver),
    {
        let (sender, receiver) = reply_channel();
        let callback = StudioSystemCallback { system, type_, data, user_data, sender };
        add_callback(queue, Envelope::System(callback));
        receiver
    }
}

impl EventCallback {
    /// Records that an event instance raised a callback: puts the envelope at
    /// the back of the hand-off queue and returns the end of a fresh reply
    /// channel on which the native thread waits for the answer.
    pub fn create(
        queue: &mut HandoffQueue,
        event: Handle,
        type_: u32,
        parameter: EventCallbackParameterType,
        user_data: usize,
    ) -> (receiver: ReplyReceiver)
        ensures
            event_enqueued(old(queue)@, final(queue)@, event, type_, parameter, user_data, receiver),
    {
        let (sender, receiver) = reply_channel();
        let callback = EventCallback { event, type_, parameter, user_data, sender };
        add_callback(queue, Envelope::Event(callback));
        receiver
    }
}

impl CommandReplayCallback {
    /// Records that a command replay raised a callback: puts the envelope at
    /// the back of the hand-off queue and returns the end of a fresh reply
    /// channel on which the native thread waits for the answer.
    pub fn create(
        queue: &mut HandoffQueue,
        type_: CommandCallbackType,
        userdata: usize,
    ) -> (receiver: ReplyReceiver)
        ensures
            command_enqueued(old(queue)@, final(queue)@, type_, userdata, receiver),
    {
        let (sender, receiver) = reply_channel();
        let callback = CommandReplayCallback { type_, userdata, sender };
        add_callback(queue, Envelope::CommandReplay(callback));
        receiver
    }
}

} // verus!
