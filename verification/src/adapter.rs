//! The interpreter adapter: what to call for an envelope, with which
//! arguments, and what the native thread is told about the outcome.
//!
//! The call into the interpreter itself is made by the embedding program. It
//! hands an envelope to `call`, which either names the callable and its
//! arguments or, where nothing is registered, answers the native thread with
//! the fallback at once. After the interpreter ran, the program reports what
//! happened to `complete`, which sends the one reply.

use crate::envelope::{
    CommandCallbackType, CommandReplayCallback, Envelope, EventCallback, EventCallbackParameterType,
    StudioSystemCallback,
};
use crate::handle::{Guid, Handle, Value};
use crate::reply::{fallback, or_fallback, Reply, ReplyReceiver, ReplySender, FALLBACK_RESULT};
use crate::sidecar::{record, CommandUserData, EventUserData, Sidecars, StudioUserData};
use vstd::prelude::*;
use vstd::string::StringExecFns;

verus! {

/// One argument of a call into the interpreter. A native object is named by
/// its handle, under the kind of object it is. Floats travel as the bit pattern
/// of the engine's 32-bit float.
#[derive(Debug, PartialEq, Eq)]
pub enum Argument {
    System(Handle),
    Bank(Option<Handle>),
    EventInstance(Handle),
    EventDescription(Handle),
    CommandReplay(Handle),
    Unsigned(u32),
    Signed(i32),
    Float(u32),
    Text(Option<String>),
    Guid(Option<Guid>),
    Parameter(EventCallbackParameterType),
    Payload(Option<Value>),
}

/// A call the embedding program is to make: send `call` to `callback` with
/// `arguments`.
#[derive(Debug)]
pub struct Invocation {
    pub callback: Value,
    pub arguments: Vec<Argument>,
}

/// What the engine takes from a callable besides the result code.
#[derive(Clone, Copy, Debug, PartialEq, Eq)]
pub enum Takes {
    /// Only the result code.
    Nothing,
    /// The event instance the callable created.
    EventInstance,
    /// The bank the callable loaded.
    Bank,
}

/// An envelope whose call is under way: what is left of it is the way back.
#[derive(Debug)]
pub struct Pending {
    pub sender: ReplySender,
    /// What the engine takes from the callable besides the result code.
    pub takes: Takes,
}

/// What the interpreter did with a call.
#[derive(Debug)]
pub enum Outcome {
    /// The callable returned.
    Returned { result: i32, object: Option<Handle> },
    /// The callable raised, or what it returned could not be read as a result.
    Raised { message: String },
}

/// What became of an envelope.
#[derive(Debug)]
pub struct Completion {
    /// The reply that was sent to the native thread.
    pub reply: Reply,
    /// Whether the native thread was still there to take it.
    pub delivered: bool,
    /// The diagnostic to show when the callable failed.
    pub warning: Option<String>,
}

/// What the adapter made of an envelope.
#[derive(Debug)]
pub enum Opened {
    /// The interpreter is to be called; `pending` is completed afterwards.
    Call { invocation: Invocation, pending: Pending },
    /// No callable is registered; the native thread has its answer already.
    Answered(Completion),
}

/// The reply to a native thread for an outcome. A callable that returned
/// decides the result code, and the object where the engine takes one; a
/// callable that raised is never the engine's problem: the reply is the
/// fallback.
pub open spec fn reply_for(takes: Takes, outcome: Outcome) -> Reply {
    match outcome {
        Outcome::Returned { result, object } => Reply {
            result,
            object: if takes is Nothing {
                None
            } else {
                object
            },
        },
        Outcome::Raised { message } => fallback(),
    }
}

/// The text in front of the message of a failed callable.
pub open spec fn warning_prefix() -> Seq<char> {
    "WARNING RUBY ERROR IN CALLBACK: "@
}

/// The diagnostic for an outcome: none for a callable that returned, the
/// prefixed message for one that raised.
pub open spec fn warning_for(outcome: Outcome) -> Option<Seq<char>> {
    match outcome {
        Outcome::Returned { result, object } => None,
        Outcome::Raised { message } => Some(warning_prefix() + message@),
    }
}

/// The view of an optional text.
pub open spec fn text_of(warning: Option<String>) -> Option<Seq<char>> {
    match warning {
        Some(w) => Some(w@),
        None => None,
    }
}

/// The arguments of the call for a studio system's callback.
pub open spec fn studio_arguments(c: StudioSystemCallback, data: StudioUserData) -> Seq<Argument> {
    seq![
        Argument::System(c.system),
        Argument::Unsigned(c.type_),
        Argument::Bank(c.data),
        Argument::Payload(data.userdata),
    ]
}

/// The arguments of the call for an event instance's callback.
pub open spec fn event_arguments(c: EventCallback) -> Seq<Argument> {
    seq![Argument::EventInstance(c.event), Argument::Unsigned(c.type_), Argument::Parameter(c.parameter)]
}

/// The arguments of the call for a command replay's callback.
pub open spec fn command_arguments(c: CommandReplayCallback, data: CommandUserData) -> Seq<Argument> {
    match c.type_ {
        CommandCallbackType::Instance { replay, commandindex, description } => seq![
            Argument::CommandReplay(replay),
            Argument::Signed(commandindex),
            Argument::EventDescription(description),
            Argument::Payload(data.userdata),
        ],
        CommandCallbackType::Frame { replay, commandindex, time_bits } => seq![
            Argument::CommandReplay(replay),
            Argument::Signed(commandindex),
            Argument::Float(time_bits),
            Argument::Payload(data.userdata),
        ],
        CommandCallbackType::Bank { replay, commandindex, guid, bankfilename, flags } => seq![
            Argument::CommandReplay(replay),
            Argument::Signed(commandindex),
            Argument::Guid(guid),
            Argument::Text(bankfilename),
            Argument::Unsigned(flags),
            Argument::Payload(data.userdata),
        ],
    }
}

/// What the engine takes from the callable of a command replay callback of
/// this kind: the instance it created, or the bank it loaded. A frame has
/// nothing to take.
pub open spec fn command_takes(kind: CommandCallbackType) -> Takes {
    match kind {
        CommandCallbackType::Instance { .. } => Takes::EventInstance,
        CommandCallbackType::Frame { .. } => Takes::Nothing,
        CommandCallbackType::Bank { .. } => Takes::Bank,
    }
}

/// The callable that answers a command replay callback of this kind: the one
/// registered for the creation of instances, for frames, or for the loading of
/// banks.
pub open spec fn command_callable(kind: CommandCallbackType, data: CommandUserData) -> Option<Value> {
    match kind {
        CommandCallbackType::Instance { .. } => data.create_instance,
        CommandCallbackType::Frame { .. } => data.frame,
        CommandCallbackType::Bank { .. } => data.bank,
    }
}

/// `opened` says that the native thread behind `sender` was answered with the
/// fallback, without a call and without a diagnostic: if the reply was
/// delivered, the fallback is what that thread takes from its channel, and if
/// not, it takes nothing.
pub open spec fn answered_with_fallback(opened: Opened, sender: ReplySender) -> bool {
    opened matches Opened::Answered(done) && done.reply == fallback() && done.warning is None
        && sender.carries() == (if done.delivered {
        Some(fallback())
    } else {
        None
    })
}

/// `opened` says that `callback` is to be called with `arguments` and that
/// the reply goes to `sender`.
pub open spec fn calls(
    opened: Opened,
    callback: Value,
    arguments: Seq<Argument>,
    sender: ReplySender,
    takes: Takes,
) -> bool {
    opened matches Opened::Call { invocation, pending } && invocation.callback == callback
        && invocation.arguments@ == arguments && pending.sender == sender && pending.takes
        == takes
}

/// What the adapter makes of a studio system's callback: a call of the
/// callable registered on the system, or the fallback where the slot names no
/// record or the record has no callable.
pub open spec fn studio_opened(
    c: StudioSystemCallback,
    cells: Seq<Option<StudioUserData>>,
    opened: Opened,
) -> bool {
    match record(cells, c.user_data) {
        Some(data) => match data.callback {
            Some(callback) => calls(opened, callback, studio_arguments(c, data), c.sender, Takes::Nothing),
            None => answered_with_fallback(opened, c.sender),
        },
        None => answered_with_fallback(opened, c.sender),
    }
}

/// What the adapter makes of an event instance's callback: a call of the
/// callable in the record the envelope names, or the fallback.
pub open spec fn event_opened(
    c: EventCallback,
    cells: Seq<Option<EventUserData>>,
    opened: Opened,
) -> bool {
    match record(cells, c.user_data) {
        Some(data) => match data.callback {
            Some(callback) => calls(opened, callback, event_arguments(c), c.sender, Takes::Nothing),
            None => answered_with_fallback(opened, c.sender),
        },
        None => answered_with_fallback(opened, c.sender),
    }
}

/// What the adapter makes of a command replay's callback: a call of the
/// callable registered for the kind of the callback, or the fallback where the
/// slot names no record or the record has no callable for that kind.
pub open spec fn command_opened(
    c: CommandReplayCallback,
    cells: Seq<Option<CommandUserData>>,
    opened: Opened,
) -> bool {
    match record(cells, c.userdata) {
        Some(data) => match command_callable(c.type_, data) {
            Some(callback) => calls(
                opened,
                callback,
                command_arguments(c, data),
                c.sender,
                command_takes(c.type_),
            ),
            None => answered_with_fallback(opened, c.sender),
        },
        None => answered_with_fallback(opened, c.sender),
    }
}

/// Answers a native thread for which no call is made.
fn answer_with_fallback(sender: ReplySender) -> (opened: Opened)
    ensures
        answered_with_fallback(opened, sender),
{
    let reply = Reply { result: FALLBACK_RESULT, object: None };
    let delivered = sender.send(reply);
    Opened::Answered(Completion { reply, delivered, warning: None })
}

impl StudioSystemCallback {
    /// Opens the envelope of a studio system's callback.
    pub fn call(self, sidecars: &Sidecars) -> (opened: Opened)
        ensures
            studio_opened(self, sidecars.studio@, opened),
    {
        let StudioSystemCallback { system, type_, data, user_data, sender } = self;
        let found = match sidecars.studio.get(user_data) {
            Some(record) => Some(*record),
            None => None,
        };
        match found {
            Some(StudioUserData { callback: Some(callback), userdata }) => {
                let mut arguments: Vec<Argument> = Vec::new();
                arguments.push(Argument::System(system));
                arguments.push(Argument::Unsigned(type_));
                arguments.push(Argument::Bank(data));
                arguments.push(Argument::Payload(userdata));
                proof {
                    assert(arguments@ =~= studio_arguments(self, found->0));
                }
                Opened::Call {
                    invocation: Invocation { callback, arguments },
                    pending: Pending { sender, takes: Takes::Nothing },
                }
            },
            _ => answer_with_fallback(sender),
        }
    }
}

impl EventCallback {
    /// Opens the envelope of an event instance's callback.
    pub fn call(self, sidecars: &Sidecars) -> (opened: Opened)
        ensures
            event_opened(self, sidecars.events@, opened),
    {
        let EventCallback { event, type_, parameter, user_data, sender } = self;
        let found = match sidecars.events.get(user_data) {
            Some(record) => Some(*record),
            None => None,
        };
        match found {
            Some(EventUserData { callback: Some(callback), userdata }) => {
                let mut arguments: Vec<Argument> = Vec::new();
                arguments.push(Argument::EventInstance(event));
                arguments.push(Argument::Unsigned(type_));
                arguments.push(Argument::Parameter(parameter));
                proof {
                    assert(arguments@ =~= event_arguments(self));
                }
                Opened::Call {
                    invocation: Invocation { callback, arguments },
                    pending: Pending { sender, takes: Takes::Nothing },
                }
            },
            _ => answer_with_fallback(sender),
        }
    }
}

impl CommandReplayCallback {
    /// Opens the envelope of a command replay's callback.
    pub fn call(self, sidecars: &Sidecars) -> (opened: Opened)
        ensures
            command_opened(self, sidecars.commands@, opened),
    {
        let CommandReplayCallback { type_, userdata, sender } = self;
        let found = match sidecars.commands.get(userdata) {
            Some(record) => Some(*record),
            None => None,
        };
        let data = match found {
            Some(data) => data,
            None => {
                return answer_with_fallback(sender);
            },
        };
        let registered = match &type_ {
            CommandCallbackType::Instance { .. } => data.create_instance,
            CommandCallbackType::Frame { .. } => data.frame,
            CommandCallbackType::Bank { .. } => data.bank,
        };
        let callback = match registered {
            Some(callback) => callback,
            None => {
                return answer_with_fallback(sender);
            },
        };
        let mut arguments: Vec<Argument> = Vec::new();
        let takes = match type_ {
            CommandCallbackType::Instance { replay, commandindex, description } => {
                arguments.push(Argument::CommandReplay(replay));
                arguments.push(Argument::Signed(commandindex));
                arguments.push(Argument::EventDescription(description));
                arguments.push(Argument::Payload(data.userdata));
                Takes::EventInstance
            },
            CommandCallbackType::Frame { replay, commandindex, time_bits } => {
                arguments.push(Argument::CommandReplay(replay));
                arguments.push(Argument::Signed(commandindex));
                arguments.push(Argument::Float(time_bits));
                arguments.push(Argument::Payload(data.userdata));
                Takes::Nothing
            },
            CommandCallbackType::Bank { replay, commandindex, guid, bankfilename, flags } => {
                arguments.push(Argument::CommandReplay(replay));
                arguments.push(Argument::Signed(commandindex));
                arguments.push(Argument::Guid(guid));
                arguments.push(Argument::Text(bankfilename));
                arguments.push(Argument::Unsigned(flags));
                arguments.push(Argument::Payload(data.userdata));
                Takes::Bank
            },
        };
        proof {
            assert(arguments@ =~= command_arguments(self, data));
        }
        Opened::Call { invocation: Invocation { callback, arguments }, pending: Pending { sender, takes } }
    }
}

impl Envelope {
    /// Opens the envelope: names the call to make, or answers the native
    /// thread with the fallback where no callable is registered.
    pub fn call(self, sidecars: &Sidecars) -> (opened: Opened)
        ensures
            match self {
                Envelope::System(c) => studio_opened(c, sidecars.studio@, opened),
                Envelope::Event(c) => event_opened(c, sidecars.events@, opened),
                Envelope::CommandReplay(c) => command_opened(c, sidecars.commands@, opened),
            },
    {
        match self {
            Envelope::System(c) => c.call(sidecars),
            Envelope::Event(c) => c.call(sidecars),
            Envelope::CommandReplay(c) => c.call(sidecars),
        }
    }
}

impl Pending {
    /// Closes a call: sends the native thread the one reply that the outcome
    /// comes to. A reply that was delivered is what the native thread takes from
    /// its channel; where the thread was gone, nothing is taken. A callable that
    /// raised costs the native thread nothing but the fallback; the diagnostic
    /// goes to whoever completes the call.
    pub fn complete(self, outcome: Outcome) -> (done: Completion)
        ensures
            done.reply == reply_for(self.takes, outcome),
            self.sender.carries() == if done.delivered {
                Some(done.reply)
            } else {
                None
            },
            outcome is Raised ==> or_fallback(self.sender.carries()) == fallback(),
            text_of(done.warning) == warning_for(outcome),
    {
        let Pending { sender, takes } = self;
        match outcome {
            Outcome::Returned { result, object } => {
                let reply = Reply {
                    result,
                    object: match takes {
                        Takes::Nothing => None,
                        _ => object,
                    },
                };
                let delivered = sender.send(reply);
                Completion { reply, delivered, warning: None }
            },
            Outcome::Raised { message } => {
                let reply = Reply { result: FALLBACK_RESULT, object: None };
                let delivered = sender.send(reply);
                let warning = String::from_str("WARNING RUBY ERROR IN CALLBACK: ").concat(
                    message.as_str(),
                );
                Completion { reply, delivered, warning: Some(warning) }
            },
        }
    }
}

/// One callback, one reply: when the sender in an envelope and the receiver
/// of a native thread are the two ends of one reply channel, and the call was
/// completed, then exactly one reply was handed to the channel, the one for the
/// outcome. If it was delivered, it is what the native thread proceeds with,
/// and nothing else can arrive in its place. If it was not, the channel carries
/// nothing at all.
pub proof fn lemma_thread_proceeds_with_the_reply(
    sender: ReplySender,
    receiver: ReplyReceiver,
    takes: Takes,
    outcome: Outcome,
    delivered: bool,
)
    requires
        sender.carries() == receiver.carries(),
        sender.carries() == (if delivered {
            Some(reply_for(takes, outcome))
        } else {
            None
        }),
    ensures
        delivered ==> or_fallback(receiver.carries()) == reply_for(takes, outcome),
        !delivered ==> receiver.carries() is None,
{
}

/// A callable that raises never reaches the engine: once the call was
/// completed, the native thread proceeds with the fallback, whether the reply
/// was delivered or not.
pub proof fn lemma_raising_callable_gives_fallback(
    sender: ReplySender,
    receiver: ReplyReceiver,
    takes: Takes,
    outcome: Outcome,
    delivered: bool,
)
    requires
        outcome is Raised,
        sender.carries() == receiver.carries(),
        sender.carries() == (if delivered {
            Some(reply_for(takes, outcome))
        } else {
            None
        }),
    ensures
        or_fallback(receiver.carries()) == fallback(),
{
}

} // verus!
