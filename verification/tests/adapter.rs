use fmod_bridge::adapter::{Argument, Opened, Outcome, Takes};
use fmod_bridge::dispatcher::{callback_thread, Dispatcher};
use fmod_bridge::error::FmodResult;
use fmod_bridge::envelope::{
    add_callback, CommandCallbackType, CommandReplayCallback, Envelope, EventCallback,
    EventCallbackData, EventCallbackParameterType, EventCallbackType, StudioSystemCallback,
    TimelineBeatProperties,
};
use fmod_bridge::handle::{Guid, Handle, Value};
use fmod_bridge::queue::HandoffQueue;
use fmod_bridge::reply::{reply_channel, reply_or_fallback, Reply, FALLBACK_RESULT};
use fmod_bridge::sidecar::Sidecars;
use fmod_bridge::trampoline::{
    create_instance_callback, event_callback, frame_callback, load_bank_callback, system_callback,
    wait, Raised,
};

#[test]
fn fallback_result_is_zero() {
    assert_eq!(FALLBACK_RESULT, 0);
    assert_eq!(reply_or_fallback(None), Reply { result: 0, object: None });
    let reply = Reply { result: -3, object: Some(Handle { raw: 8 }) };
    assert_eq!(reply_or_fallback(Some(reply)), reply);
}

#[test]
fn reply_travels_from_sender_to_receiver() {
    let (sender, receiver) = reply_channel();
    assert!(sender.send(Reply { result: 31, object: Some(Handle { raw: 4 }) }));
    assert_eq!(receiver.recv(), Reply { result: 31, object: Some(Handle { raw: 4 }) });
}

#[test]
fn receiver_gets_fallback_when_sender_is_dropped() {
    let (sender, receiver) = reply_channel();
    drop(sender);
    assert_eq!(receiver.recv(), Reply { result: 0, object: None });
}

#[test]
fn send_reports_a_receiver_that_is_gone() {
    let (sender, receiver) = reply_channel();
    drop(receiver);
    assert!(!sender.send(Reply { result: 1, object: None }));
}

#[test]
fn system_callback_is_called_with_system_type_bank_and_payload() {
    let mut queue = HandoffQueue::new();
    let mut sidecars = Sidecars::new();
    let slot = sidecars.studio.set_callback(0, Value { raw: 500 });
    sidecars.studio.set_user_data(slot, Some(Value { raw: 600 }));
    let receiver =
        system_callback(&mut queue, Handle { raw: 1 }, 0x4, Some(Handle { raw: 2 }), slot);
    let mut dispatcher = Dispatcher::new();
    let mut run = callback_thread(&mut dispatcher, &mut queue);
    assert_eq!(run.len(), 1);
    match run.remove(0).call(&sidecars) {
        Opened::Call { invocation, pending } => {
            assert_eq!(invocation.callback, Value { raw: 500 });
            assert_eq!(
                invocation.arguments,
                vec![
                    Argument::System(Handle { raw: 1 }),
                    Argument::Unsigned(4),
                    Argument::Bank(Some(Handle { raw: 2 })),
                    Argument::Payload(Some(Value { raw: 600 })),
                ]
            );
            assert_eq!(pending.takes, Takes::Nothing);
            let done = pending.complete(Outcome::Returned { result: 12, object: None });
            assert_eq!(done.reply, Reply { result: 12, object: None });
            assert!(done.delivered);
            assert_eq!(done.warning, None);
        }
        Opened::Answered(_) => panic!("a callable is registered"),
    }
    assert_eq!(receiver.recv(), Reply { result: 12, object: None });
}

#[test]
fn raising_callback_gives_fallback_and_a_warning() {
    let mut queue = HandoffQueue::new();
    let mut sidecars = Sidecars::new();
    let slot = sidecars.studio.set_callback(0, Value { raw: 500 });
    let receiver = StudioSystemCallback::create(&mut queue, Handle { raw: 1 }, 1, None, slot);
    let envelope = queue.dequeue().unwrap().unwrap();
    match envelope.call(&sidecars) {
        Opened::Call { invocation: _, pending } => {
            let done = pending.complete(Outcome::Raised { message: String::from("boom (RuntimeError)") });
            assert_eq!(done.reply, Reply { result: 0, object: None });
            assert!(done.delivered);
            assert_eq!(
                done.warning,
                Some(String::from("WARNING RUBY ERROR IN CALLBACK: boom (RuntimeError)"))
            );
        }
        Opened::Answered(_) => panic!("a callable is registered"),
    }
    assert_eq!(receiver.recv(), Reply { result: 0, object: None });
}

#[test]
fn no_callback_registered_answers_with_fallback_and_no_call() {
    let mut queue = HandoffQueue::new();
    let mut sidecars = Sidecars::new();
    // A record exists, but nothing is registered in it.
    let slot = sidecars.studio.get_or_create_user_data(0);
    let receiver = StudioSystemCallback::create(&mut queue, Handle { raw: 1 }, 1, None, slot);
    let envelope = queue.dequeue().unwrap().unwrap();
    match envelope.call(&sidecars) {
        Opened::Answered(done) => {
            assert_eq!(done.reply, Reply { result: 0, object: None });
            assert!(done.delivered);
            assert_eq!(done.warning, None);
        }
        Opened::Call { .. } => panic!("nothing is registered"),
    }
    assert_eq!(receiver.recv(), Reply { result: 0, object: None });
}

#[test]
fn stale_slot_answers_with_fallback() {
    let mut queue = HandoffQueue::new();
    let mut sidecars = Sidecars::new();
    let slot = sidecars.events.set_callback(0, 0, Value { raw: 1 });
    let receiver =
        EventCallback::create(&mut queue, Handle { raw: 1 }, 1, EventCallbackParameterType::Nothing, slot);
    sidecars.events.release(slot);
    let envelope = queue.dequeue().unwrap().unwrap();
    assert!(matches!(envelope.call(&sidecars), Opened::Answered(_)));
    assert_eq!(receiver.recv(), Reply { result: 0, object: None });
}

#[test]
fn callable_is_looked_up_when_the_envelope_is_opened() {
    let mut queue = HandoffQueue::new();
    let mut sidecars = Sidecars::new();
    let slot = sidecars.studio.set_callback(0, Value { raw: 1 });
    let _receiver = StudioSystemCallback::create(&mut queue, Handle { raw: 1 }, 1, None, slot);
    sidecars.studio.set_callback(slot, Value { raw: 2 });
    match queue.dequeue().unwrap().unwrap().call(&sidecars) {
        Opened::Call { invocation, .. } => assert_eq!(invocation.callback, Value { raw: 2 }),
        Opened::Answered(_) => panic!("a callable is registered"),
    }
}

#[test]
fn event_without_any_sidecar_is_answered_on_the_spot() {
    let mut queue = HandoffQueue::new();
    let sidecars = Sidecars::new();
    let raised = event_callback(
        &mut queue,
        &sidecars.events,
        0x1,
        Handle { raw: 3 },
        EventCallbackParameterType::Nothing,
        0,
        0,
    );
    assert!(matches!(raised, Raised::Answered(Reply { result: 0, object: None })));
    assert!(queue.dequeue().is_none());
    assert_eq!(wait(raised), Reply { result: 0, object: None });
}

#[test]
fn untouched_instance_is_answered_by_its_description() {
    let mut queue = HandoffQueue::new();
    let mut sidecars = Sidecars::new();
    let description = sidecars.events.set_callback(0, 0, Value { raw: 900 });
    let beat = TimelineBeatProperties {
        bar: 2,
        beat: 3,
        position: 4000,
        tempo_bits: 0x42f0_0000,
        timesignatureupper: 4,
        timesignaturelower: 4,
    };
    let raised = event_callback(
        &mut queue,
        &sidecars.events,
        0x1000,
        Handle { raw: 3 },
        EventCallbackParameterType::TimelineBeat(beat),
        0,
        description,
    );
    match queue.dequeue().unwrap().unwrap().call(&sidecars) {
        Opened::Call { invocation, pending } => {
            assert_eq!(invocation.callback, Value { raw: 900 });
            assert_eq!(
                invocation.arguments,
                vec![
                    Argument::EventInstance(Handle { raw: 3 }),
                    Argument::Unsigned(0x1000),
                    Argument::Parameter(EventCallbackParameterType::TimelineBeat(beat)),
                ]
            );
            // An event callback never hands an object back.
            let done = pending
                .complete(Outcome::Returned { result: 5, object: Some(Handle { raw: 1 }) });
            assert_eq!(done.reply, Reply { result: 5, object: None });
        }
        Opened::Answered(_) => panic!("the description has a callable"),
    }
    assert_eq!(wait(raised), Reply { result: 5, object: None });
}

#[test]
fn instance_with_its_own_sidecar_answers_for_itself() {
    let mut queue = HandoffQueue::new();
    let mut sidecars = Sidecars::new();
    let description = sidecars.events.set_callback(0, 0, Value { raw: 900 });
    let instance = sidecars.events.set_callback(0, description, Value { raw: 901 });
    let _raised = event_callback(
        &mut queue,
        &sidecars.events,
        0x1,
        Handle { raw: 3 },
        EventCallbackParameterType::EventInstance(Handle { raw: 77 }),
        instance,
        description,
    );
    match queue.dequeue().unwrap().unwrap().call(&sidecars) {
        Opened::Call { invocation, .. } => {
            assert_eq!(invocation.callback, Value { raw: 901 });
            assert_eq!(
                invocation.arguments[2],
                Argument::Parameter(EventCallbackParameterType::EventInstance(Handle { raw: 77 }))
            );
        }
        Opened::Answered(_) => panic!("the instance has a callable"),
    }
}

#[test]
fn create_instance_callback_hands_back_the_created_object() {
    let mut queue = HandoffQueue::new();
    let mut sidecars = Sidecars::new();
    let slot = sidecars.commands.set_create_instance_callback(0, Value { raw: 10 });
    sidecars.commands.set_user_data(slot, Some(Value { raw: 20 }));
    let receiver =
        create_instance_callback(&mut queue, Handle { raw: 1 }, 6, Handle { raw: 2 }, slot);
    match queue.dequeue().unwrap().unwrap().call(&sidecars) {
        Opened::Call { invocation, pending } => {
            assert_eq!(invocation.callback, Value { raw: 10 });
            assert_eq!(
                invocation.arguments,
                vec![
                    Argument::CommandReplay(Handle { raw: 1 }),
                    Argument::Signed(6),
                    Argument::EventDescription(Handle { raw: 2 }),
                    Argument::Payload(Some(Value { raw: 20 })),
                ]
            );
            assert_eq!(pending.takes, Takes::EventInstance);
            let done = pending
                .complete(Outcome::Returned { result: 0, object: Some(Handle { raw: 0xabc }) });
            assert_eq!(done.reply, Reply { result: 0, object: Some(Handle { raw: 0xabc }) });
        }
        Opened::Answered(_) => panic!("a callable is registered"),
    }
    assert_eq!(receiver.recv(), Reply { result: 0, object: Some(Handle { raw: 0xabc }) });
}

#[test]
fn frame_callback_passes_time_and_takes_no_object() {
    let mut queue = HandoffQueue::new();
    let mut sidecars = Sidecars::new();
    let slot = sidecars.commands.set_frame_callback(0, Value { raw: 10 });
    sidecars.commands.set_create_instance_callback(slot, Value { raw: 11 });
    sidecars.commands.set_load_bank_callback(slot, Value { raw: 12 });
    let receiver = frame_callback(&mut queue, Handle { raw: 1 }, 7, 0x3fc0_0000, slot);
    match queue.dequeue().unwrap().unwrap().call(&sidecars) {
        Opened::Call { invocation, pending } => {
            assert_eq!(invocation.callback, Value { raw: 10 });
            assert_eq!(
                invocation.arguments,
                vec![
                    Argument::CommandReplay(Handle { raw: 1 }),
                    Argument::Signed(7),
                    Argument::Float(0x3fc0_0000),
                    Argument::Payload(None),
                ]
            );
            assert_eq!(pending.takes, Takes::Nothing);
            let done =
                pending.complete(Outcome::Returned { result: 3, object: Some(Handle { raw: 5 }) });
            assert_eq!(done.reply, Reply { result: 3, object: None });
        }
        Opened::Answered(_) => panic!("a callable is registered"),
    }
    assert_eq!(receiver.recv(), Reply { result: 3, object: None });
}

#[test]
fn frame_callable_alone_answers_a_frame() {
    let mut queue = HandoffQueue::new();
    let mut sidecars = Sidecars::new();
    let slot = sidecars.commands.set_frame_callback(0, Value { raw: 10 });
    let half = 0x3f00_0000;
    let receiver = CommandReplayCallback::create(
        &mut queue,
        CommandCallbackType::Frame { replay: Handle { raw: 1 }, commandindex: 4, time_bits: half },
        slot,
    );
    match queue.dequeue().unwrap().unwrap().call(&sidecars) {
        Opened::Call { invocation, pending } => {
            assert_eq!(invocation.callback, Value { raw: 10 });
            assert_eq!(
                invocation.arguments,
                vec![
                    Argument::CommandReplay(Handle { raw: 1 }),
                    Argument::Signed(4),
                    Argument::Float(half),
                    Argument::Payload(None),
                ]
            );
            assert!(pending.complete(Outcome::Returned { result: 7, object: None }).delivered);
        }
        Opened::Answered(_) => panic!("a frame callable is registered"),
    }
    assert_eq!(receiver.take(), Some(Reply { result: 7, object: None }));
}

#[test]
fn callable_of_another_kind_does_not_answer() {
    let mut sidecars = Sidecars::new();
    let slot = sidecars.commands.set_create_instance_callback(0, Value { raw: 10 });
    sidecars.commands.set_load_bank_callback(slot, Value { raw: 12 });

    let mut queue = HandoffQueue::new();
    let receiver = frame_callback(&mut queue, Handle { raw: 1 }, 7, 0, slot);
    assert!(matches!(queue.dequeue().unwrap().unwrap().call(&sidecars), Opened::Answered(_)));
    assert_eq!(receiver.recv(), Reply { result: 0, object: None });

    let frames = sidecars.commands.set_frame_callback(0, Value { raw: 13 });
    let receiver =
        create_instance_callback(&mut queue, Handle { raw: 1 }, 7, Handle { raw: 2 }, frames);
    assert!(matches!(queue.dequeue().unwrap().unwrap().call(&sidecars), Opened::Answered(_)));
    assert_eq!(receiver.recv(), Reply { result: 0, object: None });

    let receiver = load_bank_callback(&mut queue, Handle { raw: 1 }, 7, None, None, 0, frames);
    assert!(matches!(queue.dequeue().unwrap().unwrap().call(&sidecars), Opened::Answered(_)));
    assert_eq!(receiver.recv(), Reply { result: 0, object: None });
}

#[test]
fn load_bank_callback_passes_guid_name_and_flags() {
    let mut queue = HandoffQueue::new();
    let mut sidecars = Sidecars::new();
    let slot = sidecars.commands.set_load_bank_callback(0, Value { raw: 10 });
    sidecars.commands.set_create_instance_callback(slot, Value { raw: 11 });
    sidecars.commands.set_frame_callback(slot, Value { raw: 12 });
    let guid = Guid { data1: 1, data2: 2, data3: 3, data4: [4, 5, 6, 7, 8, 9, 10, 11] };
    let receiver = load_bank_callback(
        &mut queue,
        Handle { raw: 1 },
        8,
        Some(guid),
        Some(String::from("Master.bank")),
        0x2,
        slot,
    );
    match queue.dequeue().unwrap().unwrap().call(&sidecars) {
        Opened::Call { invocation, pending } => {
            assert_eq!(invocation.callback, Value { raw: 10 });
            assert_eq!(
                invocation.arguments,
                vec![
                    Argument::CommandReplay(Handle { raw: 1 }),
                    Argument::Signed(8),
                    Argument::Guid(Some(guid)),
                    Argument::Text(Some(String::from("Master.bank"))),
                    Argument::Unsigned(2),
                    Argument::Payload(None),
                ]
            );
            assert_eq!(pending.takes, Takes::Bank);
            let done = pending
                .complete(Outcome::Returned { result: 9, object: Some(Handle { raw: 0xb4 }) });
            assert_eq!(done.reply, Reply { result: 9, object: Some(Handle { raw: 0xb4 }) });
            assert_eq!(done.warning, None);
        }
        Opened::Answered(_) => panic!("a callable is registered"),
    }
    assert_eq!(receiver.recv(), Reply { result: 9, object: Some(Handle { raw: 0xb4 }) });
}

#[test]
fn raising_bank_callable_gives_fallback_and_the_bare_prefix() {
    let mut queue = HandoffQueue::new();
    let mut sidecars = Sidecars::new();
    let slot = sidecars.commands.set_load_bank_callback(0, Value { raw: 10 });
    let receiver = load_bank_callback(&mut queue, Handle { raw: 1 }, 8, None, None, 0, slot);
    match queue.dequeue().unwrap().unwrap().call(&sidecars) {
        Opened::Call { invocation: _, pending } => {
            let done = pending.complete(Outcome::Raised { message: String::new() });
            assert_eq!(done.reply, Reply { result: 0, object: None });
            assert_eq!(done.warning, Some(String::from("WARNING RUBY ERROR IN CALLBACK: ")));
        }
        Opened::Answered(_) => panic!("a callable is registered"),
    }
    assert_eq!(receiver.recv(), Reply { result: 0, object: None });
}

#[test]
fn command_replay_kinds_keep_their_fields() {
    let mut queue = HandoffQueue::new();
    let kind = CommandCallbackType::Bank {
        replay: Handle { raw: 1 },
        commandindex: -1,
        guid: None,
        bankfilename: None,
        flags: 0,
    };
    let _rx = CommandReplayCallback::create(&mut queue, kind, 0);
    let sidecars = Sidecars::new();
    // Slot 0 names no record: answered with the fallback.
    assert!(matches!(queue.dequeue().unwrap().unwrap().call(&sidecars), Opened::Answered(_)));
}

#[test]
fn three_events_on_one_object_all_get_an_answer() {
    let mut queue = HandoffQueue::new();
    let mut sidecars = Sidecars::new();
    let slot = sidecars.studio.set_callback(0, Value { raw: 1 });
    let receivers: Vec<_> = (0..3u32)
        .map(|i| system_callback(&mut queue, Handle { raw: 1 }, i, None, slot))
        .collect();
    let mut dispatcher = Dispatcher::new();
    let run = callback_thread(&mut dispatcher, &mut queue);
    assert_eq!(run.len(), 3);
    let mut invoked = 0;
    // Completion order is free: answer the envelopes back to front.
    for envelope in run.into_iter().rev() {
        match envelope.call(&sidecars) {
            Opened::Call { invocation, pending } => {
                assert_eq!(invocation.callback, Value { raw: 1 });
                invoked += 1;
                let result = match invocation.arguments[1] {
                    Argument::Unsigned(t) => 100 + t as i32,
                    _ => panic!("type missing"),
                };
                assert!(pending.complete(Outcome::Returned { result, object: None }).delivered);
            }
            Opened::Answered(_) => panic!("a callable is registered"),
        }
    }
    assert_eq!(invoked, 3);
    let results: Vec<i32> = receivers.into_iter().map(|r| r.recv().result).collect();
    assert_eq!(results, vec![100, 101, 102]);
}

#[test]
fn result_codes_have_their_messages() {
    assert_eq!(FmodResult::FMOD_OK.message(), "No errors.");
    assert_eq!(FmodResult::FMOD_ERR_FILE_NOTFOUND.message(), "File not found.");
    assert_eq!(
        FmodResult::FMOD_ERR_EVENT_NOTFOUND.message(),
        "The requested event, parameter, bus or vca could not be found."
    );
    assert_eq!(
        FmodResult::FMOD_ERR_TOOMANYSAMPLES.message(),
        "The length provided exceeds the allowable limit."
    );
    assert_eq!(
        FmodResult::FMOD_ERR_TRUNCATED.message(),
        "The retrieved string is too long to fit in the supplied buffer and has been truncated."
    );
}

#[test]
fn take_tells_an_answer_from_a_closed_channel() {
    let (sender, receiver) = reply_channel();
    assert!(sender.send(Reply { result: 0, object: None }));
    assert_eq!(receiver.take(), Some(Reply { result: 0, object: None }));
    let (sender, receiver) = reply_channel();
    drop(sender);
    assert_eq!(receiver.take(), None);
}

#[test]
fn completing_for_a_thread_that_is_gone_is_not_delivered() {
    let mut queue = HandoffQueue::new();
    let mut sidecars = Sidecars::new();
    let slot = sidecars.studio.set_callback(0, Value { raw: 1 });
    let receiver = system_callback(&mut queue, Handle { raw: 1 }, 1, None, slot);
    drop(receiver);
    match queue.dequeue().unwrap().unwrap().call(&sidecars) {
        Opened::Call { invocation: _, pending } => {
            let done = pending.complete(Outcome::Returned { result: 4, object: None });
            assert_eq!(done.reply, Reply { result: 4, object: None });
            assert!(!done.delivered);
        }
        Opened::Answered(_) => panic!("a callable is registered"),
    }
}

#[test]
fn event_callback_types_say_what_they_carry() {
    let nothing = [
        EventCallbackType::Created,
        EventCallbackType::Starting,
        EventCallbackType::Started,
        EventCallbackType::Restarted,
        EventCallbackType::Stopped,
        EventCallbackType::StartFailed,
        EventCallbackType::RealToVirtual,
        EventCallbackType::VirtualToReal,
    ];
    for kind in nothing {
        assert_eq!(kind.data(), Some(EventCallbackData::Nothing));
    }
    assert_eq!(EventCallbackType::TimelineMarker.data(), Some(EventCallbackData::TimelineMarker));
    assert_eq!(EventCallbackType::TimelineBeat.data(), Some(EventCallbackData::TimelineBeat));
    assert_eq!(EventCallbackType::StartEventCommand.data(), Some(EventCallbackData::EventInstance));
    assert_eq!(
        EventCallbackType::NestedTimelineBeat.data(),
        Some(EventCallbackData::TimelineNested)
    );
    assert_eq!(EventCallbackType::Other.data(), None);
}

#[test]
fn add_callback_puts_the_envelope_last() {
    let mut queue = HandoffQueue::new();
    let _first = system_callback(&mut queue, Handle { raw: 1 }, 1, None, 0);
    let (sender, _receiver) = reply_channel();
    add_callback(
        &mut queue,
        Envelope::Event(EventCallback {
            event: Handle { raw: 2 },
            type_: 2,
            parameter: EventCallbackParameterType::Nothing,
            user_data: 0,
            sender,
        }),
    );
    assert!(matches!(queue.dequeue(), Some(Some(Envelope::System(_)))));
    match queue.dequeue() {
        Some(Some(Envelope::Event(c))) => assert_eq!(c.type_, 2),
        _ => panic!("the added envelope is missing"),
    }
    assert!(queue.dequeue().is_none());
}
