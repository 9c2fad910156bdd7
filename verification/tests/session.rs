use nu_plugin_nuts::bridge::{
    after_send, task_step, Delivery, Phase, Pulled, Reader, ReceiverState, Signal, StreamSession,
    TaskAction, TaskState,
};
use nu_plugin_nuts::error::{BridgeError, ErrorKind};
use nu_plugin_nuts::registry::Registry;

fn connected(handle: u64) -> Registry<u64> {
    let mut registry = Registry::new();
    registry.set(handle);
    registry
}

fn running(handle: u64) -> StreamSession<u64, String> {
    let mut session = StreamSession::open(&connected(handle)).unwrap();
    session.offer(Signal::Subscribed);
    session
}

fn drain(session: &mut StreamSession<u64, String>) -> Vec<Delivery<String>> {
    let mut out = Vec::new();
    loop {
        match session.pull() {
            Pulled::Next(d) => out.push(d),
            Pulled::Pending => panic!("a drained session cannot be pending"),
            Pulled::End => return out,
        }
    }
}

#[test]
fn registry_starts_empty() {
    let registry: Registry<u64> = Registry::new();
    assert!(!registry.is_connected());
    assert_eq!(registry.get(), None);
    assert_eq!(registry.require().unwrap_err().kind, ErrorKind::NotConnected);
}

#[test]
fn registry_set_replaces_the_handle() {
    let mut registry = Registry::new();
    registry.set(String::from("first"));
    assert_eq!(registry.get(), Some(String::from("first")));
    registry.set(String::from("second"));
    assert!(registry.is_connected());
    assert_eq!(registry.get(), Some(String::from("second")));
    assert_eq!(registry.require().unwrap(), "second");
}

#[test]
fn a_snapshot_outlives_a_later_set() {
    let mut registry = Registry::new();
    registry.set(String::from("first"));
    let snapshot = registry.get().unwrap();
    registry.set(String::from("second"));
    assert_eq!(snapshot, "first");
}

#[test]
fn not_connected_message() {
    let e = BridgeError::not_connected();
    assert_eq!(e.kind(), ErrorKind::NotConnected);
    assert_eq!(e.message, "Not connected to NATS server. Call `nuts connect` first");
    assert_eq!(e.label, None);
    assert_eq!(e.at, None);
    assert_eq!(e.describe(), "Not connected to NATS server. Call `nuts connect` first");
}

#[test]
fn describe_appends_the_label() {
    let e = BridgeError::with_label(
        ErrorKind::Protocol,
        String::from("missing payload"),
        String::from("input record must contain a payload field"),
    );
    assert_eq!(e.describe(), "missing payload (input record must contain a payload field)");
    assert_eq!(e.duplicate(), e);
}

#[test]
fn open_without_connection_fails() {
    let registry: Registry<u64> = Registry::new();
    let opened: Result<StreamSession<u64, String>, BridgeError> = StreamSession::open(&registry);
    let e = opened.unwrap_err();
    assert_eq!(e.kind, ErrorKind::NotConnected);
    assert_eq!(e.message, "Not connected to NATS server. Call `nuts connect` first");
}

#[test]
fn a_session_passes_through_its_phases() {
    let mut session: StreamSession<u64, String> = StreamSession::open(&connected(7)).unwrap();
    assert_eq!(session.phase(), Phase::Idle);
    assert_eq!(*session.handle(), 7);
    assert_eq!(session.buffered(), 0);
    session.offer(Signal::Subscribed);
    assert_eq!(session.phase(), Phase::Running);
    session.offer(Signal::Event(String::from("a")));
    assert_eq!(session.phase(), Phase::Running);
    assert_eq!(session.buffered(), 1);
    session.offer(Signal::Ended);
    assert_eq!(session.phase(), Phase::Draining);
    assert_eq!(session.pull(), Pulled::Next(Delivery::Item(String::from("a"))));
    assert_eq!(session.phase(), Phase::Draining);
    assert_eq!(session.pull(), Pulled::End);
    assert_eq!(session.phase(), Phase::Closed);
    assert_eq!(session.pull(), Pulled::End);
}

#[test]
fn events_before_cancellation_arrive_in_order() {
    let mut session = running(1);
    let events = ["one", "two", "three", "four", "five"];
    for e in events {
        session.offer(Signal::Event(String::from(e)));
    }
    session.offer(Signal::Cancelled);
    let got = drain(&mut session);
    let expected: Vec<Delivery<String>> =
        events.iter().map(|e| Delivery::Item(String::from(*e))).collect();
    assert_eq!(got, expected);
    assert_eq!(session.phase(), Phase::Closed);
}

#[test]
fn pulls_between_events_lose_nothing() {
    let mut session = running(1);
    let mut got = Vec::new();
    session.offer(Signal::Event(String::from("a")));
    session.offer(Signal::Event(String::from("b")));
    match session.pull() {
        Pulled::Next(d) => got.push(d),
        other => panic!("expected a delivery, got {:?}", other),
    }
    session.offer(Signal::Event(String::from("c")));
    match session.pull() {
        Pulled::Next(d) => got.push(d),
        other => panic!("expected a delivery, got {:?}", other),
    }
    session.offer(Signal::Cancelled);
    got.extend(drain(&mut session));
    assert_eq!(
        got,
        vec![
            Delivery::Item(String::from("a")),
            Delivery::Item(String::from("b")),
            Delivery::Item(String::from("c")),
        ]
    );
}

#[test]
fn a_pull_on_a_live_empty_session_is_pending() {
    let mut session = running(1);
    assert_eq!(session.pull(), Pulled::Pending);
    assert_eq!(session.phase(), Phase::Running);
    session.offer(Signal::Event(String::from("late")));
    assert_eq!(session.pull(), Pulled::Next(Delivery::Item(String::from("late"))));
}

#[test]
fn nothing_is_delivered_after_cancellation() {
    let mut session = running(1);
    session.offer(Signal::Event(String::from("before")));
    session.offer(Signal::Cancelled);
    session.offer(Signal::Event(String::from("after")));
    session.offer(Signal::Event(String::from("much later")));
    session.offer(Signal::Subscribed);
    assert_eq!(session.buffered(), 1);
    assert_eq!(session.pull(), Pulled::Next(Delivery::Item(String::from("before"))));
    assert_eq!(session.pull(), Pulled::End);
    assert_eq!(session.pull(), Pulled::End);
}

#[test]
fn cancelling_an_empty_session_ends_it_at_the_next_pull() {
    let mut session = running(1);
    session.offer(Signal::Cancelled);
    assert_eq!(session.pull(), Pulled::End);
}

#[test]
fn cancelling_before_subscribing_ends_the_session() {
    let mut session: StreamSession<u64, String> = StreamSession::open(&connected(1)).unwrap();
    session.offer(Signal::Cancelled);
    assert_eq!(session.phase(), Phase::Draining);
    session.offer(Signal::Subscribed);
    session.offer(Signal::Event(String::from("x")));
    assert_eq!(session.pull(), Pulled::End);
}

#[test]
fn a_new_handle_does_not_reach_an_open_session() {
    let mut registry = connected(1);
    let mut session: StreamSession<u64, String> = StreamSession::open(&registry).unwrap();
    session.offer(Signal::Subscribed);
    session.offer(Signal::Event(String::from("a")));
    registry.set(2);
    session.offer(Signal::Event(String::from("b")));
    assert_eq!(*session.handle(), 1);
    assert_eq!(registry.get(), Some(2));
    assert_eq!(session.phase(), Phase::Running);
    session.offer(Signal::Ended);
    assert_eq!(
        drain(&mut session),
        vec![Delivery::Item(String::from("a")), Delivery::Item(String::from("b"))]
    );
    let other: StreamSession<u64, String> = StreamSession::open(&registry).unwrap();
    assert_eq!(*other.handle(), 2);
    assert_eq!(*session.handle(), 1);
}

#[test]
fn a_failure_is_the_last_delivery() {
    let mut session = running(1);
    session.offer(Signal::Event(String::from("a")));
    session.offer(Signal::Failed(BridgeError::transport(String::from("connection reset"))));
    session.offer(Signal::Event(String::from("b")));
    assert_eq!(session.phase(), Phase::Draining);
    let got = drain(&mut session);
    assert_eq!(
        got,
        vec![
            Delivery::Item(String::from("a")),
            Delivery::Failure(BridgeError::transport(String::from("connection reset"))),
        ]
    );
}

#[test]
fn a_failure_to_subscribe_is_delivered() {
    let mut session: StreamSession<u64, String> = StreamSession::open(&connected(1)).unwrap();
    session.offer(Signal::Failed(BridgeError::task_failure(String::from("no such subject"))));
    assert_eq!(session.phase(), Phase::Draining);
    match session.pull() {
        Pulled::Next(Delivery::Failure(e)) => {
            assert_eq!(e.kind, ErrorKind::InternalTaskFailure);
            assert_eq!(e.message, "no such subject");
        }
        other => panic!("expected the failure, got {:?}", other),
    }
    assert_eq!(session.pull(), Pulled::End);
}

#[test]
fn events_before_subscribing_are_ignored() {
    let mut session: StreamSession<u64, String> = StreamSession::open(&connected(1)).unwrap();
    session.offer(Signal::Event(String::from("early")));
    session.offer(Signal::Ended);
    assert_eq!(session.phase(), Phase::Idle);
    assert_eq!(session.buffered(), 0);
    assert_eq!(session.pull(), Pulled::Pending);
}

#[test]
fn a_dropped_receiver_ends_the_task() {
    let mut session = running(1);
    session.offer(Signal::Event(String::from("a")));
    session.drop_receiver();
    assert_eq!(session.phase(), Phase::Closed);
    assert_eq!(session.buffered(), 0);
    assert_eq!(session.receiver, ReceiverState::Dropped);
    assert_eq!(session.task, TaskState::Running);
    session.offer(Signal::Event(String::from("b")));
    assert_eq!(session.task, TaskState::Exited);
    assert_eq!(session.buffered(), 0);
    assert_eq!(session.pull(), Pulled::End);
    session.drop_receiver();
    assert_eq!(session.receiver, ReceiverState::Dropped);
}

#[test]
fn task_step_table() {
    let event = || Signal::Event(5u8);
    assert_eq!(task_step(TaskState::Idle, Signal::<u8>::Subscribed), (TaskState::Running, TaskAction::Continue));
    assert_eq!(task_step(TaskState::Idle, Signal::<u8>::Cancelled), (TaskState::Exited, TaskAction::Exit));
    assert_eq!(task_step(TaskState::Idle, event()), (TaskState::Idle, TaskAction::Continue));
    assert_eq!(task_step(TaskState::Idle, Signal::<u8>::Ended), (TaskState::Idle, TaskAction::Continue));
    assert_eq!(
        task_step(TaskState::Running, event()),
        (TaskState::Running, TaskAction::Forward(Delivery::Item(5u8)))
    );
    assert_eq!(task_step(TaskState::Running, Signal::<u8>::Subscribed), (TaskState::Running, TaskAction::Continue));
    assert_eq!(task_step(TaskState::Running, Signal::<u8>::Cancelled), (TaskState::Exited, TaskAction::Exit));
    assert_eq!(task_step(TaskState::Running, Signal::<u8>::Ended), (TaskState::Exited, TaskAction::Exit));
    let failure = BridgeError::transport(String::from("broken pipe"));
    assert_eq!(
        task_step(TaskState::Running, Signal::<u8>::Failed(failure.duplicate())),
        (TaskState::Exited, TaskAction::ForwardThenExit(Delivery::Failure(failure.duplicate())))
    );
    assert_eq!(
        task_step(TaskState::Idle, Signal::<u8>::Failed(failure.duplicate())),
        (TaskState::Exited, TaskAction::ForwardThenExit(Delivery::Failure(failure.duplicate())))
    );
    assert_eq!(task_step(TaskState::Exited, event()), (TaskState::Exited, TaskAction::Exit));
    assert_eq!(task_step(TaskState::Exited, Signal::<u8>::Subscribed), (TaskState::Exited, TaskAction::Exit));
    assert_eq!(
        task_step(TaskState::Exited, Signal::<u8>::Failed(failure)),
        (TaskState::Exited, TaskAction::Exit)
    );
}

#[test]
fn a_refused_send_ends_the_task() {
    assert_eq!(after_send(TaskState::Running, true), TaskState::Running);
    assert_eq!(after_send(TaskState::Running, false), TaskState::Exited);
    assert_eq!(after_send(TaskState::Exited, true), TaskState::Exited);
}

#[test]
fn a_reader_is_not_restartable() {
    let mut reader = Reader::new();
    assert!(reader.wants_receive());
    assert_eq!(reader.accept(Some(Delivery::Item(1u8))), Pulled::Next(Delivery::Item(1u8)));
    assert!(reader.wants_receive());
    assert_eq!(reader.accept(None::<Delivery<u8>>), Pulled::End);
    assert!(!reader.wants_receive());
    assert_eq!(reader.accept(Some(Delivery::Item(2u8))), Pulled::End);
    assert!(!reader.wants_receive());
}
