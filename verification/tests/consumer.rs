use chrono::{DateTime, NaiveDateTime, TimeDelta};
use crossbeam::channel::{bounded, unbounded};
use ssu_mgmt::messaging::config::{KafkaCredentials, MessagingConfig};
use ssu_mgmt::messaging::consumer::{create_client_config, Rebalance};
use ssu_mgmt::messaging::handlers::register_handlers;
use ssu_mgmt::messaging::handlers::user_action::user_action_handler;
use ssu_mgmt::messaging::model::Envelope;
use ssu_mgmt::messaging::offset_tracker::new_offset_tracker;
use ssu_mgmt::messaging::registry::{new_registry, HandlerFunc, Registry};
use ssu_mgmt::messaging::{
    delivery_outcome, process_message, LoopAction, LoopState, MessageOutcome, PollEvent, PollLoop,
    COMMIT_INTERVAL_SECONDS, SS_CONTEXT_NAME, TOPIC,
};
use ssu_mgmt::misc::context::Context;
use ssu_mgmt::misc::error::Error;
use ssu_mgmt::service::bg::Message;

fn q(text: &str) -> String {
    text.replace('\'', "\"")
}

fn user_action(message_id: &str) -> String {
    q(&format!(
        "{{'type':'user-action','messageId':'{}','data':{{'action':'create','method':'POST',\
         'path':'/api/things','requestData':{{'name':'thing'}},'service':'selfservice',\
         'timestamp':1700000000,'username':'alice'}}}}",
        message_id
    ))
}

fn context_with(partitions: &[i32]) -> Context {
    let (bg_sender, bg_receiver) = unbounded::<Message>();
    let mut offset_tracker = new_offset_tracker();
    for partition in partitions {
        offset_tracker.mark_assigned(*partition);
    }
    Context { offset_tracker, bg_sender, bg_receiver }
}

fn registry() -> Registry {
    let mut registry = new_registry();
    register_handlers(&mut registry);
    registry
}

fn at(seconds: i64, nanos: u32) -> NaiveDateTime {
    DateTime::from_timestamp(seconds, nanos).unwrap().naive_utc()
}

fn delivered(partition: i32, offset: i64, payload: &str) -> PollEvent {
    PollEvent::Delivered { partition, offset, payload: Some(payload.to_owned()) }
}

fn sorted(mut pairs: Vec<(i32, i64)>) -> Vec<(i32, i64)> {
    pairs.sort();
    pairs
}

#[test]
fn valid_message_is_handled_enqueued_and_tracked() {
    let registry = registry();
    let mut context = context_with(&[0]);
    let outcome = process_message(&registry, &mut context, 0, 10, &user_action("m1"));
    assert_eq!(outcome, MessageOutcome::Handled);
    assert_eq!(context.offset_tracker.snapshot(), vec![(0, 11)]);
    let Message::UserAction(message) = context.bg_receiver.try_recv().unwrap();
    assert_eq!(message.message_id, "m1");
    assert_eq!(message._type, "user-action");
    assert_eq!(message.data.username, "alice");
    assert!(context.bg_receiver.try_recv().is_err());
}

#[test]
fn unknown_type_is_skipped_and_tracked() {
    let registry = registry();
    let mut context = context_with(&[0]);
    let outcome = process_message(
        &registry,
        &mut context,
        0,
        20,
        &q("{'type':'unknown-type','messageId':'m2'}"),
    );
    assert_eq!(outcome, MessageOutcome::Unhandled);
    assert!(context.bg_receiver.try_recv().is_err());
    assert_eq!(context.offset_tracker.snapshot(), vec![(0, 21)]);
}

#[test]
fn malformed_json_is_dropped_and_tracked() {
    let registry = registry();
    let mut context = context_with(&[2]);
    let outcome = process_message(&registry, &mut context, 2, 7, "{not json");
    assert_eq!(outcome, MessageOutcome::Malformed(Error::MalformedJson));
    assert!(context.bg_receiver.try_recv().is_err());
    assert_eq!(context.offset_tracker.snapshot(), vec![(2, 8)]);
    let outcome = process_message(&registry, &mut context, 2, 8, &user_action("after"));
    assert_eq!(outcome, MessageOutcome::Handled);
    assert_eq!(context.offset_tracker.snapshot(), vec![(2, 9)]);
}

#[test]
fn header_of_unexpected_shape_is_dropped_and_tracked() {
    let registry = registry();
    let mut context = context_with(&[2]);
    let outcome = process_message(&registry, &mut context, 2, 0, &q("{'type':'user-action'}"));
    assert_eq!(outcome, MessageOutcome::Malformed(Error::UnexpectedShape));
    assert_eq!(context.offset_tracker.snapshot(), vec![(2, 1)]);
}

#[test]
fn failing_handler_does_not_hold_the_offset_back() {
    let registry = registry();
    let mut context = context_with(&[1]);
    let outcome = process_message(
        &registry,
        &mut context,
        1,
        99,
        &q("{'type':'user-action','messageId':'m3','data':{'action':'create'}}"),
    );
    assert_eq!(outcome, MessageOutcome::Failed(Error::UnexpectedShape));
    assert!(context.bg_receiver.try_recv().is_err());
    assert_eq!(context.offset_tracker.snapshot(), vec![(1, 100)]);
}

#[test]
fn redelivered_message_reaches_the_sink_twice() {
    let registry = registry();
    let mut context = context_with(&[0]);
    process_message(&registry, &mut context, 0, 10, &user_action("m1"));
    process_message(&registry, &mut context, 0, 10, &user_action("m1"));
    let Message::UserAction(first) = context.bg_receiver.try_recv().unwrap();
    let Message::UserAction(second) = context.bg_receiver.try_recv().unwrap();
    assert_eq!(first.message_id, "m1");
    assert_eq!(second.message_id, "m1");
    assert!(context.bg_receiver.try_recv().is_err());
    assert_eq!(context.offset_tracker.snapshot(), vec![(0, 11)]);
}

#[test]
fn valid_message_on_a_new_tracker_is_handled_and_tracked() {
    let registry = registry();
    let mut context = context_with(&[]);
    let outcome = process_message(
        &registry,
        &mut context,
        0,
        10,
        &q("{'type':'user-action','messageId':'m1','data':{'action':'a','method':'GET',\
            'path':'/p','requestData':{},'service':'s','timestamp':0,'username':'u'}}"),
    );
    assert_eq!(outcome, MessageOutcome::Handled);
    assert_eq!(context.offset_tracker.snapshot(), vec![(0, 11)]);
    let Message::UserAction(message) = context.bg_receiver.try_recv().unwrap();
    assert_eq!(message.message_id, "m1");
    assert_eq!(message._type, "user-action");
    assert_eq!(message.data.username, "u");
    assert_eq!(message.data.timestamp, 0);
    assert!(context.bg_receiver.try_recv().is_err());
}

#[test]
fn failing_handler_on_a_new_tracker_is_tracked() {
    let registry = registry();
    let mut context = context_with(&[]);
    let outcome = process_message(
        &registry,
        &mut context,
        2,
        5,
        &q("{'type':'user-action','messageId':'m3','data':{}}"),
    );
    assert_eq!(outcome, MessageOutcome::Failed(Error::UnexpectedShape));
    assert_eq!(context.offset_tracker.snapshot(), vec![(2, 6)]);
    assert!(context.bg_receiver.try_recv().is_err());
}

#[test]
fn malformed_json_on_a_new_tracker_is_tracked() {
    let registry = registry();
    let mut context = context_with(&[]);
    let outcome = process_message(&registry, &mut context, 0, 10, "{not json");
    assert_eq!(outcome, MessageOutcome::Malformed(Error::MalformedJson));
    assert_eq!(context.offset_tracker.snapshot(), vec![(0, 11)]);
    assert!(context.bg_receiver.try_recv().is_err());

    let outcome = process_message(&registry, &mut context, 0, 11, &user_action("m1"));
    assert_eq!(outcome, MessageOutcome::Handled);
    assert_eq!(context.offset_tracker.snapshot(), vec![(0, 12)]);
    let Message::UserAction(message) = context.bg_receiver.try_recv().unwrap();
    assert_eq!(message.message_id, "m1");
    assert!(context.bg_receiver.try_recv().is_err());
}

#[test]
fn unknown_type_on_a_new_tracker_is_tracked() {
    let registry = registry();
    let mut context = context_with(&[]);
    let outcome = process_message(
        &registry,
        &mut context,
        3,
        7,
        &q("{'type':'unknown-type','messageId':'m2'}"),
    );
    assert_eq!(outcome, MessageOutcome::Unhandled);
    assert_eq!(context.offset_tracker.snapshot(), vec![(3, 8)]);
    assert!(context.bg_receiver.try_recv().is_err());
}

#[test]
fn message_that_the_channel_refuses_is_reported_and_tracked() {
    let registry = registry();
    let (bg_sender, bg_receiver) = bounded::<Message>(1);
    let mut context = Context { offset_tracker: new_offset_tracker(), bg_sender, bg_receiver };
    let outcome = process_message(&registry, &mut context, 0, 1, &user_action("first"));
    assert_eq!(outcome, MessageOutcome::Handled);
    let outcome = process_message(&registry, &mut context, 0, 2, &user_action("second"));
    assert_eq!(outcome, MessageOutcome::Undelivered);
    assert_eq!(context.offset_tracker.snapshot(), vec![(0, 3)]);
    let Message::UserAction(message) = context.bg_receiver.try_recv().unwrap();
    assert_eq!(message.message_id, "first");
    assert!(context.bg_receiver.try_recv().is_err());
}

#[test]
fn handler_returns_the_message_for_the_sink() {
    let context = context_with(&[]);
    let envelope = Envelope { _type: "user-action".to_owned(), message_id: "m".to_owned() };
    let handled = user_action_handler(ssu_mgmt::messaging::model::Context {
        event: envelope.clone(),
        msg: user_action("m"),
        context: &context,
    });
    let Message::UserAction(message) = handled.unwrap();
    assert_eq!(message.message_id, "m");
    assert_eq!(message._type, "user-action");
    assert_eq!(message.data.action, "create");
    assert_eq!(message.data.username, "alice");
    assert_eq!(message.data.timestamp, 1700000000);
    assert!(context.bg_receiver.try_recv().is_err());
    let handled = HandlerFunc::UserAction.call(ssu_mgmt::messaging::model::Context {
        event: envelope.clone(),
        msg: "{not json".to_owned(),
        context: &context,
    });
    assert_eq!(handled.unwrap_err(), Error::MalformedJson);
    let handled = HandlerFunc::UserAction.call(ssu_mgmt::messaging::model::Context {
        event: envelope,
        msg: q("{'type':'user-action','messageId':'m3'}"),
        context: &context,
    });
    assert_eq!(handled.unwrap_err(), Error::UnexpectedShape);
    assert!(context.bg_receiver.try_recv().is_err());
}

#[test]
fn loop_starts_polling() {
    let poll_loop = PollLoop::new(at(100, 0));
    assert_eq!(poll_loop.state, LoopState::Polling);
    assert_eq!(poll_loop.last_offset_update_time, at(100, 0));
}

#[test]
fn delivered_message_is_processed_by_the_loop() {
    let registry = registry();
    let mut context = context_with(&[0]);
    let mut poll_loop = PollLoop::new(at(0, 0));
    let step = poll_loop.step(delivered(0, 10, &user_action("m1")), at(1, 0), &registry, &mut context);
    assert!(matches!(step.action, LoopAction::Poll));
    assert_eq!(step.outcome, Some(MessageOutcome::Handled));
    assert_eq!(poll_loop.state, LoopState::Polling);
    assert_eq!(poll_loop.last_offset_update_time, at(0, 0));
    assert_eq!(context.offset_tracker.snapshot(), vec![(0, 11)]);
    assert!(context.bg_receiver.try_recv().is_ok());
}

#[test]
fn message_without_payload_is_malformed() {
    let registry = registry();
    let mut context = context_with(&[0]);
    let mut poll_loop = PollLoop::new(at(0, 0));
    let event = PollEvent::Delivered { partition: 0, offset: 4, payload: None };
    let step = poll_loop.step(event, at(1, 0), &registry, &mut context);
    assert_eq!(step.outcome, Some(MessageOutcome::Malformed(Error::MalformedJson)));
    assert_eq!(context.offset_tracker.snapshot(), vec![(0, 5)]);
}

#[test]
fn malformed_message_does_not_stop_the_loop() {
    let registry = registry();
    let mut context = context_with(&[0]);
    let mut poll_loop = PollLoop::new(at(0, 0));
    let step = poll_loop.step(delivered(0, 1, "{not json"), at(1, 0), &registry, &mut context);
    assert!(matches!(step.action, LoopAction::Poll));
    assert_eq!(step.outcome, Some(MessageOutcome::Malformed(Error::MalformedJson)));
    assert_eq!(poll_loop.state, LoopState::Polling);
    assert_eq!(context.offset_tracker.snapshot(), vec![(0, 2)]);
}

#[test]
fn transport_error_polls_again() {
    let registry = registry();
    let mut context = context_with(&[0]);
    let mut poll_loop = PollLoop::new(at(0, 0));
    let step = poll_loop.step(PollEvent::TransportError, at(100, 0), &registry, &mut context);
    assert!(matches!(step.action, LoopAction::Poll));
    assert_eq!(step.outcome, None);
    assert_eq!(poll_loop.state, LoopState::Polling);
    assert_eq!(poll_loop.last_offset_update_time, at(0, 0));
}

#[test]
fn idle_poll_commits_once_the_interval_has_passed() {
    let registry = registry();
    let mut context = context_with(&[0, 1]);
    context.offset_tracker.advance(0, 11);
    context.offset_tracker.advance(1, 4);
    let mut poll_loop = PollLoop::new(at(1000, 500_000_000));

    let step = poll_loop.step(PollEvent::Idle, at(1030, 499_999_999), &registry, &mut context);
    assert!(matches!(step.action, LoopAction::Poll));
    assert_eq!(poll_loop.state, LoopState::Polling);
    assert_eq!(poll_loop.last_offset_update_time, at(1000, 500_000_000));

    let step = poll_loop.step(PollEvent::Idle, at(1030, 500_000_000), &registry, &mut context);
    match step.action {
        LoopAction::Commit(positions) => assert_eq!(sorted(positions), vec![(0, 11), (1, 4)]),
        other => panic!("{:?}", other),
    }
    assert_eq!(poll_loop.state, LoopState::Committing);
    assert_eq!(poll_loop.last_offset_update_time, at(1000, 500_000_000));

    let step = poll_loop.step(PollEvent::Committed, at(1031, 0), &registry, &mut context);
    assert!(matches!(step.action, LoopAction::Poll));
    assert_eq!(poll_loop.state, LoopState::Polling);
    assert_eq!(poll_loop.last_offset_update_time, at(1031, 0));

    let step = poll_loop.step(PollEvent::Idle, at(1060, 0), &registry, &mut context);
    assert!(matches!(step.action, LoopAction::Poll));
    let step = poll_loop.step(PollEvent::Idle, at(1061, 0), &registry, &mut context);
    assert!(matches!(step.action, LoopAction::Commit(_)));
}

#[test]
fn idle_poll_with_nothing_to_commit_restarts_the_interval() {
    let registry = registry();
    let mut context = context_with(&[0]);
    let mut poll_loop = PollLoop::new(at(0, 0));
    let step = poll_loop.step(PollEvent::Idle, at(45, 0), &registry, &mut context);
    assert!(matches!(step.action, LoopAction::Poll));
    assert_eq!(poll_loop.state, LoopState::Polling);
    assert_eq!(poll_loop.last_offset_update_time, at(45, 0));
}

#[test]
fn commit_interval_is_counted_in_whole_seconds() {
    let registry = registry();
    let elapsed = [(29, false), (30, true), (31, true), (0, false), (-40, false), (i64::MAX, true)];
    for (seconds, commits) in elapsed {
        let mut context = context_with(&[3]);
        context.offset_tracker.advance(3, 1);
        let mut poll_loop = PollLoop::new(at(0, 0));
        let step = poll_loop.step_after(PollEvent::Idle, seconds, at(7, 0), &registry, &mut context);
        assert_eq!(matches!(step.action, LoopAction::Commit(_)), commits, "{}", seconds);
        assert_eq!(poll_loop.state == LoopState::Committing, commits);
    }
    assert_eq!(COMMIT_INTERVAL_SECONDS, 30);
}

#[test]
fn cancellation_stops_the_loop_without_a_commit() {
    let registry = registry();
    let mut context = context_with(&[0]);
    context.offset_tracker.advance(0, 11);
    let mut poll_loop = PollLoop::new(at(0, 0));
    let step = poll_loop.step(PollEvent::Cancelled, at(500, 0), &registry, &mut context);
    assert!(matches!(step.action, LoopAction::Stop));
    assert_eq!(poll_loop.state, LoopState::Stopped);

    let step = poll_loop.step(delivered(0, 50, &user_action("late")), at(501, 0), &registry, &mut context);
    assert!(matches!(step.action, LoopAction::Stop));
    assert_eq!(step.outcome, None);
    assert_eq!(context.offset_tracker.snapshot(), vec![(0, 11)]);
    assert!(context.bg_receiver.try_recv().is_err());
    let step = poll_loop.step(PollEvent::Idle, at(900, 0), &registry, &mut context);
    assert!(matches!(step.action, LoopAction::Stop));
    let step = poll_loop.step(
        PollEvent::PostRebalance(Rebalance::Revoke(vec![0])),
        at(901, 0),
        &registry,
        &mut context,
    );
    assert!(matches!(step.action, LoopAction::Stop));
    assert_eq!(context.offset_tracker.snapshot(), vec![(0, 11)]);
    assert_eq!(poll_loop.state, LoopState::Stopped);
    assert_eq!(poll_loop.last_offset_update_time, at(0, 0));
}

#[test]
fn rebalances_move_the_loop_and_the_tracker() {
    let registry = registry();
    let mut context = context_with(&[]);
    let mut poll_loop = PollLoop::new(at(0, 0));

    poll_loop.step(PollEvent::PreRebalance(Rebalance::Assign(vec![0, 1])), at(1, 0), &registry, &mut context);
    assert_eq!(poll_loop.state, LoopState::RebalanceAssign);
    assert!(!context.offset_tracker.is_assigned(0));
    poll_loop.step(PollEvent::PostRebalance(Rebalance::Assign(vec![0, 1])), at(1, 0), &registry, &mut context);
    assert_eq!(poll_loop.state, LoopState::Polling);
    assert!(context.offset_tracker.is_assigned(0));
    assert!(context.offset_tracker.is_assigned(1));

    poll_loop.step(delivered(0, 10, "{not json"), at(2, 0), &registry, &mut context);
    poll_loop.step(delivered(1, 20, "{not json"), at(2, 0), &registry, &mut context);
    assert_eq!(sorted(context.offset_tracker.snapshot()), vec![(0, 11), (1, 21)]);

    poll_loop.step(PollEvent::PreRebalance(Rebalance::Revoke(vec![0])), at(3, 0), &registry, &mut context);
    assert_eq!(poll_loop.state, LoopState::RebalanceRevoke);
    poll_loop.step(PollEvent::PreRebalance(Rebalance::Error), at(3, 0), &registry, &mut context);
    assert_eq!(poll_loop.state, LoopState::RebalanceRevoke);
    poll_loop.step(PollEvent::PostRebalance(Rebalance::Revoke(vec![0])), at(3, 0), &registry, &mut context);
    assert_eq!(poll_loop.state, LoopState::Polling);
    assert_eq!(context.offset_tracker.snapshot(), vec![(1, 21)]);

    poll_loop.step(PollEvent::PostRebalance(Rebalance::Assign(vec![0])), at(4, 0), &registry, &mut context);
    poll_loop.step(delivered(0, 3, "{not json"), at(5, 0), &registry, &mut context);
    assert_eq!(sorted(context.offset_tracker.snapshot()), vec![(0, 4), (1, 21)]);
}

#[test]
fn elapsed_time_is_measured_between_the_two_instants() {
    let registry = registry();
    let mut context = context_with(&[0]);
    context.offset_tracker.advance(0, 1);
    let mut poll_loop = PollLoop::new(at(1_000_000, 0));
    let before = at(1_000_000, 0) - TimeDelta::try_seconds(3600).unwrap();
    let step = poll_loop.step(PollEvent::Idle, before, &registry, &mut context);
    assert!(matches!(step.action, LoopAction::Poll));
    let step = poll_loop.step(PollEvent::Idle, at(1_000_030, 0), &registry, &mut context);
    assert!(matches!(step.action, LoopAction::Commit(_)));
}

#[test]
fn client_settings_follow_the_configuration() {
    let conf = MessagingConfig {
        credentials: KafkaCredentials { username: "svc".to_owned(), password: "SECRET-REDACTED".to_owned() },
        bootstrap_servers: "broker-1:9092,broker-2:9092".to_owned(),
        group_id: "group".to_owned(),
        sasl_mechanism: "PLAIN".to_owned(),
        security_protocol: "SASL_SSL".to_owned(),
    };
    let settings = create_client_config(&conf);
    let expected = [
        ("group.id", "group"),
        ("client.id", "ssu-mgmt"),
        ("bootstrap.servers", "broker-1:9092,broker-2:9092"),
        ("enable.auto.commit", "false"),
        ("auto.offset.reset", "earliest"),
        ("sasl.mechanism", "PLAIN"),
        ("security.protocol", "SASL_SSL"),
        ("sasl.username", "svc"),
        ("sasl.password", "SECRET-REDACTED"),
    ];
    assert_eq!(settings.len(), expected.len());
    for (setting, (key, value)) in settings.iter().zip(expected) {
        assert_eq!(setting.0, key);
        assert_eq!(setting.1, value);
    }
    let copy = conf.clone();
    assert_eq!(copy.group_id, "group");
    assert_eq!(copy.credentials.username, "svc");
}

#[test]
fn names_are_fixed() {
    assert_eq!(SS_CONTEXT_NAME, "MESSAGING_CONTEXT");
    assert_eq!(TOPIC, "cloudengineering.selfservice.audit");
}

#[test]
fn outcome_follows_the_channel() {
    assert_eq!(delivery_outcome(true), MessageOutcome::Handled);
    assert_eq!(delivery_outcome(false), MessageOutcome::Undelivered);
}
