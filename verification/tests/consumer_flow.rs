use kafka_probe::args::{CommonArgs, ConsumerArgs};
use kafka_probe::consumer::{CommitMode, Consumer, Event, Phase, Reaction, Request};
use kafka_probe::message::IncomingMessage;

fn common() -> CommonArgs {
    CommonArgs {
        kafka_topic_name: "t".to_string(),
        kafka_bootstrap_servers: "localhost:9092".to_string(),
    }
}

fn group() -> ConsumerArgs {
    ConsumerArgs { kafka_group_id: "readers".to_string() }
}

fn message(partition: i32, offset: i64) -> IncomingMessage {
    IncomingMessage {
        topic: "t".to_string(),
        partition,
        offset,
        key: Some(b"k1".to_vec()),
        payload: Some(b"p1".to_vec()),
        headers: None,
    }
}

fn receiving() -> Consumer {
    let (consumer, _) = Consumer::start(common(), group());
    let (consumer, _) = consumer.step(Event::Done);
    let (consumer, _) = consumer.step(Event::Done);
    let (consumer, reaction) = consumer.step(Event::Done);
    assert!(matches!(reaction.request, Request::Receive));
    consumer
}

fn abort_reason(reaction: &Reaction) -> &str {
    match &reaction.request {
        Request::Abort { reason } => reason,
        other => panic!("expected the consumer to give up, got {other:?}"),
    }
}

#[test]
fn signal_handler_is_armed_before_anything_else() {
    let (consumer, reaction) = Consumer::start(common(), group());
    assert!(matches!(consumer, Consumer::ArmingSignal { .. }));
    assert!(reaction.lines.is_empty());
    assert!(matches!(reaction.request, Request::ArmSignal));
}

#[test]
fn setup_builds_the_client_then_subscribes() {
    let (consumer, _) = Consumer::start(common(), group());
    let (consumer, reaction) = consumer.step(Event::Done);
    assert!(matches!(consumer, Consumer::BuildingClient { .. }));
    assert!(reaction.lines.is_empty());
    match reaction.request {
        Request::BuildClient(config) => {
            assert_eq!(config.get("bootstrap.servers"), Some("localhost:9092"));
            assert_eq!(config.get("group.id"), Some("readers"));
            assert_eq!(config.config_map().len(), 2);
        }
        other => panic!("expected a request for the client, got {other:?}"),
    }
    let (consumer, reaction) = consumer.step(Event::Done);
    assert!(matches!(consumer, Consumer::Subscribing));
    assert_eq!(
        reaction.lines,
        vec!["Built Kafka consumer client".to_string(), "Subscribing to topic t".to_string()]
    );
    match reaction.request {
        Request::Subscribe { topic } => assert_eq!(topic, "t"),
        other => panic!("expected a subscription, got {other:?}"),
    }
    let (consumer, reaction) = consumer.step(Event::Done);
    assert!(matches!(consumer, Consumer::Receiving));
    assert_eq!(reaction.lines, vec!["Subscribed to the topic".to_string()]);
    assert!(matches!(reaction.request, Request::Receive));
}

#[test]
fn each_message_is_committed_once_before_the_next_fetch() {
    let consumer = receiving();
    let (consumer, reaction) = consumer.step(Event::Message(message(4, 17)));
    assert!(matches!(consumer, Consumer::Committing));
    assert_eq!(
        reaction.lines,
        vec![
            "Received a message: TOPIC=(t) KEY=(Some(\"k1\")) PARTITION=(4) OFFSET=(17) \
             PAYLOAD=(Some(\"p1\")) HEADERS=(None)"
                .to_string()
        ]
    );
    match reaction.request {
        Request::Commit { topic, partition, offset, mode } => {
            assert_eq!(topic, "t");
            assert_eq!(partition, 4);
            assert_eq!(offset, 17);
            assert_eq!(mode, CommitMode::Async);
        }
        other => panic!("expected a commit, got {other:?}"),
    }
    let (consumer, reaction) = consumer.step(Event::Done);
    assert!(matches!(consumer, Consumer::Receiving));
    assert!(reaction.lines.is_empty());
    assert!(matches!(reaction.request, Request::Receive));
}

#[test]
fn commits_follow_the_messages_one_for_one() {
    let mut consumer = receiving();
    let mut commits = Vec::new();
    let mut fetches = 0;
    for offset in [5_i64, 6, 7] {
        let (next, reaction) = consumer.step(Event::Message(message(0, offset)));
        if let Request::Commit { offset, mode: CommitMode::Async, .. } = reaction.request {
            commits.push(offset);
        }
        let (next, reaction) = next.step(Event::Done);
        if matches!(reaction.request, Request::Receive) {
            fetches += 1;
        }
        consumer = next;
    }
    assert_eq!(commits, vec![5, 6, 7]);
    assert_eq!(fetches, 3);
}

#[test]
fn termination_while_idle_unassigns_without_committing() {
    let consumer = receiving();
    let (consumer, reaction) = consumer.step(Event::Terminate);
    assert!(matches!(consumer, Consumer::Draining));
    assert_eq!(reaction.lines, vec!["Received SIGTERM, exiting".to_string()]);
    assert!(matches!(reaction.request, Request::Unassign));
    let (consumer, reaction) = consumer.step(Event::Done);
    assert!(matches!(consumer, Consumer::Finished));
    assert!(reaction.lines.is_empty());
    assert!(matches!(reaction.request, Request::Exit));
}

#[test]
fn termination_after_messages_unassigns_once() {
    let consumer = receiving();
    let (consumer, _) = consumer.step(Event::Message(message(0, 1)));
    let (consumer, _) = consumer.step(Event::Done);
    let mut consumer = consumer;
    let mut requests = Vec::new();
    for event in [Event::Terminate, Event::Done, Event::Done, Event::Terminate] {
        let (next, reaction) = consumer.step(event);
        requests.push(reaction.request);
        consumer = next;
    }
    let unassigns = requests.iter().filter(|r| matches!(r, Request::Unassign)).count();
    let commits = requests.iter().filter(|r| matches!(r, Request::Commit { .. })).count();
    let fetches = requests.iter().filter(|r| matches!(r, Request::Receive)).count();
    assert_eq!((unassigns, commits, fetches), (1, 0, 0));
    assert!(matches!(requests[1], Request::Exit));
    assert!(matches!(consumer, Consumer::Finished));
}

#[test]
fn draining_consumer_does_not_run_again() {
    let consumer = receiving();
    let (consumer, _) = consumer.step(Event::Terminate);
    let (consumer, reaction) = consumer.step(Event::Message(message(0, 1)));
    assert!(matches!(consumer, Consumer::Failed));
    assert_eq!(abort_reason(&reaction), "unexpected event");
}

#[test]
fn signal_handler_failure_is_fatal() {
    let (consumer, _) = Consumer::start(common(), group());
    let (consumer, reaction) = consumer.step(Event::Failed);
    assert!(matches!(consumer, Consumer::Failed));
    assert_eq!(abort_reason(&reaction), "failed to prepare signal handler");
}

#[test]
fn client_failure_stops_the_consumer() {
    let (consumer, _) = Consumer::start(common(), group());
    let (consumer, _) = consumer.step(Event::Done);
    let (consumer, reaction) = consumer.step(Event::Failed);
    assert!(matches!(consumer, Consumer::Failed));
    assert_eq!(abort_reason(&reaction), "failed to create Kafka consumer");
}

#[test]
fn subscription_failure_is_fatal() {
    let (consumer, _) = Consumer::start(common(), group());
    let (consumer, _) = consumer.step(Event::Done);
    let (consumer, _) = consumer.step(Event::Done);
    let (consumer, reaction) = consumer.step(Event::Failed);
    assert!(matches!(consumer, Consumer::Failed));
    assert_eq!(abort_reason(&reaction), "failed to subscribe to the topic");
}

#[test]
fn receive_failure_is_fatal() {
    let (consumer, reaction) = receiving().step(Event::Failed);
    assert!(matches!(consumer, Consumer::Failed));
    assert_eq!(abort_reason(&reaction), "failed to receive the next message from Kafka");
}

#[test]
fn commit_failure_is_fatal() {
    let (consumer, _) = receiving().step(Event::Message(message(0, 0)));
    let (consumer, reaction) = consumer.step(Event::Failed);
    assert!(matches!(consumer, Consumer::Failed));
    assert_eq!(abort_reason(&reaction), "failed to commit message");
}

#[test]
fn unassign_failure_is_fatal() {
    let (consumer, _) = receiving().step(Event::Terminate);
    let (consumer, reaction) = consumer.step(Event::Failed);
    assert!(matches!(consumer, Consumer::Failed));
    assert_eq!(abort_reason(&reaction), "failed to unassign the consumer before exit");
}

#[test]
fn consumer_events_out_of_turn_are_fatal() {
    let (consumer, _) = Consumer::start(common(), group());
    let (consumer, reaction) = consumer.step(Event::Terminate);
    assert!(matches!(consumer, Consumer::Failed));
    assert_eq!(abort_reason(&reaction), "unexpected event");

    let (consumer, reaction) = receiving().step(Event::Done);
    assert!(matches!(consumer, Consumer::Failed));
    assert_eq!(abort_reason(&reaction), "unexpected event");

    let (consumer, _) = receiving().step(Event::Message(message(0, 0)));
    let (consumer, reaction) = consumer.step(Event::Terminate);
    assert!(matches!(consumer, Consumer::Failed));
    assert_eq!(abort_reason(&reaction), "unexpected event");
}

#[test]
fn stopped_consumer_stays_stopped() {
    let (consumer, _) = receiving().step(Event::Terminate);
    let (consumer, _) = consumer.step(Event::Done);
    let (consumer, reaction) = consumer.step(Event::Message(message(0, 0)));
    assert!(matches!(consumer, Consumer::Finished));
    assert!(matches!(reaction.request, Request::Exit));

    let (consumer, _) = receiving().step(Event::Failed);
    let (consumer, reaction) = consumer.step(Event::Done);
    assert!(matches!(consumer, Consumer::Failed));
    assert!(matches!(reaction.request, Request::Abort { .. }));
}

#[test]
fn phases_follow_each_other() {
    let (consumer, _) = Consumer::start(common(), group());
    assert_eq!(consumer.phase(), Phase::Starting);
    let (consumer, _) = consumer.step(Event::Done);
    assert_eq!(consumer.phase(), Phase::Starting);
    let (consumer, _) = consumer.step(Event::Done);
    assert_eq!(consumer.phase(), Phase::Starting);
    let (consumer, _) = consumer.step(Event::Done);
    assert_eq!(consumer.phase(), Phase::Running);
    let (consumer, _) = consumer.step(Event::Message(message(0, 0)));
    assert_eq!(consumer.phase(), Phase::Running);
    let (consumer, _) = consumer.step(Event::Done);
    assert_eq!(consumer.phase(), Phase::Running);
    let (consumer, _) = consumer.step(Event::Terminate);
    assert_eq!(consumer.phase(), Phase::Draining);
    let (consumer, _) = consumer.step(Event::Done);
    assert_eq!(consumer.phase(), Phase::Stopped);
}
