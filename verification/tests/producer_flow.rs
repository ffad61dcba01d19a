use kafka_probe::args::{CommonArgs, ProducerArgs};
use kafka_probe::header::MessageHeaderArg;
use kafka_probe::producer::{
    delivered_line_of, sending_line_of, Event, Producer, Reaction, Request, SEND_TIMEOUT_SECS,
};
use rdkafka::message::Headers;
use std::str::FromStr;

fn common() -> CommonArgs {
    CommonArgs {
        kafka_topic_name: "t".to_string(),
        kafka_bootstrap_servers: "localhost:9092".to_string(),
    }
}

fn keyed() -> ProducerArgs {
    ProducerArgs {
        partition: None,
        payload: Some("p1".to_string()),
        key: Some("k1".to_string()),
        header: Vec::new(),
    }
}

fn header(token: &str) -> MessageHeaderArg {
    MessageHeaderArg::from_str(token).expect("every token is a header")
}

fn abort_reason(reaction: &Reaction) -> &str {
    match &reaction.request {
        Request::Abort { reason } => reason,
        other => panic!("expected the producer to give up, got {other:?}"),
    }
}

#[test]
fn producer_starts_by_asking_for_its_client() {
    let (producer, reaction) = Producer::start(common(), keyed());
    assert!(matches!(producer, Producer::BuildingClient { .. }));
    assert!(reaction.lines.is_empty());
    match reaction.request {
        Request::BuildClient(config) => {
            assert_eq!(config.get("bootstrap.servers"), Some("localhost:9092"));
            assert_eq!(config.config_map().len(), 1);
        }
        other => panic!("expected a request for the client, got {other:?}"),
    }
}

#[test]
fn keyed_message_is_sent_and_confirmed() {
    let (producer, _) = Producer::start(common(), keyed());
    let (producer, reaction) = producer.step(Event::Done);
    assert!(matches!(producer, Producer::Sending));
    assert_eq!(
        reaction.lines,
        vec![
            "Built Kafka producer client".to_string(),
            "Sending message to Kafka: TOPIC=(t) KEY=(Some(\"k1\")) PARTITION=(None) \
             PAYLOAD=(Some(\"p1\")) HEADERS=(None)"
                .to_string(),
        ]
    );
    match reaction.request {
        Request::Send { record, timeout_secs } => {
            assert_eq!(record.topic, "t");
            assert_eq!(record.key.as_deref(), Some("k1"));
            assert_eq!(record.payload.as_deref(), Some("p1"));
            assert_eq!(record.partition, None);
            assert_eq!(record.timestamp, None);
            assert!(record.headers.is_none());
            assert_eq!(timeout_secs, 5);
        }
        other => panic!("expected a request to send, got {other:?}"),
    }
    let (producer, reaction) = producer.step(Event::Delivered { partition: 3, offset: 42 });
    assert!(matches!(producer, Producer::Finished));
    assert_eq!(reaction.lines, vec!["Message delivered to partition 3 with offset 42".to_string()]);
    assert!(reaction.lines[0].contains("3"));
    assert!(reaction.lines[0].contains("42"));
    assert!(matches!(reaction.request, Request::Exit));
}

#[test]
fn first_message_of_a_partition_is_confirmed_with_zeros() {
    assert_eq!(delivered_line_of(0, 0), "Message delivered to partition 0 with offset 0");
}

#[test]
fn timeout_is_five_seconds() {
    assert_eq!(SEND_TIMEOUT_SECS, 5);
}

#[test]
fn headers_go_out_in_the_order_given() {
    let args = ProducerArgs {
        partition: Some(1),
        payload: None,
        key: None,
        header: vec![header("a=1"), header("b=2")],
    };
    let (producer, _) = Producer::start(common(), args);
    let (_, reaction) = producer.step(Event::Done);
    assert_eq!(
        reaction.lines[1],
        "Sending message to Kafka: TOPIC=(t) KEY=(None) PARTITION=(Some(1)) PAYLOAD=(None) \
         HEADERS=(Some([(\"a\", Some(\"1\")), (\"b\", Some(\"2\"))]))"
    );
    match reaction.request {
        Request::Send { record, .. } => {
            let headers = record.headers.expect("two headers were given");
            assert_eq!(headers.count(), 2);
            assert_eq!((headers.get(0).key, headers.get(0).value), ("a", Some("1".as_bytes())));
            assert_eq!((headers.get(1).key, headers.get(1).value), ("b", Some("2".as_bytes())));
        }
        other => panic!("expected a request to send, got {other:?}"),
    }
}

#[test]
fn sending_line_shows_absent_and_empty_header_values() {
    let args = ProducerArgs {
        partition: None,
        payload: Some(String::new()),
        key: None,
        header: vec![header("flag"), header("flag="), header("a=b=c")],
    };
    assert_eq!(
        sending_line_of("topic", &args),
        "Sending message to Kafka: TOPIC=(topic) KEY=(None) PARTITION=(None) \
         PAYLOAD=(Some(\"\")) HEADERS=(Some([(\"flag\", None), (\"flag\", Some(\"\")), \
         (\"a=b\", Some(\"c\"))]))"
    );
}

#[test]
fn client_failure_is_fatal() {
    let (producer, _) = Producer::start(common(), keyed());
    let (producer, reaction) = producer.step(Event::Failed);
    assert!(matches!(producer, Producer::Failed));
    assert!(reaction.lines.is_empty());
    assert_eq!(abort_reason(&reaction), "failed to create Kafka producer");
}

#[test]
fn delivery_failure_is_fatal() {
    let (producer, _) = Producer::start(common(), keyed());
    let (producer, _) = producer.step(Event::Done);
    let (producer, reaction) = producer.step(Event::Failed);
    assert!(matches!(producer, Producer::Failed));
    assert!(reaction.lines.is_empty());
    assert_eq!(abort_reason(&reaction), "failed to deliver the message");
}

#[test]
fn header_name_with_nul_is_fatal_before_anything_is_sent() {
    let args = ProducerArgs {
        partition: None,
        payload: None,
        key: None,
        header: vec![header("a\0b=1")],
    };
    let (producer, _) = Producer::start(common(), args);
    let (producer, reaction) = producer.step(Event::Done);
    assert!(matches!(producer, Producer::Failed));
    assert_eq!(reaction.lines, vec!["Built Kafka producer client".to_string()]);
    assert_eq!(
        abort_reason(&reaction),
        "failed to attach the headers: a name holds a NUL character, or they are too many"
    );
}

#[test]
fn events_out_of_turn_are_fatal() {
    let (producer, _) = Producer::start(common(), keyed());
    let (producer, reaction) = producer.step(Event::Delivered { partition: 0, offset: 0 });
    assert!(matches!(producer, Producer::Failed));
    assert_eq!(abort_reason(&reaction), "unexpected event");

    let (producer, _) = Producer::start(common(), keyed());
    let (producer, _) = producer.step(Event::Done);
    let (producer, reaction) = producer.step(Event::Done);
    assert!(matches!(producer, Producer::Failed));
    assert_eq!(abort_reason(&reaction), "unexpected event");
}

#[test]
fn stopped_producer_stays_stopped() {
    let (producer, _) = Producer::start(common(), keyed());
    let (producer, _) = producer.step(Event::Done);
    let (producer, _) = producer.step(Event::Delivered { partition: 0, offset: 9 });
    let (producer, reaction) = producer.step(Event::Done);
    assert!(matches!(producer, Producer::Finished));
    assert!(reaction.lines.is_empty());
    assert!(matches!(reaction.request, Request::Exit));

    let (producer, _) = Producer::start(common(), keyed());
    let (producer, _) = producer.step(Event::Failed);
    let (producer, reaction) = producer.step(Event::Done);
    assert!(matches!(producer, Producer::Failed));
    assert!(matches!(reaction.request, Request::Abort { .. }));
}

#[test]
fn two_runs_are_two_sends() {
    let mut offsets = Vec::new();
    for offset in [10_i64, 11] {
        let (producer, _) = Producer::start(common(), keyed());
        let (producer, reaction) = producer.step(Event::Done);
        match reaction.request {
            Request::Send { record, .. } => {
                assert_eq!(record.key.as_deref(), Some("k1"));
                assert_eq!(record.payload.as_deref(), Some("p1"));
            }
            other => panic!("expected a request to send, got {other:?}"),
        }
        let (_, reaction) = producer.step(Event::Delivered { partition: 0, offset });
        offsets.push(reaction.lines[0].clone());
    }
    assert_eq!(
        offsets,
        vec![
            "Message delivered to partition 0 with offset 10".to_string(),
            "Message delivered to partition 0 with offset 11".to_string(),
        ]
    );
}
