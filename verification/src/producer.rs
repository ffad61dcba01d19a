//! The producer: it sends one message and reports where the broker put
//! it. The driver carries out the requests; what to ask for is decided here.

use crate::args::{header_views, CommonArgs, CommonArgsView, ProducerArgs, ProducerArgsView};
use crate::bindings::config_entries;
use crate::config::{producer_config, producer_parameters};
use crate::header::{HeaderArgView, MessageHeaderArg};
use crate::record::{attachable, can_attach, record_for, OutgoingRecord, RecordView};
use crate::text::{
    decimal, decimal_text, listed_text, no_lines, one_line, optional_text, shown_number,
    shown_number_of, shown_text, shown_text_entries, shown_text_header_of, shown_text_headers,
    shown_text_of, texts, two_lines,
};
use rdkafka::config::ClientConfig;
use vstd::prelude::*;
use vstd::string::*;

pub mod laws;

verus! {

/// How many seconds the producer waits for the broker to acknowledge the
/// message.
pub const SEND_TIMEOUT_SECS: u64 = 5;

/// What the driver reports back after it has carried out a request.
#[derive(Debug, Clone, Copy)]
pub enum Event {
    /// The request was carried out.
    Done,
    /// The request failed, or timed out.
    Failed,
    /// The broker acknowledged the message.
    Delivered { partition: i32, offset: i64 },
}

/// What the producer asks its driver to do next.
#[derive(Debug)]
pub enum Request {
    /// Build the client from this configuration.
    BuildClient(ClientConfig),
    /// Send the record and wait for the acknowledgment, no longer than the
    /// timeout.
    Send { record: OutgoingRecord, timeout_secs: u64 },
    /// Leave with success.
    Exit,
    /// Leave with a failure, for the reason given.
    Abort { reason: String },
}

/// What a request holds.
pub ghost enum RequestView {
    BuildClient(Map<Seq<char>, Seq<char>>),
    Send { record: RecordView, timeout_secs: u64 },
    Exit,
    Abort { reason: Seq<char> },
}

impl View for Request {
    type V = RequestView;

    open spec fn view(&self) -> RequestView {
        match *self {
            Request::BuildClient(config) => RequestView::BuildClient(config_entries(config)),
            Request::Send { record, timeout_secs } => RequestView::Send {
                record: record@,
                timeout_secs,
            },
            Request::Exit => RequestView::Exit,
            Request::Abort { reason } => RequestView::Abort { reason: reason@ },
        }
    }
}

/// The producer's answer to an event: lines to print, then a request.
#[derive(Debug)]
pub struct Reaction {
    pub lines: Vec<String>,
    pub request: Request,
}

/// What a reaction holds.
pub ghost struct ReactionView {
    pub lines: Seq<Seq<char>>,
    pub request: RequestView,
}

impl View for Reaction {
    type V = ReactionView;

    open spec fn view(&self) -> ReactionView {
        ReactionView { lines: texts(self.lines@), request: self.request@ }
    }
}

/// The producer, by what it is waiting for.
#[derive(Debug, Clone)]
pub enum Producer {
    /// The client is being built; the message is not assembled yet.
    BuildingClient { topic: String, args: ProducerArgs },
    /// The message was handed to the client.
    Sending,
    /// The message was delivered.
    Finished,
    /// Something failed; nothing more is done.
    Failed,
}

/// What a producer holds.
pub ghost enum ProducerView {
    BuildingClient { topic: Seq<char>, args: ProducerArgsView },
    Sending,
    Finished,
    Failed,
}

impl View for Producer {
    type V = ProducerView;

    open spec fn view(&self) -> ProducerView {
        match *self {
            Producer::BuildingClient { topic, args } => ProducerView::BuildingClient {
                topic: topic@,
                args: args@,
            },
            Producer::Sending => ProducerView::Sending,
            Producer::Finished => ProducerView::Finished,
            Producer::Failed => ProducerView::Failed,
        }
    }
}

/// The line that reports that the client was built.
pub const CLIENT_BUILT: &'static str = "Built Kafka producer client";

/// Why the producer gives up when the client cannot be built.
pub const CLIENT_FAILURE: &'static str = "failed to create Kafka producer";

/// Why the producer gives up when the message is not acknowledged.
pub const DELIVERY_FAILURE: &'static str = "failed to deliver the message";

/// Why the producer gives up when the client would not take the headers.
pub const HEADER_FAILURE: &'static str =
    "failed to attach the headers: a name holds a NUL character, or they are too many";

/// Why the producer gives up on an event that answers no request of its
/// state.
pub const PROTOCOL_FAILURE: &'static str = "unexpected event";

/// The headers of the arguments as pairs of a name and an optional text.
pub open spec fn header_pairs(headers: Seq<HeaderArgView>) -> Seq<(Seq<char>, Option<Seq<char>>)> {
    Seq::new(headers.len(), |i: int| (headers[i].name, headers[i].value))
}

/// The line that reports the message that is about to be sent.
pub open spec fn sending_line(topic: Seq<char>, args: ProducerArgsView) -> Seq<char> {
    "Sending message to Kafka: TOPIC=("@ + topic + ") KEY=("@ + shown_text(args.key)
        + ") PARTITION=("@ + shown_number(
        match args.partition {
            Some(partition) => Some(partition as int),
            None => None,
        },
    ) + ") PAYLOAD=("@ + shown_text(args.payload) + ") HEADERS=("@ + shown_text_headers(
        header_pairs(args.header),
    ) + ")"@
}

/// The line that confirms a delivery.
pub open spec fn delivered_line(partition: i32, offset: i64) -> Seq<char> {
    "Message delivered to partition "@ + decimal(partition as int) + " with offset "@ + decimal(
        offset as int,
    )
}

/// The reaction that prints the lines and gives up.
pub open spec fn aborting(lines: Seq<Seq<char>>, reason: Seq<char>) -> ReactionView {
    ReactionView { lines, request: RequestView::Abort { reason } }
}

/// How the producer starts: by asking for its client.
pub open spec fn launch(common: CommonArgsView, args: ProducerArgsView) -> (
    ProducerView,
    ReactionView,
) {
    (
        ProducerView::BuildingClient { topic: common.topic, args },
        ReactionView {
            lines: Seq::empty(),
            request: RequestView::BuildClient(producer_parameters(common.bootstrap_servers)),
        },
    )
}

/// The producer's next state and its reaction, for each state and event.
pub open spec fn react(state: ProducerView, event: Event) -> (ProducerView, ReactionView) {
    match state {
        ProducerView::BuildingClient { topic, args } => match event {
            Event::Done => if attachable(args.header) {
                (
                    ProducerView::Sending,
                    ReactionView {
                        lines: seq![CLIENT_BUILT@, sending_line(topic, args)],
                        request: RequestView::Send {
                            record: record_for(topic, args),
                            timeout_secs: SEND_TIMEOUT_SECS,
                        },
                    },
                )
            } else {
                (ProducerView::Failed, aborting(seq![CLIENT_BUILT@], HEADER_FAILURE@))
            },
            Event::Failed => (ProducerView::Failed, aborting(Seq::empty(), CLIENT_FAILURE@)),
            Event::Delivered { .. } => (
                ProducerView::Failed,
                aborting(Seq::empty(), PROTOCOL_FAILURE@),
            ),
        },
        ProducerView::Sending => match event {
            Event::Delivered { partition, offset } => (
                ProducerView::Finished,
                ReactionView {
                    lines: seq![delivered_line(partition, offset)],
                    request: RequestView::Exit,
                },
            ),
            Event::Failed => (ProducerView::Failed, aborting(Seq::empty(), DELIVERY_FAILURE@)),
            Event::Done => (ProducerView::Failed, aborting(Seq::empty(), PROTOCOL_FAILURE@)),
        },
        ProducerView::Finished => (
            ProducerView::Finished,
            ReactionView { lines: Seq::empty(), request: RequestView::Exit },
        ),
        ProducerView::Failed => (ProducerView::Failed, aborting(Seq::empty(), PROTOCOL_FAILURE@)),
    }
}

/// Shows the headers that go out with a message.
pub fn outgoing_headers_text(args: &Vec<MessageHeaderArg>) -> (text: String)
    ensures
        text@ == shown_text_headers(header_pairs(header_views(args@))),
{
    if args.len() == 0 {
        return optional_text(None);
    }
    let ghost pairs = header_pairs(header_views(args@));
    let mut items: Vec<String> = Vec::new();
    let mut done: usize = 0;
    while done < args.len()
        invariant
            done <= args.len(),
            items@.len() == done,
            pairs == header_pairs(header_views(args@)),
            forall|i: int| 0 <= i < done ==> (#[trigger] items@[i])@ == shown_text_entries(pairs)[i],
        decreases args.len() - done,
    {
        let arg = &args[done];
        assert(header_views(args@)[done as int] == arg@);
        items.push(shown_text_header_of(arg.name.as_str(), &arg.value));
        done = done + 1;
    }
    let list = listed_text(&items);
    assert(texts(items@) =~= shown_text_entries(pairs));
    optional_text(Some(list))
}

/// Writes the line that reports the message that is about to be sent.
pub fn sending_line_of(topic: &str, args: &ProducerArgs) -> (line: String)
    ensures
        line@ == sending_line(topic@, args@),
{
    let mut line = "Sending message to Kafka: TOPIC=(".to_owned();
    line.append(topic);
    line.append(") KEY=(");
    line.append(shown_text_of(&args.key).as_str());
    line.append(") PARTITION=(");
    line.append(shown_number_of(args.partition).as_str());
    line.append(") PAYLOAD=(");
    line.append(shown_text_of(&args.payload).as_str());
    line.append(") HEADERS=(");
    line.append(outgoing_headers_text(&args.header).as_str());
    line.append(")");
    line
}

/// Writes the line that confirms a delivery.
pub fn delivered_line_of(partition: i32, offset: i64) -> (line: String)
    ensures
        line@ == delivered_line(partition, offset),
{
    let mut line = "Message delivered to partition ".to_owned();
    line.append(decimal_text(partition as i64).as_str());
    line.append(" with offset ");
    line.append(decimal_text(offset).as_str());
    line
}

fn reaction_of(lines: Vec<String>, request: Request) -> (reaction: Reaction)
    ensures
        reaction@ == (ReactionView { lines: texts(lines@), request: request@ }),
{
    Reaction { lines, request }
}

fn abort(lines: Vec<String>, reason: &str) -> (reaction: Reaction)
    ensures
        reaction@ == aborting(texts(lines@), reason@),
{
    reaction_of(lines, Request::Abort { reason: reason.to_owned() })
}

impl Producer {
    /// Starts a producer for the given arguments.
    pub fn start(common: CommonArgs, args: ProducerArgs) -> (started: (Producer, Reaction))
        ensures
            (started.0@, started.1@) == launch(common@, args@),
    {
        let config = producer_config(&common);
        (
            Producer::BuildingClient { topic: common.kafka_topic_name, args },
            reaction_of(no_lines(), Request::BuildClient(config)),
        )
    }

    /// Takes the outcome of the last request and says what to do next.
    pub fn step(self, event: Event) -> (next: (Producer, Reaction))
        ensures
            (next.0@, next.1@) == react(self@, event),
    {
        match self {
            Producer::BuildingClient { topic, args } => match event {
                Event::Done => {
                    if can_attach(&args.header) {
                        let lines = two_lines(
                            CLIENT_BUILT.to_owned(),
                            sending_line_of(topic.as_str(), &args),
                        );
                        let record = OutgoingRecord::assemble(topic, args);
                        let request = Request::Send { record, timeout_secs: SEND_TIMEOUT_SECS };
                        (Producer::Sending, reaction_of(lines, request))
                    } else {
                        (
                            Producer::Failed,
                            abort(one_line(CLIENT_BUILT.to_owned()), HEADER_FAILURE),
                        )
                    }
                },
                Event::Failed => (Producer::Failed, abort(no_lines(), CLIENT_FAILURE)),
                Event::Delivered { .. } => (Producer::Failed, abort(no_lines(), PROTOCOL_FAILURE)),
            },
            Producer::Sending => match event {
                Event::Delivered { partition, offset } => (
                    Producer::Finished,
                    reaction_of(one_line(delivered_line_of(partition, offset)), Request::Exit),
                ),
                Event::Failed => (Producer::Failed, abort(no_lines(), DELIVERY_FAILURE)),
                Event::Done => (Producer::Failed, abort(no_lines(), PROTOCOL_FAILURE)),
            },
            Producer::Finished => (Producer::Finished, reaction_of(no_lines(), Request::Exit)),
            Producer::Failed => (Producer::Failed, abort(no_lines(), PROTOCOL_FAILURE)),
        }
    }
}

} // verus!
