//! The consumer: it subscribes to one topic, prints and commits each
//! message, and on the termination signal gives its partitions back and
//! leaves. The driver carries out the requests; what to ask for is decided
//! here.

use crate::args::{CommonArgs, CommonArgsView, ConsumerArgs};
use crate::bindings::config_entries;
use crate::config::{consumer_config, consumer_parameters};
use crate::message::{received_line, IncomingMessage, MessageView};
use crate::text::{no_lines, one_line, texts, two_lines};
use rdkafka::config::ClientConfig;
use vstd::prelude::*;
use vstd::string::*;

pub mod laws;

verus! {

/// Whether a commit waits for the broker's answer.
#[derive(Debug, Clone, Copy, PartialEq, Eq)]
pub enum CommitMode {
    /// The call returns once the broker has answered.
    Sync,
    /// The call hands the offset over and returns at once.
    Async,
}

/// What the driver reports back after it has carried out a request.
#[derive(Debug, Clone)]
pub enum Event {
    /// The request was carried out.
    Done,
    /// The request failed.
    Failed,
    /// The wait ended with a message.
    Message(IncomingMessage),
    /// The wait ended with the termination signal.
    Terminate,
}

/// What an event holds.
pub ghost enum EventView {
    Done,
    Failed,
    Message(MessageView),
    Terminate,
}

impl View for Event {
    type V = EventView;

    open spec fn view(&self) -> EventView {
        match *self {
            Event::Done => EventView::Done,
            Event::Failed => EventView::Failed,
            Event::Message(message) => EventView::Message(message@),
            Event::Terminate => EventView::Terminate,
        }
    }
}

/// What the consumer asks its driver to do next.
#[derive(Debug)]
pub enum Request {
    /// Install the handler for the termination signal.
    ArmSignal,
    /// Build the client from this configuration.
    BuildClient(ClientConfig),
    /// Subscribe to the topic, and to no other.
    Subscribe { topic: String },
    /// Wait for the next message or for the termination signal, whichever
    /// comes first.
    Receive,
    /// Commit the offset of the message that was just received.
    Commit { topic: String, partition: i32, offset: i64, mode: CommitMode },
    /// Give the assigned partitions back.
    Unassign,
    /// Leave with success.
    Exit,
    /// Leave with a failure, for the reason given.
    Abort { reason: String },
}

/// What a request holds.
pub ghost enum RequestView {
    ArmSignal,
    BuildClient(Map<Seq<char>, Seq<char>>),
    Subscribe { topic: Seq<char> },
    Receive,
    Commit { topic: Seq<char>, partition: i32, offset: i64, mode: CommitMode },
    Unassign,
    Exit,
    Abort { reason: Seq<char> },
}

impl View for Request {
    type V = RequestView;

    open spec fn view(&self) -> RequestView {
        match *self {
            Request::ArmSignal => RequestView::ArmSignal,
            Request::BuildClient(config) => RequestView::BuildClient(config_entries(config)),
            Request::Subscribe { topic } => RequestView::Subscribe { topic: topic@ },
            Request::Receive => RequestView::Receive,
            Request::Commit { topic, partition, offset, mode } => RequestView::Commit {
                topic: topic@,
                partition,
                offset,
                mode,
            },
            Request::Unassign => RequestView::Unassign,
            Request::Exit => RequestView::Exit,
            Request::Abort { reason } => RequestView::Abort { reason: reason@ },
        }
    }
}

/// The consumer's answer to an event: lines to print, then a request.
#[derive(Debug)]
pub struct Reaction {
    pub lines: Vec<String>,
    pub request: Request,
}

/// What a reaction holds.
pub ghost struct ReactionView {
    pub lines: Seq<Seq<char>>,
    pub request: RequestView,
}

impl View for Reaction {
    type V = ReactionView;

    open spec fn view(&self) -> ReactionView {
        ReactionView { lines: texts(self.lines@), request: self.request@ }
    }
}

/// The consumer, by what it is waiting for.
#[derive(Debug, Clone)]
pub enum Consumer {
    /// The signal handler is being installed.
    ArmingSignal { common: CommonArgs, args: ConsumerArgs },
    /// The client is being built.
    BuildingClient { topic: String },
    /// The subscription is being made.
    Subscribing,
    /// The consumer waits for a message or for the termination signal.
    Receiving,
    /// The offset of the last message is being handed over.
    Committing,
    /// The termination signal came; the partitions are being given back.
    Draining,
    /// The consumer has left in good order.
    Finished,
    /// Something failed; nothing more is done.
    Failed,
}

/// What a consumer holds.
pub ghost enum ConsumerView {
    ArmingSignal { common: CommonArgsView, group: Seq<char> },
    BuildingClient { topic: Seq<char> },
    Subscribing,
    Receiving,
    Committing,
    Draining,
    Finished,
    Failed,
}

impl View for Consumer {
    type V = ConsumerView;

    open spec fn view(&self) -> ConsumerView {
        match *self {
            Consumer::ArmingSignal { common, args } => ConsumerView::ArmingSignal {
                common: common@,
                group: args@.group_id,
            },
            Consumer::BuildingClient { topic } => ConsumerView::BuildingClient { topic: topic@ },
            Consumer::Subscribing => ConsumerView::Subscribing,
            Consumer::Receiving => ConsumerView::Receiving,
            Consumer::Committing => ConsumerView::Committing,
            Consumer::Draining => ConsumerView::Draining,
            Consumer::Finished => ConsumerView::Finished,
            Consumer::Failed => ConsumerView::Failed,
        }
    }
}

/// The stretch of its life that a consumer is in.
#[derive(Debug, Clone, Copy, PartialEq, Eq)]
pub enum Phase {
    /// Setting up: signal handler, client, subscription.
    Starting,
    /// Receiving and committing messages.
    Running,
    /// Giving the partitions back after the termination signal.
    Draining,
    /// Over, in good order or not.
    Stopped,
}

/// The phase of each state.
pub open spec fn phase(state: ConsumerView) -> Phase {
    match state {
        ConsumerView::ArmingSignal { .. } => Phase::Starting,
        ConsumerView::BuildingClient { .. } => Phase::Starting,
        ConsumerView::Subscribing => Phase::Starting,
        ConsumerView::Receiving => Phase::Running,
        ConsumerView::Committing => Phase::Running,
        ConsumerView::Draining => Phase::Draining,
        ConsumerView::Finished => Phase::Stopped,
        ConsumerView::Failed => Phase::Stopped,
    }
}

/// The line that reports that the client was built.
pub const CLIENT_BUILT: &'static str = "Built Kafka consumer client";

/// The line that reports the subscription.
pub const SUBSCRIBED: &'static str = "Subscribed to the topic";

/// The line that gives the reason for shutting down.
pub const TERMINATING: &'static str = "Received SIGTERM, exiting";

/// Why the consumer gives up when the signal handler cannot be installed.
pub const SIGNAL_FAILURE: &'static str = "failed to prepare signal handler";

/// Why the consumer gives up when the client cannot be built.
pub const CLIENT_FAILURE: &'static str = "failed to create Kafka consumer";

/// Why the consumer gives up when the subscription is refused.
pub const SUBSCRIPTION_FAILURE: &'static str = "failed to subscribe to the topic";

/// Why the consumer gives up when the wait for a message fails.
pub const RECEIVE_FAILURE: &'static str = "failed to receive the next message from Kafka";

/// Why the consumer gives up when an offset cannot be committed.
pub const COMMIT_FAILURE: &'static str = "failed to commit message";

/// Why the consumer gives up when the partitions cannot be given back.
pub const UNASSIGN_FAILURE: &'static str = "failed to unassign the consumer before exit";

/// Why the consumer gives up on an event that answers no request of its
/// state.
pub const PROTOCOL_FAILURE: &'static str = "unexpected event";

/// The line that announces the subscription.
pub open spec fn subscribing_line(topic: Seq<char>) -> Seq<char> {
    "Subscribing to topic "@ + topic
}

/// The reaction that gives up.
pub open spec fn aborting(reason: Seq<char>) -> ReactionView {
    ReactionView { lines: Seq::empty(), request: RequestView::Abort { reason } }
}

/// The reaction that prints nothing and makes a request.
pub open spec fn asking(request: RequestView) -> ReactionView {
    ReactionView { lines: Seq::empty(), request }
}

/// How the consumer starts: by asking for the signal handler, before
/// anything else.
pub open spec fn launch(common: CommonArgsView, group: Seq<char>) -> (ConsumerView, ReactionView) {
    (ConsumerView::ArmingSignal { common, group }, asking(RequestView::ArmSignal))
}

/// The consumer's next state and its reaction, for each state and event.
pub open spec fn react(state: ConsumerView, event: EventView) -> (ConsumerView, ReactionView) {
    match state {
        ConsumerView::ArmingSignal { common, group } => match event {
            EventView::Done => (
                ConsumerView::BuildingClient { topic: common.topic },
                asking(
                    RequestView::BuildClient(consumer_parameters(common.bootstrap_servers, group)),
                ),
            ),
            EventView::Failed => (ConsumerView::Failed, aborting(SIGNAL_FAILURE@)),
            _ => (ConsumerView::Failed, aborting(PROTOCOL_FAILURE@)),
        },
        ConsumerView::BuildingClient { topic } => match event {
            EventView::Done => (
                ConsumerView::Subscribing,
                ReactionView {
                    lines: seq![CLIENT_BUILT@, subscribing_line(topic)],
                    request: RequestView::Subscribe { topic },
                },
            ),
            EventView::Failed => (ConsumerView::Failed, aborting(CLIENT_FAILURE@)),
            _ => (ConsumerView::Failed, aborting(PROTOCOL_FAILURE@)),
        },
        ConsumerView::Subscribing => match event {
            EventView::Done => (
                ConsumerView::Receiving,
                ReactionView { lines: seq![SUBSCRIBED@], request: RequestView::Receive },
            ),
            EventView::Failed => (ConsumerView::Failed, aborting(SUBSCRIPTION_FAILURE@)),
            _ => (ConsumerView::Failed, aborting(PROTOCOL_FAILURE@)),
        },
        ConsumerView::Receiving => match event {
            EventView::Message(message) => (
                ConsumerView::Committing,
                ReactionView {
                    lines: seq![received_line(message)],
                    request: RequestView::Commit {
                        topic: message.topic,
                        partition: message.partition,
                        offset: message.offset,
                        mode: CommitMode::Async,
                    },
                },
            ),
            EventView::Terminate => (
                ConsumerView::Draining,
                ReactionView { lines: seq![TERMINATING@], request: RequestView::Unassign },
            ),
            EventView::Failed => (ConsumerView::Failed, aborting(RECEIVE_FAILURE@)),
            EventView::Done => (ConsumerView::Failed, aborting(PROTOCOL_FAILURE@)),
        },
        ConsumerView::Committing => match event {
            EventView::Done => (ConsumerView::Receiving, asking(RequestView::Receive)),
            EventView::Failed => (ConsumerView::Failed, aborting(COMMIT_FAILURE@)),
            _ => (ConsumerView::Failed, aborting(PROTOCOL_FAILURE@)),
        },
        ConsumerView::Draining => match event {
            EventView::Done => (ConsumerView::Finished, asking(RequestView::Exit)),
            EventView::Failed => (ConsumerView::Failed, aborting(UNASSIGN_FAILURE@)),
            _ => (ConsumerView::Failed, aborting(PROTOCOL_FAILURE@)),
        },
        ConsumerView::Finished => (ConsumerView::Finished, asking(RequestView::Exit)),
        ConsumerView::Failed => (ConsumerView::Failed, aborting(PROTOCOL_FAILURE@)),
    }
}

fn reaction_of(lines: Vec<String>, request: Request) -> (reaction: Reaction)
    ensures
        reaction@ == (ReactionView { lines: texts(lines@), request: request@ }),
{
    Reaction { lines, request }
}

fn ask(request: Request) -> (reaction: Reaction)
    ensures
        reaction@ == asking(request@),
{
    reaction_of(no_lines(), request)
}

fn abort(reason: &str) -> (reaction: Reaction)
    ensures
        reaction@ == aborting(reason@),
{
    ask(Request::Abort { reason: reason.to_owned() })
}

fn say(line: String, request: Request) -> (reaction: Reaction)
    ensures
        reaction@ == (ReactionView { lines: seq![line@], request: request@ }),
{
    reaction_of(one_line(line), request)
}

impl Consumer {
    /// The phase that the consumer is in.
    pub fn phase(&self) -> (current: Phase)
        ensures
            current == phase(self@),
    {
        match self {
            Consumer::ArmingSignal { .. } => Phase::Starting,
            Consumer::BuildingClient { .. } => Phase::Starting,
            Consumer::Subscribing => Phase::Starting,
            Consumer::Receiving => Phase::Running,
            Consumer::Committing => Phase::Running,
            Consumer::Draining => Phase::Draining,
            Consumer::Finished => Phase::Stopped,
            Consumer::Failed => Phase::Stopped,
        }
    }

    /// Starts a consumer for the given arguments.
    pub fn start(common: CommonArgs, args: ConsumerArgs) -> (started: (Consumer, Reaction))
        ensures
            (started.0@, started.1@) == launch(common@, args@.group_id),
    {
        (Consumer::ArmingSignal { common, args }, ask(Request::ArmSignal))
    }

    /// Takes the outcome of the last request and says what to do next.
    pub fn step(self, event: Event) -> (next: (Consumer, Reaction))
        ensures
            (next.0@, next.1@) == react(self@, event@),
    {
        match self {
            Consumer::ArmingSignal { common, args } => match event {
                Event::Done => {
                    let config = consumer_config(&common, &args);
                    (
                        Consumer::BuildingClient { topic: common.kafka_topic_name },
                        ask(Request::BuildClient(config)),
                    )
                },
                Event::Failed => (Consumer::Failed, abort(SIGNAL_FAILURE)),
                _ => (Consumer::Failed, abort(PROTOCOL_FAILURE)),
            },
            Consumer::BuildingClient { topic } => match event {
                Event::Done => {
                    let mut announcement = "Subscribing to topic ".to_owned();
                    announcement.append(topic.as_str());
                    let lines = two_lines(CLIENT_BUILT.to_owned(), announcement);
                    (Consumer::Subscribing, reaction_of(lines, Request::Subscribe { topic }))
                },
                Event::Failed => (Consumer::Failed, abort(CLIENT_FAILURE)),
                _ => (Consumer::Failed, abort(PROTOCOL_FAILURE)),
            },
            Consumer::Subscribing => match event {
                Event::Done => (Consumer::Receiving, say(SUBSCRIBED.to_owned(), Request::Receive)),
                Event::Failed => (Consumer::Failed, abort(SUBSCRIPTION_FAILURE)),
                _ => (Consumer::Failed, abort(PROTOCOL_FAILURE)),
            },
            Consumer::Receiving => match event {
                Event::Message(message) => {
                    let line = message.report();
                    let request = Request::Commit {
                        topic: message.topic,
                        partition: message.partition,
                        offset: message.offset,
                        mode: CommitMode::Async,
                    };
                    (Consumer::Committing, say(line, request))
                },
                Event::Terminate => (
                    Consumer::Draining,
                    say(TERMINATING.to_owned(), Request::Unassign),
                ),
                Event::Failed => (Consumer::Failed, abort(RECEIVE_FAILURE)),
                Event::Done => (Consumer::Failed, abort(PROTOCOL_FAILURE)),
            },
            Consumer::Committing => match event {
                Event::Done => (Consumer::Receiving, ask(Request::Receive)),
                Event::Failed => (Consumer::Failed, abort(COMMIT_FAILURE)),
                _ => (Consumer::Failed, abort(PROTOCOL_FAILURE)),
            },
            Consumer::Draining => match event {
                Event::Done => (Consumer::Finished, ask(Request::Exit)),
                Event::Failed => (Consumer::Failed, abort(UNASSIGN_FAILURE)),
                _ => (Consumer::Failed, abort(PROTOCOL_FAILURE)),
            },
            Consumer::Finished => (Consumer::Finished, ask(Request::Exit)),
            Consumer::Failed => (Consumer::Failed, abort(PROTOCOL_FAILURE)),
        }
    }
}

} // verus!
