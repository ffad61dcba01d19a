//! The arguments of the two commands, as plain values.

use crate::header::{HeaderArgView, MessageHeaderArg};
use vstd::prelude::*;

verus! {

/// What both commands need: the topic and the brokers to contact first.
#[derive(Debug, Clone)]
pub struct CommonArgs {
    pub kafka_topic_name: String,
    pub kafka_bootstrap_servers: String,
}

/// What the producer command takes.
#[derive(Debug, Clone)]
pub struct ProducerArgs {
    /// The partition to write to; the broker picks one where none is given.
    pub partition: Option<i32>,
    pub payload: Option<String>,
    pub key: Option<String>,
    /// The headers, in the order in which they were given.
    pub header: Vec<MessageHeaderArg>,
}

/// What the consumer command takes.
#[derive(Debug, Clone)]
pub struct ConsumerArgs {
    pub kafka_group_id: String,
}

/// The text of an optional string.
pub open spec fn text_of(value: Option<String>) -> Option<Seq<char>> {
    match value {
        Some(text) => Some(text@),
        None => None,
    }
}

/// The headers of a list of header arguments, one for one.
pub open spec fn header_views(args: Seq<MessageHeaderArg>) -> Seq<HeaderArgView> {
    Seq::new(args.len(), |i: int| args[i]@)
}

/// What the common arguments hold.
pub ghost struct CommonArgsView {
    pub topic: Seq<char>,
    pub bootstrap_servers: Seq<char>,
}

/// What the producer's arguments hold.
pub ghost struct ProducerArgsView {
    pub partition: Option<i32>,
    pub payload: Option<Seq<char>>,
    pub key: Option<Seq<char>>,
    pub header: Seq<HeaderArgView>,
}

/// What the consumer's arguments hold.
pub ghost struct ConsumerArgsView {
    pub group_id: Seq<char>,
}

impl View for CommonArgs {
    type V = CommonArgsView;

    open spec fn view(&self) -> CommonArgsView {
        CommonArgsView {
            topic: self.kafka_topic_name@,
            bootstrap_servers: self.kafka_bootstrap_servers@,
        }
    }
}

impl View for ProducerArgs {
    type V = ProducerArgsView;

    open spec fn view(&self) -> ProducerArgsView {
        ProducerArgsView {
            partition: self.partition,
            payload: text_of(self.payload),
            key: text_of(self.key),
            header: header_views(self.header@),
        }
    }
}

impl View for ConsumerArgs {
    type V = ConsumerArgsView;

    open spec fn view(&self) -> ConsumerArgsView {
        ConsumerArgsView { group_id: self.kafka_group_id@ }
    }
}

} // verus!
