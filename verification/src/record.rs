//! The record that the producer sends, and its headers.

use crate::args::{header_views, text_of, ProducerArgs, ProducerArgsView};
use crate::bindings::{count_headers, header_entries, insert_header, new_headers, MAX_HEADERS};
use crate::header::{HeaderArgView, MessageHeaderArg};
use crate::text::holds_char;
use rdkafka::message::OwnedHeaders;
use vstd::prelude::*;
use vstd::utf8::encode_utf8;

verus! {

/// One message on its way to the broker. It is made for one send and not
/// used again.
#[derive(Debug)]
pub struct OutgoingRecord {
    pub topic: String,
    pub partition: Option<i32>,
    pub payload: Option<String>,
    pub key: Option<String>,
    /// The creation time to record; this tool leaves it to the broker.
    pub timestamp: Option<i64>,
    /// The headers, or `None` where the message has none: never an empty
    /// collection.
    pub headers: Option<OwnedHeaders>,
}

/// What an outgoing record holds.
pub ghost struct RecordView {
    pub topic: Seq<char>,
    pub partition: Option<i32>,
    pub payload: Option<Seq<char>>,
    pub key: Option<Seq<char>>,
    pub timestamp: Option<i64>,
    pub headers: Option<Seq<(Seq<char>, Option<Seq<u8>>)>>,
}

impl View for OutgoingRecord {
    type V = RecordView;

    open spec fn view(&self) -> RecordView {
        RecordView {
            topic: self.topic@,
            partition: self.partition,
            payload: text_of(self.payload),
            key: text_of(self.key),
            timestamp: self.timestamp,
            headers: match self.headers {
                Some(headers) => Some(header_entries(headers)),
                None => None,
            },
        }
    }
}

impl RecordView {
    /// Whether the record is one that this tool sends: without a timestamp,
    /// and with headers only where there is at least one.
    pub open spec fn well_formed(self) -> bool {
        &&& self.timestamp is None
        &&& self.headers is Some ==> self.headers->0.len() > 0
    }
}

/// The header that goes on the wire for one header argument: its name, and
/// the bytes of its value where it has one.
pub open spec fn wire_header(arg: HeaderArgView) -> (Seq<char>, Option<Seq<u8>>) {
    (
        arg.name,
        match arg.value {
            Some(text) => Some(encode_utf8(text)),
            None => None,
        },
    )
}

/// The headers that go on the wire for a list of header arguments: one for
/// each, in the same order.
pub open spec fn wire_headers(args: Seq<HeaderArgView>) -> Seq<(Seq<char>, Option<Seq<u8>>)> {
    Seq::new(args.len(), |i: int| wire_header(args[i]))
}

/// Whether the client takes these headers: no name holds a NUL character,
/// and they are no more than `MAX_HEADERS`.
pub open spec fn attachable(args: Seq<HeaderArgView>) -> bool {
    &&& args.len() <= MAX_HEADERS
    &&& forall|i: int| 0 <= i < args.len() ==> !(#[trigger] args[i]).name.contains('\0')
}

/// The record that is sent for the given topic and arguments.
pub open spec fn record_for(topic: Seq<char>, args: ProducerArgsView) -> RecordView {
    RecordView {
        topic,
        partition: args.partition,
        payload: args.payload,
        key: args.key,
        timestamp: None,
        headers: if args.header.len() == 0 {
            None
        } else {
            Some(wire_headers(args.header))
        },
    }
}

/// The record for given arguments is well formed. It has no headers exactly
/// where no header was given, and else as many as were given, each in the
/// place in which it was given.
pub proof fn lemma_record_keeps_the_headers(topic: Seq<char>, args: ProducerArgsView)
    ensures
        record_for(topic, args).well_formed(),
        record_for(topic, args).headers is None <==> args.header.len() == 0,
        record_for(topic, args).headers is Some ==> {
            let headers = record_for(topic, args).headers->0;
            &&& headers.len() == args.header.len()
            &&& forall|i: int|
                0 <= i < headers.len() ==> #[trigger] headers[i] == wire_header(args.header[i])
        },
{
}

/// Tests whether the client takes these headers.
pub fn can_attach(args: &Vec<MessageHeaderArg>) -> (accepted: bool)
    ensures
        accepted == attachable(header_views(args@)),
{
    if args.len() > MAX_HEADERS {
        return false;
    }
    let mut done: usize = 0;
    while done < args.len()
        invariant
            done <= args.len(),
            forall|i: int| 0 <= i < done ==> !(#[trigger] header_views(args@)[i]).name.contains('\0'),
        decreases args.len() - done,
    {
        if holds_char(args[done].name.as_str(), '\0') {
            assert(header_views(args@)[done as int].name.contains('\0'));
            return false;
        }
        assert(header_views(args@)[done as int] == args@[done as int]@);
        done = done + 1;
    }
    true
}

/// Collects the headers of a message in the order given. Without any header
/// there is no collection at all.
pub fn assemble_headers(args: &Vec<MessageHeaderArg>) -> (headers: Option<OwnedHeaders>)
    requires
        attachable(header_views(args@)),
    ensures
        headers is None <==> args@.len() == 0,
        headers is Some ==> header_entries(headers->0) == wire_headers(header_views(args@)),
{
    let mut headers = new_headers();
    let mut done: usize = 0;
    while done < args.len()
        invariant
            done <= args.len(),
            attachable(header_views(args@)),
            header_entries(headers) == wire_headers(header_views(args@)).take(done as int),
        decreases args.len() - done,
    {
        let arg = &args[done];
        assert(header_views(args@)[done as int] == arg@);
        let value: Option<&str> = match &arg.value {
            Some(text) => Some(text.as_str()),
            None => None,
        };
        headers = insert_header(headers, arg.name.as_str(), value);
        done = done + 1;
        assert(header_entries(headers) =~= wire_headers(header_views(args@)).take(done as int));
    }
    assert(wire_headers(header_views(args@)).take(done as int) =~= wire_headers(
        header_views(args@),
    ));
    if count_headers(&headers) > 0 {
        Some(headers)
    } else {
        None
    }
}

impl OutgoingRecord {
    /// Puts together the one record that the producer sends.
    pub fn assemble(topic: String, args: ProducerArgs) -> (record: OutgoingRecord)
        requires
            attachable(args@.header),
        ensures
            record@ == record_for(topic@, args@),
            record@.well_formed(),
    {
        let headers = assemble_headers(&args.header);
        OutgoingRecord {
            topic,
            partition: args.partition,
            payload: args.payload,
            key: args.key,
            timestamp: None,
            headers,
        }
    }
}

} // verus!
