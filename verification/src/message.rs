//! A received message, and the line that reports it.

use crate::text::{
    decimal, decimal_text, listed_text, optional_text, shown_byte_entries, shown_bytes,
    shown_bytes_of, shown_header_of, shown_headers, texts,
};
use vstd::prelude::*;
use vstd::string::*;

verus! {

/// One header of a message that was received.
#[derive(Debug, Clone)]
pub struct IncomingHeader {
    pub name: String,
    pub value: Option<Vec<u8>>,
}

/// A message as it was received from the broker.
#[derive(Debug, Clone)]
pub struct IncomingMessage {
    pub topic: String,
    pub partition: i32,
    /// The position of the message in its partition.
    pub offset: i64,
    pub key: Option<Vec<u8>>,
    pub payload: Option<Vec<u8>>,
    pub headers: Option<Vec<IncomingHeader>>,
}

/// What a received message holds.
pub ghost struct MessageView {
    pub topic: Seq<char>,
    pub partition: i32,
    pub offset: i64,
    pub key: Option<Seq<u8>>,
    pub payload: Option<Seq<u8>>,
    pub headers: Option<Seq<(Seq<char>, Option<Seq<u8>>)>>,
}

/// The headers of a list of received headers, one for one.
pub open spec fn header_pairs(headers: Seq<IncomingHeader>) -> Seq<(Seq<char>, Option<Seq<u8>>)> {
    Seq::new(headers.len(), |i: int| headers[i]@)
}

/// The bytes of an optional byte string.
pub open spec fn bytes_of(value: Option<Vec<u8>>) -> Option<Seq<u8>> {
    match value {
        Some(bytes) => Some(bytes@),
        None => None,
    }
}

impl View for IncomingHeader {
    type V = (Seq<char>, Option<Seq<u8>>);

    open spec fn view(&self) -> (Seq<char>, Option<Seq<u8>>) {
        (self.name@, bytes_of(self.value))
    }
}

impl View for IncomingMessage {
    type V = MessageView;

    open spec fn view(&self) -> MessageView {
        MessageView {
            topic: self.topic@,
            partition: self.partition,
            offset: self.offset,
            key: bytes_of(self.key),
            payload: bytes_of(self.payload),
            headers: match self.headers {
                Some(headers) => Some(header_pairs(headers@)),
                None => None,
            },
        }
    }
}

/// The line that reports a received message.
pub open spec fn received_line(message: MessageView) -> Seq<char> {
    "Received a message: TOPIC=("@ + message.topic + ") KEY=("@ + shown_bytes(message.key)
        + ") PARTITION=("@ + decimal(message.partition as int) + ") OFFSET=("@ + decimal(
        message.offset as int,
    ) + ") PAYLOAD=("@ + shown_bytes(message.payload) + ") HEADERS=("@ + shown_headers(
        message.headers,
    ) + ")"@
}

fn borrowed(value: &Option<Vec<u8>>) -> (bytes: Option<&[u8]>)
    ensures
        match bytes {
            Some(given) => value is Some && given@ == value->0@,
            None => value is None,
        },
{
    match value {
        Some(given) => Some(given.as_slice()),
        None => None,
    }
}

impl IncomingMessage {
    /// Shows the headers of the message.
    pub fn headers_text(&self) -> (text: String)
        ensures
            text@ == shown_headers(self@.headers),
    {
        match &self.headers {
            Some(headers) => {
                let ghost entries = header_pairs(headers@);
                let mut items: Vec<String> = Vec::new();
                let mut done: usize = 0;
                while done < headers.len()
                    invariant
                        done <= headers.len(),
                        items@.len() == done,
                        entries == header_pairs(headers@),
                        forall|i: int|
                            0 <= i < done ==> (#[trigger] items@[i])@ == shown_byte_entries(
                                entries,
                            )[i],
                    decreases headers.len() - done,
                {
                    let header = &headers[done];
                    assert(entries[done as int] == header@);
                    items.push(shown_header_of(header.name.as_str(), borrowed(&header.value)));
                    done = done + 1;
                }
                let list = listed_text(&items);
                assert(texts(items@) =~= shown_byte_entries(entries));
                optional_text(Some(list))
            },
            None => optional_text(None),
        }
    }

    /// Writes the line that reports the message.
    pub fn report(&self) -> (line: String)
        ensures
            line@ == received_line(self@),
    {
        let mut line = "Received a message: TOPIC=(".to_owned();
        line.append(self.topic.as_str());
        line.append(") KEY=(");
        line.append(shown_bytes_of(borrowed(&self.key)).as_str());
        line.append(") PARTITION=(");
        line.append(decimal_text(self.partition as i64).as_str());
        line.append(") OFFSET=(");
        line.append(decimal_text(self.offset).as_str());
        line.append(") PAYLOAD=(");
        line.append(shown_bytes_of(borrowed(&self.payload)).as_str());
        line.append(") HEADERS=(");
        line.append(self.headers_text().as_str());
        line.append(")");
        line
    }
}

} // verus!
