//! What the library takes on trust from the Kafka client and from std:
//! each contract here is stated, not proved.

use rdkafka::config::ClientConfig;
use rdkafka::message::{Header, Headers, OwnedHeaders};
use vstd::prelude::*;
use vstd::string::*;
use vstd::utf8::{decode_utf8, valid_utf8};

verus! {

/// The client's collection of message headers, `rdkafka::message::OwnedHeaders`.
/// Nothing is known of a value but what `header_entries` says of it.
#[verifier::external_type_specification]
#[verifier::external_body]
pub struct ExOwnedHeaders(OwnedHeaders);

/// The headers that a collection holds, in the order in which they were
/// inserted: each a name and, where it has one, the bytes of its value.
pub uninterp spec fn header_entries(headers: OwnedHeaders) -> Seq<(Seq<char>, Option<Seq<u8>>)>;

/// The most headers that this library puts into one collection. The client
/// keeps the collection's size in a signed 32-bit integer and triples it
/// when the collection is full, which cannot overflow below this many.
pub const MAX_HEADERS: usize = 0x2000_0000;

/// `OwnedHeaders::new`: a collection that holds no header.
#[verifier::external_body]
pub(crate) fn new_headers() -> (headers: OwnedHeaders)
    ensures
        header_entries(headers) == Seq::<(Seq<char>, Option<Seq<u8>>)>::empty(),
{
    OwnedHeaders::new()
}

/// `OwnedHeaders::insert`: the collection with one more header at its end,
/// whose value is the text's bytes, or absent where no text is given. The
/// client panics on a name that holds a NUL character, and its arithmetic
/// on the collection's size is safe only while that is small enough.
#[verifier::external_body]
pub(crate) fn insert_header(headers: OwnedHeaders, name: &str, value: Option<&str>) -> (out:
    OwnedHeaders)
    requires
        !name@.contains('\0'),
        header_entries(headers).len() < MAX_HEADERS,
    ensures
        header_entries(out) == header_entries(headers).push(
            (
                name@,
                match value {
                    Some(text) => Some(text.spec_bytes()),
                    None => None,
                },
            ),
        ),
{
    headers.insert(Header { key: name, value })
}

/// `Headers::count` on `OwnedHeaders`: how many headers the collection holds.
#[verifier::external_body]
pub(crate) fn count_headers(headers: &OwnedHeaders) -> (count: usize)
    ensures
        count == header_entries(*headers).len(),
{
    headers.count()
}

/// The client's configuration, `rdkafka::config::ClientConfig`. Nothing is
/// known of a value but what `config_entries` says of it.
#[verifier::external_type_specification]
#[verifier::external_body]
pub struct ExClientConfig(ClientConfig);

/// The parameters that a client configuration holds, each under its key.
pub uninterp spec fn config_entries(config: ClientConfig) -> Map<Seq<char>, Seq<char>>;

/// `ClientConfig::new`: a configuration that holds no parameter.
#[verifier::external_body]
pub(crate) fn new_config() -> (created: ClientConfig)
    ensures
        config_entries(created) == (Map::<Seq<char>, Seq<char>>::empty()),
{
    ClientConfig::new()
}

/// `ClientConfig::set`: the parameter `key` now has `value`, whether or not
/// it had one before; the others are as they were.
#[verifier::external_body]
pub(crate) fn set_parameter(config: &mut ClientConfig, key: &str, value: &str)
    ensures
        config_entries(*final(config)) == config_entries(*old(config)).insert(key@, value@),
{
    config.set(key, value);
}

/// How std's `Debug` shows a string: between double quotes, with escapes.
pub uninterp spec fn debug_text(text: Seq<char>) -> Seq<char>;

/// `Debug` for `str`, through `format!`.
#[verifier::external_body]
pub(crate) fn quote(text: &str) -> (quoted: String)
    ensures
        quoted@ == debug_text(text@),
{
    format!("{:?}", text)
}

/// The text that bytes are read as when every invalid sequence is replaced.
pub uninterp spec fn lossy_text(bytes: Seq<u8>) -> Seq<char>;

/// `String::from_utf8_lossy`: never fails; bytes that are valid UTF-8 give
/// the text that they encode.
#[verifier::external_body]
pub(crate) fn decode_lossy(bytes: &[u8]) -> (text: String)
    ensures
        text@ == lossy_text(bytes@),
        valid_utf8(bytes@) ==> text@ == decode_utf8(bytes@),
{
    String::from_utf8_lossy(bytes).into_owned()
}

} // verus!
