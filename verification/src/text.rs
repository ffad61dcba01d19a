//! How values are shown in the lines that the tool prints.

use crate::bindings::{debug_text, decode_lossy, lossy_text, quote};
use vstd::prelude::*;
use vstd::std_specs::iter::IteratorSpec;
use vstd::string::*;
use vstd::utf8::{decode_utf8, valid_utf8};

verus! {

/// The decimal digits, in their order.
pub const DIGITS: &'static str = "0123456789";

/// The character of one decimal digit.
pub open spec fn digit(d: nat) -> char
    recommends
        d < 10,
{
    DIGITS@[d as int]
}

/// A natural number in decimal digits, without leading zeros.
pub open spec fn natural(n: nat) -> Seq<char>
    decreases n,
{
    if n < 10 {
        seq![digit(n)]
    } else {
        natural(n / 10).push(digit(n % 10))
    }
}

/// An integer in decimal digits, with a minus sign where it is negative.
pub open spec fn decimal(n: int) -> Seq<char> {
    if n < 0 {
        seq!['-'] + natural((-n) as nat)
    } else {
        natural(n as nat)
    }
}

/// An optional text as it is shown: `Some(..)` around it, or `None`.
pub open spec fn optional(inner: Option<Seq<char>>) -> Seq<char> {
    match inner {
        Some(text) => "Some("@ + text + ")"@,
        None => "None"@,
    }
}

/// An optional string as it is shown: quoted where it is present.
pub open spec fn shown_text(value: Option<Seq<char>>) -> Seq<char> {
    optional(
        match value {
            Some(text) => Some(debug_text(text)),
            None => None,
        },
    )
}

/// Optional bytes as they are shown: read as text, leniently, and quoted.
pub open spec fn shown_bytes(value: Option<Seq<u8>>) -> Seq<char> {
    shown_text(
        match value {
            Some(bytes) => Some(lossy_text(bytes)),
            None => None,
        },
    )
}

/// An optional number as it is shown.
pub open spec fn shown_number(value: Option<int>) -> Seq<char> {
    optional(
        match value {
            Some(n) => Some(decimal(n)),
            None => None,
        },
    )
}

/// The texts of a list of strings, one for one.
pub open spec fn texts(lines: Seq<String>) -> Seq<Seq<char>> {
    Seq::new(lines.len(), |i: int| lines[i]@)
}

/// The items with `", "` between each two of them.
pub open spec fn joined(items: Seq<Seq<char>>) -> Seq<char>
    decreases items.len(),
{
    if items.len() == 0 {
        Seq::empty()
    } else if items.len() == 1 {
        items[0]
    } else {
        joined(items.drop_last()) + ", "@ + items.last()
    }
}

/// A list as it is shown: its items between square brackets.
pub open spec fn listed(items: Seq<Seq<char>>) -> Seq<char> {
    "["@ + joined(items) + "]"@
}

/// A header as it is shown: its quoted name and its shown value, as a pair.
pub open spec fn shown_header(name: Seq<char>, value: Seq<char>) -> Seq<char> {
    "("@ + debug_text(name) + ", "@ + value + ")"@
}

/// Headers with byte values as they are shown, one for one.
pub open spec fn shown_byte_entries(entries: Seq<(Seq<char>, Option<Seq<u8>>)>) -> Seq<Seq<char>> {
    Seq::new(entries.len(), |i: int| shown_header(entries[i].0, shown_bytes(entries[i].1)))
}

/// Headers with text values as they are shown, one for one.
pub open spec fn shown_text_entries(entries: Seq<(Seq<char>, Option<Seq<char>>)>) -> Seq<
    Seq<char>,
> {
    Seq::new(entries.len(), |i: int| shown_header(entries[i].0, shown_text(entries[i].1)))
}

/// The headers of a received message as they are shown: `None` where it has
/// none, else the list of them in their order.
pub open spec fn shown_headers(headers: Option<Seq<(Seq<char>, Option<Seq<u8>>)>>) -> Seq<char> {
    optional(
        match headers {
            Some(entries) => Some(listed(shown_byte_entries(entries))),
            None => None,
        },
    )
}

/// The headers of an outgoing message as they are shown: `None` where there
/// are none, else the list of them in their order.
pub open spec fn shown_text_headers(headers: Seq<(Seq<char>, Option<Seq<char>>)>) -> Seq<char> {
    optional(
        if headers.len() == 0 {
            None
        } else {
            Some(listed(shown_text_entries(headers)))
        },
    )
}

/// Whether the text holds the character.
pub fn holds_char(text: &str, wanted: char) -> (found: bool)
    ensures
        found == text@.contains(wanted),
{
    let n = text.unicode_len();
    let mut chars = text.chars();
    let mut seen: usize = 0;
    loop
        invariant
            n == text@.len(),
            seen <= n,
            chars.remaining() == text@.subrange(seen as int, n as int),
            forall|i: int| 0 <= i < seen ==> text@[i] != wanted,
        ensures
            seen == n,
            !text@.contains(wanted),
        decreases n - seen,
    {
        match chars.next() {
            Some(c) => {
                assert(c == text@[seen as int]);
                if c == wanted {
                    return true;
                }
                seen = seen + 1;
            },
            None => {
                assert(text@.subrange(seen as int, n as int).len() == 0);
                break ;
            },
        }
    }
    false
}

fn digit_text(d: usize) -> (text: &'static str)
    requires
        d < 10,
    ensures
        text@ == seq![digit(d as nat)],
{
    proof {
        reveal_strlit("0123456789");
    }
    let text = DIGITS.substring_ascii(d, d + 1);
    assert(text@ =~= seq![digit(d as nat)]);
    text
}

/// Writes a natural number in decimal digits.
pub fn natural_text(n: u64) -> (text: String)
    ensures
        text@ == natural(n as nat),
    decreases n,
{
    if n < 10 {
        digit_text(n as usize).to_owned()
    } else {
        let mut text = natural_text(n / 10);
        text.append(digit_text((n % 10) as usize));
        assert(text@ =~= natural(n as nat));
        text
    }
}

/// Writes an integer in decimal digits.
pub fn decimal_text(n: i64) -> (text: String)
    ensures
        text@ == decimal(n as int),
{
    if n < 0 {
        let magnitude: u64 = if n == i64::MIN {
            0x8000_0000_0000_0000u64
        } else {
            (-n) as u64
        };
        proof {
            reveal_strlit("-");
        }
        let mut text = "-".to_owned();
        text.append(natural_text(magnitude).as_str());
        assert(text@ =~= decimal(n as int));
        text
    } else {
        natural_text(n as u64)
    }
}

/// Shows an optional text that is already in its shown form.
pub fn optional_text(inner: Option<String>) -> (text: String)
    ensures
        text@ == optional(
            match inner {
                Some(given) => Some(given@),
                None => None,
            },
        ),
{
    match inner {
        Some(given) => {
            let mut text = "Some(".to_owned();
            text.append(given.as_str());
            text.append(")");
            text
        },
        None => "None".to_owned(),
    }
}

/// Shows an optional string.
pub fn shown_text_of(value: &Option<String>) -> (text: String)
    ensures
        text@ == shown_text(
            match *value {
                Some(given) => Some(given@),
                None => None,
            },
        ),
{
    match value {
        Some(given) => optional_text(Some(quote(given.as_str()))),
        None => optional_text(None),
    }
}

/// Shows optional bytes, read as text. Bytes that are valid UTF-8 are shown
/// as the text that they encode.
pub fn shown_bytes_of(value: Option<&[u8]>) -> (text: String)
    ensures
        text@ == shown_bytes(
            match value {
                Some(given) => Some(given@),
                None => None,
            },
        ),
        value is Some && valid_utf8(value->0@) ==> text@ == shown_text(
            Some(decode_utf8(value->0@)),
        ),
{
    match value {
        Some(given) => {
            let read = decode_lossy(given);
            optional_text(Some(quote(read.as_str())))
        },
        None => optional_text(None),
    }
}

/// Shows one header.
pub fn shown_header_of(name: &str, value: Option<&[u8]>) -> (text: String)
    ensures
        text@ == shown_header(
            name@,
            shown_bytes(
                match value {
                    Some(given) => Some(given@),
                    None => None,
                },
            ),
        ),
{
    let mut text = "(".to_owned();
    text.append(quote(name).as_str());
    text.append(", ");
    text.append(shown_bytes_of(value).as_str());
    text.append(")");
    text
}

/// Shows one header whose value is a text.
pub fn shown_text_header_of(name: &str, value: &Option<String>) -> (text: String)
    ensures
        text@ == shown_header(
            name@,
            shown_text(
                match *value {
                    Some(given) => Some(given@),
                    None => None,
                },
            ),
        ),
{
    let mut text = "(".to_owned();
    text.append(quote(name).as_str());
    text.append(", ");
    text.append(shown_text_of(value).as_str());
    text.append(")");
    text
}

/// Shows an optional 32-bit number.
pub fn shown_number_of(value: Option<i32>) -> (text: String)
    ensures
        text@ == shown_number(
            match value {
                Some(n) => Some(n as int),
                None => None,
            },
        ),
{
    match value {
        Some(n) => optional_text(Some(decimal_text(n as i64))),
        None => optional_text(None),
    }
}

/// Shows a list of items that are already in their shown form.
pub fn listed_text(items: &Vec<String>) -> (text: String)
    ensures
        text@ == listed(texts(items@)),
{
    let ghost shown = texts(items@);
    let mut text = "[".to_owned();
    let mut done: usize = 0;
    while done < items.len()
        invariant
            done <= items.len(),
            shown == texts(items@),
            text@ == "["@ + joined(shown.take(done as int)),
        decreases items.len() - done,
    {
        if done > 0 {
            text.append(", ");
        }
        text.append(items[done].as_str());
        proof {
            let before = shown.take(done as int);
            let after = shown.take(done + 1);
            assert(after.drop_last() =~= before);
            assert(after.last() == items@[done as int]@);
            if done == 0 {
                assert(joined(before) =~= Seq::<char>::empty());
                assert(joined(after) =~= items@[0]@);
            }
            assert(text@ =~= "["@ + joined(after));
        }
        done = done + 1;
    }
    assert(shown.take(done as int) =~= shown);
    text.append("]");
    text
}

/// No line at all.
pub(crate) fn no_lines() -> (lines: Vec<String>)
    ensures
        texts(lines@) == Seq::<Seq<char>>::empty(),
{
    let lines: Vec<String> = Vec::new();
    assert(texts(lines@) =~= Seq::empty());
    lines
}

/// One line.
pub(crate) fn one_line(line: String) -> (lines: Vec<String>)
    ensures
        texts(lines@) == seq![line@],
{
    let mut lines: Vec<String> = Vec::new();
    lines.push(line);
    assert(texts(lines@) =~= seq![line@]);
    lines
}

/// Two lines, in their order.
pub(crate) fn two_lines(first: String, second: String) -> (lines: Vec<String>)
    ensures
        texts(lines@) == seq![first@, second@],
{
    let mut lines: Vec<String> = Vec::new();
    lines.push(first);
    lines.push(second);
    assert(texts(lines@) =~= seq![first@, second@]);
    lines
}

/// Whether the character is a decimal digit.
pub open spec fn is_digit(c: char) -> bool {
    exists|d: nat| d < 10 && c == digit(d)
}

/// A natural number is written with at least one digit, and with digits
/// only.
pub proof fn lemma_natural_is_digits(n: nat)
    ensures
        natural(n).len() >= 1,
        n >= 10 ==> natural(n).len() >= 2,
        forall|i: int| 0 <= i < natural(n).len() ==> is_digit(#[trigger] natural(n)[i]),
    decreases n,
{
    if n < 10 {
        assert(is_digit(digit(n)));
    } else {
        lemma_natural_is_digits(n / 10);
        assert(is_digit(digit(n % 10)));
    }
}

/// An integer is written without any space.
pub proof fn lemma_decimal_has_no_space(n: int)
    ensures
        forall|i: int| 0 <= i < decimal(n).len() ==> #[trigger] decimal(n)[i] != ' ',
{
    reveal_strlit("0123456789");
    let magnitude = if n < 0 {
        (-n) as nat
    } else {
        n as nat
    };
    lemma_natural_is_digits(magnitude);
    assert forall|i: int| 0 <= i < decimal(n).len() implies #[trigger] decimal(n)[i] != ' ' by {
        if n < 0 && i == 0 {
        } else {
            let at = if n < 0 {
                i - 1
            } else {
                i
            };
            assert(decimal(n)[i] == natural(magnitude)[at]);
            assert(is_digit(natural(magnitude)[at]));
        }
    }
}

/// Different natural numbers are written differently.
pub proof fn lemma_natural_is_injective(a: nat, b: nat)
    requires
        natural(a) == natural(b),
    ensures
        a == b,
    decreases a,
{
    reveal_strlit("0123456789");
    lemma_natural_is_digits(a);
    lemma_natural_is_digits(b);
    if a >= 10 {
        assert(natural(a).drop_last() =~= natural(a / 10));
        assert(natural(b).drop_last() =~= natural(b / 10));
        assert(natural(a).last() == digit(a % 10));
        assert(natural(b).last() == digit(b % 10));
        lemma_natural_is_injective(a / 10, b / 10);
    } else {
        assert(natural(a)[0] == digit(a));
        assert(natural(b)[0] == digit(b));
    }
}

/// Different integers are written differently.
pub proof fn lemma_decimal_is_injective(a: int, b: int)
    requires
        decimal(a) == decimal(b),
    ensures
        a == b,
{
    reveal_strlit("0123456789");
    let (first, second) = if a <= b {
        (a, b)
    } else {
        (b, a)
    };
    lemma_natural_is_digits((-first) as nat);
    lemma_natural_is_digits(first as nat);
    lemma_natural_is_digits((-second) as nat);
    lemma_natural_is_digits(second as nat);
    if first < 0 && second < 0 {
        assert(decimal(first).subrange(1, decimal(first).len() as int) =~= natural(
            (-first) as nat,
        ));
        assert(decimal(second).subrange(1, decimal(second).len() as int) =~= natural(
            (-second) as nat,
        ));
        lemma_natural_is_injective((-first) as nat, (-second) as nat);
    } else if first < 0 {
        assert(decimal(first)[0] == '-');
        assert(is_digit(decimal(second)[0]));
    } else {
        lemma_natural_is_injective(first as nat, second as nat);
    }
}

} // verus!
