//! The header argument of the producer command: `name=value`, or a name
//! alone.

use core::convert::Infallible;
use core::str::FromStr;
use vstd::prelude::*;
use vstd::std_specs::iter::IteratorSpec;
use vstd::string::*;

verus! {

/// The character that separates a header's name from its value.
pub const SEPARATOR: char = '=';

/// One header of an outgoing message, as given on the command line.
#[derive(Debug, Clone)]
pub struct MessageHeaderArg {
    pub name: String,
    pub value: Option<String>,
}

/// What a header argument is: a name and, where a separator was given, a value.
pub ghost struct HeaderArgView {
    pub name: Seq<char>,
    pub value: Option<Seq<char>>,
}

impl View for MessageHeaderArg {
    type V = HeaderArgView;

    open spec fn view(&self) -> HeaderArgView {
        HeaderArgView {
            name: self.name@,
            value: match self.value {
                Some(v) => Some(v@),
                None => None,
            },
        }
    }
}

/// The position of the last separator in `token`, if it holds one.
pub open spec fn last_separator(token: Seq<char>) -> Option<int>
    decreases token.len(),
{
    if token.len() == 0 {
        None
    } else if token.last() == SEPARATOR {
        Some(token.len() - 1)
    } else {
        last_separator(token.drop_last())
    }
}

/// The header that a raw token stands for: split at the last separator, or
/// the whole token as a name without a value.
pub open spec fn split_token(token: Seq<char>) -> HeaderArgView {
    match last_separator(token) {
        Some(i) => HeaderArgView {
            name: token.subrange(0, i),
            value: Some(token.subrange(i + 1, token.len() as int)),
        },
        None => HeaderArgView { name: token, value: None },
    }
}

/// `last_separator` finds a separator after which no other follows, and
/// finds none only where the token holds none.
pub proof fn lemma_last_separator(token: Seq<char>)
    ensures
        match last_separator(token) {
            Some(i) => {
                &&& 0 <= i < token.len()
                &&& token[i] == SEPARATOR
                &&& forall|j: int| i < j < token.len() ==> token[j] != SEPARATOR
            },
            None => forall|j: int| 0 <= j < token.len() ==> token[j] != SEPARATOR,
        },
    decreases token.len(),
{
    if token.len() > 0 && token.last() != SEPARATOR {
        let front = token.drop_last();
        lemma_last_separator(front);
        assert(forall|j: int| 0 <= j < front.len() ==> front[j] == token[j]);
    }
}

/// A token that holds a separator is split at the last one: the name is
/// what stands before it and the value what follows it, which may be empty.
/// A token without a separator is a name without a value.
pub proof fn lemma_split_at_last_separator(token: Seq<char>)
    ensures
        token.contains(SEPARATOR) ==> exists|at: int|
            {
                &&& 0 <= at < token.len()
                &&& token[at] == SEPARATOR
                &&& forall|j: int| at < j < token.len() ==> token[j] != SEPARATOR
                &&& #[trigger] token.subrange(0, at) == split_token(token).name
                &&& split_token(token).value == Some(token.subrange(at + 1, token.len() as int))
            },
        !token.contains(SEPARATOR) ==> split_token(token) == (HeaderArgView {
            name: token,
            value: None,
        }),
{
    lemma_last_separator(token);
    if token.contains(SEPARATOR) {
        let at = last_separator(token).unwrap();
        assert(token.subrange(0, at) == split_token(token).name);
    }
}

/// Splitting loses nothing: the name, the separator and the value make up
/// the token again, and no separator is left in the value. A header has no
/// value exactly where its token holds no separator.
pub proof fn lemma_split_keeps_the_token(token: Seq<char>)
    ensures
        match split_token(token).value {
            Some(value) => {
                &&& token == split_token(token).name + seq![SEPARATOR] + value
                &&& !value.contains(SEPARATOR)
            },
            None => split_token(token).name == token && !token.contains(SEPARATOR),
        },
{
    lemma_last_separator(token);
    match last_separator(token) {
        Some(at) => {
            let name = token.subrange(0, at);
            let value = token.subrange(at + 1, token.len() as int);
            assert(token =~= name + seq![SEPARATOR] + value);
            assert forall|j: int| 0 <= j < value.len() implies value[j] != SEPARATOR by {
                assert(value[j] == token[at + 1 + j]);
            }
        },
        None => {},
    }
}

/// A name, a separator and a value without separator are split into just
/// that name and that value: the last separator alone counts, so the name
/// may hold separators of its own.
pub proof fn lemma_split_of_joined(name: Seq<char>, value: Seq<char>)
    requires
        !value.contains(SEPARATOR),
    ensures
        split_token(name + seq![SEPARATOR] + value) == (HeaderArgView {
            name,
            value: Some(value),
        }),
{
    let token = name + seq![SEPARATOR] + value;
    lemma_last_separator(token);
    let at = name.len() as int;
    assert(token[at] == SEPARATOR);
    assert forall|j: int| at < j < token.len() implies token[j] != SEPARATOR by {
        assert(token[j] == value[j - at - 1]);
    }
    assert(last_separator(token) == Some(at));
    assert(token.subrange(0, at) =~= name);
    assert(token.subrange(at + 1, token.len() as int) =~= value);
}

/// The name is empty only for the empty token and for a token whose one
/// separator stands first.
pub proof fn lemma_empty_name(token: Seq<char>)
    ensures
        split_token(token).name.len() == 0 <==> token.len() == 0 || last_separator(token) == Some(
            0int,
        ),
{
    lemma_last_separator(token);
}

impl FromStr for MessageHeaderArg {
    type Err = Infallible;

    /// Parses one raw header token. Every token is a header: the name is what
    /// stands before the last separator and the value what follows it; a token
    /// without a separator is a name without a value.
    fn from_str(s: &str) -> (parsed: Result<Self, Infallible>)
        ensures
            parsed is Ok,
            parsed->Ok_0@ == split_token(s@),
    {
        let n = s.unicode_len();
        let mut chars = s.chars();
        let mut seen: usize = 0;
        let mut last: Option<usize> = None;
        loop
            invariant
                n == s@.len(),
                seen <= n,
                chars.remaining() == s@.subrange(seen as int, n as int),
                match last {
                    Some(i) => last_separator(s@.subrange(0, seen as int)) == Some(i as int),
                    None => last_separator(s@.subrange(0, seen as int)) is None,
                },
            ensures
                seen == n,
            decreases n - seen,
        {
            match chars.next() {
                Some(c) => {
                    assert(c == s@[seen as int]);
                    assert(s@.subrange(0, seen + 1).drop_last() == s@.subrange(0, seen as int));
                    if c == SEPARATOR {
                        last = Some(seen);
                    }
                    seen = seen + 1;
                },
                None => {
                    assert(s@.subrange(seen as int, n as int).len() == 0);
                    break ;
                },
            }
        }
        assert(s@.subrange(0, n as int) == s@);
        match last {
            Some(i) => {
                proof {
                    lemma_last_separator(s@);
                }
                let name = s.substring_char(0, i);
                let value = s.substring_char(i + 1, n);
                Ok(MessageHeaderArg { name: name.to_owned(), value: Some(value.to_owned()) })
            },
            None => Ok(MessageHeaderArg { name: s.to_owned(), value: None }),
        }
    }
}

} // verus!
