//! Reading the redirect of the authentication flow: the address the browser
//! was sent to carries the authorization code and the state in its query.

use vstd::prelude::*;
use vstd::string::*;
use crate::error::Error;
use crate::spotify::REDIRECT_URL;

verus! {

/// A key of a query with its value.
pub type Pair = (String, String);

/// The contents of each pair, in order.
pub open spec fn pair_views(pairs: Seq<Pair>) -> Seq<(Seq<char>, Seq<char>)> {
    pairs.map_values(|pair: Pair| (pair.0@, pair.1@))
}

/// The error of `url`'s parser, carried through unopened.
#[verifier::external_type_specification]
#[verifier::external_body]
pub struct ExUrlParseError(url::ParseError);

/// The pairs that `url::Url::query_pairs` gives for the address that
/// `url::Url::parse` reads from `address`, in the order of the query, or
/// nothing where `address` is no absolute address.
pub uninterp spec fn url_query_pairs(address: Seq<char>) -> Option<Seq<(Seq<char>, Seq<char>)>>;

/// Calls `url::Url::parse` on `address` and `url::Url::query_pairs` on the
/// address read, and hands out each pair as owned strings. Trusted: the
/// pairs, or the failure, are those of these two functions for this text,
/// and depend on the text alone.
#[verifier::external_body]
fn query_pairs(address: &str) -> (pairs: Result<Vec<Pair>, url::ParseError>)
    ensures
        match pairs {
            Ok(pairs) => url_query_pairs(address@) == Some(pair_views(pairs@)),
            Err(_) => url_query_pairs(address@) is None,
        },
{
    let parsed = url::Url::parse(address)?;
    let mut pairs = Vec::new();
    for (key, value) in parsed.query_pairs() {
        pairs.push((key.into_owned(), value.into_owned()));
    }
    Ok(pairs)
}

/// The value of the last pair of `pairs` whose key is `key`.
pub open spec fn spec_last_value(pairs: Seq<(Seq<char>, Seq<char>)>, key: Seq<char>) -> Option<
    Seq<char>,
>
    decreases pairs.len(),
{
    if pairs.len() == 0 {
        None
    } else if pairs.last().0 == key {
        Some(pairs.last().1)
    } else {
        spec_last_value(pairs.drop_last(), key)
    }
}

/// The key that carries the authorization code.
pub open spec fn spec_code_key() -> Seq<char> {
    seq!['c', 'o', 'd', 'e']
}

/// The key that carries the state.
pub open spec fn spec_state_key() -> Seq<char> {
    seq!['s', 't', 'a', 't', 'e']
}

/// The code and the state among `pairs`: for each the value of the last
/// pair with its key. An error where either is missing.
pub open spec fn spec_code_and_state(pairs: Seq<(Seq<char>, Seq<char>)>) -> Result<
    (Seq<char>, Seq<char>),
    Error,
> {
    match (spec_last_value(pairs, spec_code_key()), spec_last_value(pairs, spec_state_key())) {
        (Some(code), Some(state)) => Ok((code, state)),
        _ => Err(Error::ParseAuthResponse),
    }
}

/// The code and the state in the query of `address`: an error where
/// `address` is no absolute address, or lacks either.
pub open spec fn spec_parse_queries(pairs: Option<Seq<(Seq<char>, Seq<char>)>>) -> Result<
    (Seq<char>, Seq<char>),
    Error,
> {
    match pairs {
        Some(pairs) => spec_code_and_state(pairs),
        None => Err(Error::ParseAuthResponse),
    }
}

/// Whether `found` is the outcome `expected`.
pub open spec fn is_pair_result(
    found: Result<Pair, Error>,
    expected: Result<(Seq<char>, Seq<char>), Error>,
) -> bool {
    match found {
        Ok(pair) => expected == Ok::<(Seq<char>, Seq<char>), Error>((pair.0@, pair.1@)),
        Err(error) => expected == Err::<(Seq<char>, Seq<char>), Error>(error),
    }
}

/// Returns the value of the last pair of `pairs` whose key is `key`.
pub fn last_value(pairs: &Vec<Pair>, key: &String) -> (value: Option<String>)
    ensures
        match value {
            Some(value) => spec_last_value(pair_views(pairs@), key@) == Some(value@),
            None => spec_last_value(pair_views(pairs@), key@) is None,
        },
{
    let ghost views = pair_views(pairs@);
    let mut i: usize = pairs.len();
    assert(views.take(views.len() as int) =~= views);
    while i > 0
        invariant
            i <= pairs@.len(),
            views == pair_views(pairs@),
            spec_last_value(views, key@) == spec_last_value(views.take(i as int), key@),
        decreases i,
    {
        proof {
            assert(views.take(i as int).last() == (pairs@[i - 1].0@, pairs@[i - 1].1@));
            assert(views.take(i as int).drop_last() =~= views.take(i - 1));
        }
        i -= 1;
        if pairs[i].0 == *key {
            return Some(pairs[i].1.clone());
        }
    }
    None
}

/// Returns the authorization code and the state among the pairs of a query:
/// for each the value of the last pair with its key. Fails with
/// `ParseAuthResponse` where either is missing.
pub fn code_and_state(pairs: &Vec<Pair>) -> (found: Result<Pair, Error>)
    ensures
        is_pair_result(found, spec_code_and_state(pair_views(pairs@))),
{
    proof {
        reveal_strlit("code");
        reveal_strlit("state");
        assert("code"@ =~= spec_code_key());
        assert("state"@ =~= spec_state_key());
    }
    let code = last_value(pairs, &String::from_str("code"));
    let state = last_value(pairs, &String::from_str("state"));
    match (code, state) {
        (Some(code), Some(state)) => Ok((code, state)),
        _ => Err(Error::ParseAuthResponse),
    }
}

/// Returns the authorization code and the state that the query of the
/// address `url` carries. Fails with `ParseAuthResponse` where `url` is no
/// absolute address, or its query lacks the code or the state.
pub fn parse_queries(url: &str) -> (found: Result<Pair, Error>)
    ensures
        is_pair_result(found, spec_parse_queries(url_query_pairs(url@))),
{
    match query_pairs(url) {
        Ok(pairs) => code_and_state(&pairs),
        Err(_) => Err(Error::ParseAuthResponse),
    }
}

/// The position of the first space of `text` at or after `from`, or the
/// length of `text` where there is none.
pub open spec fn spec_next_space(text: Seq<char>, from: int) -> int
    decreases text.len() - from,
{
    if from < 0 || from >= text.len() {
        text.len() as int
    } else if text[from] == ' ' {
        from
    } else {
        spec_next_space(text, from + 1)
    }
}

/// The target of a request: what stands between the first space of its
/// first line and the next one, or the end of the line; nothing where the
/// line has no space.
pub open spec fn spec_request_target(line: Seq<char>) -> Seq<char> {
    let first = spec_next_space(line, 0);
    if first >= line.len() {
        Seq::empty()
    } else {
        line.subrange(first + 1, spec_next_space(line, first + 1))
    }
}

/// The first space at or after `from` is where the spaceless stretch that
/// starts at `from` ends.
proof fn lemma_next_space_is(text: Seq<char>, from: int, at: int)
    requires
        0 <= from <= at <= text.len(),
        forall|i: int| from <= i < at ==> text[i] != ' ',
        at < text.len() ==> text[at] == ' ',
    ensures
        spec_next_space(text, from) == at,
    decreases at - from,
{
    if from < at {
        lemma_next_space_is(text, from + 1, at);
    }
}

/// Returns the target of the request whose first line is `request_line`:
/// what stands between the first space of the line and the next one, or the
/// end of the line; nothing where the line has no space.
pub fn request_target(request_line: &str) -> (target: String)
    ensures
        target@ == spec_request_target(request_line@),
{
    let length = request_line.unicode_len();
    let mut position: usize = 0;
    let mut first: Option<usize> = None;
    let mut second: Option<usize> = None;
    for c in it: request_line.chars()
        invariant
            it.seq() == request_line@,
            length == request_line@.len(),
            position == it.index(),
            first is None ==> second is None && forall|i: int|
                0 <= i < position ==> request_line@[i] != ' ',
            first matches Some(a) ==> a < position && request_line@[a as int] == ' ' && forall|
                i: int,
            | 0 <= i < a ==> request_line@[i] != ' ',
            first matches Some(a) ==> (second is None ==> forall|i: int|
                a < i < position ==> request_line@[i] != ' '),
            first matches Some(a) ==> (second matches Some(b) ==> a < b < position
                && request_line@[b as int] == ' ' && forall|i: int|
                a < i < b ==> request_line@[i] != ' '),
    {
        if c == ' ' {
            if first.is_none() {
                first = Some(position);
            } else if second.is_none() {
                second = Some(position);
            }
        }
        position += 1;
    }
    match first {
        None => {
            proof {
                lemma_next_space_is(request_line@, 0, length as int);
            }
            String::new()
        },
        Some(a) => {
            let end = match second {
                Some(b) => b,
                None => length,
            };
            proof {
                lemma_next_space_is(request_line@, 0, a as int);
                lemma_next_space_is(request_line@, a + 1, end as int);
            }
            String::from_str(request_line.substring_char(a + 1, end))
        },
    }
}

/// Returns the address that the browser was redirected to, given the first
/// line of its request: the redirect address, followed by the target of the
/// request.
pub fn redirect_url(request_line: &str) -> (address: String)
    ensures
        address@ == REDIRECT_URL@ + spec_request_target(request_line@),
{
    let mut address = String::from_str(REDIRECT_URL);
    address.append(request_target(request_line).as_str());
    address
}

} // verus!
