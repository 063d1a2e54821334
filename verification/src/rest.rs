//! What the REST calls have in common: the method and address of a call,
//! and the reading of a response's status.

use vstd::prelude::*;

verus! {

/// The method of a REST call.
#[derive(Clone, Copy, Debug, PartialEq, Eq)]
pub enum Method {
    Get,
    Put,
    Post,
}

/// A REST call that is ready to be sent: where it goes and how.
#[derive(Debug, PartialEq, Eq)]
pub struct RestCall {
    pub method: Method,
    /// The address, query included, as the URL parser wrote it.
    pub url: String,
}

/// A parameter of a query string: its name and its value.
pub type QueryPair = (&'static str, String);

/// The names and values of a list of query parameters.
pub open spec fn pairs_view(pairs: Seq<QueryPair>) -> Seq<(Seq<char>, Seq<char>)> {
    pairs.map_values(|pair: QueryPair| (pair.0@, pair.1@))
}

/// The address that `reqwest::Url::parse` makes of `input`, if it is one.
pub uninterp spec fn parsed_url(input: Seq<char>) -> Option<Seq<char>>;

/// The address that `reqwest::Url::parse_with_params` makes of `input` and
/// the query parameters `params`, if `input` is an address.
pub uninterp spec fn parsed_url_with_params(
    input: Seq<char>,
    params: Seq<(Seq<char>, Seq<char>)>,
) -> Option<Seq<char>>;

/// What `Display` writes for the `reqwest::StatusCode` with number `code`,
/// if there is one with that number.
pub uninterp spec fn status_line(code: u16) -> Option<Seq<char>>;

/// Calls `reqwest::Url::parse` and returns the parsed address as text. The
/// result is a function of `input` alone, which [`parsed_url`] names; there
/// is none where the parser refuses `input`.
#[verifier::external_body]
pub(crate) fn parse_url(input: &str) -> (url: Option<String>)
    ensures
        match url {
            Some(url) => parsed_url(input@) == Some(url@),
            None => parsed_url(input@) is None,
        },
{
    match reqwest::Url::parse(input) {
        Ok(url) => Some(url.into()),
        Err(_) => None,
    }
}

/// The longest address, query parameters included, that is handed to the
/// parser, counted as [`fits`] counts it: the bytes of the address, of the
/// names and of the values, and two more for every parameter, which stand
/// for the `=` and the `&` that are written with it. The parser keeps
/// places in an address as 32-bit numbers. An address within this limit
/// could grow two hundred-fold in the writing, by escaping or by putting the
/// name of a host into ASCII, and would still stay below theirs.
pub const MAX_URL_BYTES: usize = 0x100_0000;

/// How many bytes `text` takes.
pub open spec fn text_bytes(text: Seq<char>) -> nat {
    vstd::utf8::encode_utf8(text).len()
}

/// How many bytes the names and values of `params` take together, with two
/// more for each parameter: one for the `=` between its name and its value
/// and one for the `&` that sets it off from the next.
pub open spec fn query_bytes(params: Seq<(Seq<char>, Seq<char>)>) -> nat
    decreases params.len(),
{
    if params.len() == 0 {
        0
    } else {
        query_bytes(params.drop_last()) + text_bytes(params.last().0) + text_bytes(
            params.last().1,
        ) + 2
    }
}

/// Whether `input` and `params` together are short enough for the parser.
pub open spec fn fits(input: Seq<char>, params: Seq<(Seq<char>, Seq<char>)>) -> bool {
    text_bytes(input) + query_bytes(params) <= MAX_URL_BYTES
}

/// The address made of `input` and the query parameters `params`: what the
/// parser makes of them, and none where they are too long for it or where
/// `input` is no address.
pub open spec fn located(input: Seq<char>, params: Seq<(Seq<char>, Seq<char>)>) -> Option<
    Seq<char>,
> {
    if fits(input, params) {
        parsed_url_with_params(input, params)
    } else {
        None
    }
}

/// Calls `reqwest::Url::parse_with_params` and returns the parsed address
/// as text. The result is a function of `input` and of the names and values
/// in `params`, which [`parsed_url_with_params`] names; there is none where
/// the parser refuses `input`. The call is made only for what [`fits`],
/// because the parser gives up on an address whose length, separators
/// included, is beyond its 32-bit places.
#[verifier::external_body]
pub(crate) fn parse_url_with_params(input: &str, params: &Vec<QueryPair>) -> (url: Option<String>)
    requires
        fits(input@, pairs_view(params@)),
    ensures
        match url {
            Some(url) => parsed_url_with_params(input@, pairs_view(params@)) == Some(url@),
            None => parsed_url_with_params(input@, pairs_view(params@)) is None,
        },
{
    match reqwest::Url::parse_with_params(input, params) {
        Ok(url) => Some(url.into()),
        Err(_) => None,
    }
}

/// The bytes of a longer list of parameters are no fewer.
pub proof fn lemma_query_bytes_grow(params: Seq<(Seq<char>, Seq<char>)>, count: int)
    requires
        0 <= count <= params.len(),
    ensures
        query_bytes(params.take(count)) <= query_bytes(params),
    decreases params.len() - count,
{
    if count < params.len() {
        lemma_query_bytes_grow(params, count + 1);
        assert(params.take(count + 1).drop_last() =~= params.take(count));
    } else {
        assert(params.take(count) =~= params);
    }
}

/// Every parameter counts: a list that fits has no more parameters than
/// half the limit, however short their names and values are.
pub proof fn lemma_query_bytes_count(params: Seq<(Seq<char>, Seq<char>)>)
    ensures
        query_bytes(params) >= 2 * params.len(),
    decreases params.len(),
{
    if params.len() > 0 {
        lemma_query_bytes_count(params.drop_last());
    }
}

/// Whether `input` and `params` together are short enough for the parser.
pub fn address_fits(input: &str, params: &Vec<QueryPair>) -> (short: bool)
    ensures
        short == fits(input@, pairs_view(params@)),
{
    let ghost all = pairs_view(params@);
    let mut total: usize = input.as_bytes().len();
    if total > MAX_URL_BYTES {
        return false;
    }
    let mut i: usize = 0;
    assert(all.take(0) =~= Seq::empty());
    while i < params.len()
        invariant
            i <= params.len(),
            all == pairs_view(params@),
            total == text_bytes(input@) + query_bytes(all.take(i as int)),
            total <= MAX_URL_BYTES,
        decreases params.len() - i,
    {
        let name = params[i].0.as_bytes().len();
        let value = params[i].1.as_str().as_bytes().len();
        proof {
            assert(all.take(i + 1).drop_last() =~= all.take(i as int));
            assert(all.take(i + 1).last() == (params@[i as int].0@, params@[i as int].1@));
            lemma_query_bytes_grow(all, i + 1);
        }
        if name > MAX_URL_BYTES - total {
            return false;
        }
        if value > MAX_URL_BYTES - total - name {
            return false;
        }
        if 2 > MAX_URL_BYTES - total - name - value {
            return false;
        }
        total = total + name + value + 2;
        i = i + 1;
    }
    assert(all.take(i as int) =~= all);
    true
}

/// Makes the address of `input` and the query parameters `params`, as
/// [`located`] says.
pub fn locate(input: &str, params: &Vec<QueryPair>) -> (url: Option<String>)
    ensures
        match url {
            Some(url) => located(input@, pairs_view(params@)) == Some(url@),
            None => located(input@, pairs_view(params@)) is None,
        },
{
    if address_fits(input, params) {
        parse_url_with_params(input, params)
    } else {
        None
    }
}

/// Calls `reqwest::StatusCode::from_u16` and writes the status with
/// `to_string`. There is a status for the numbers from 100 to 999 and for
/// no others; what is written for one is named by [`status_line`].
#[verifier::external_body]
pub(crate) fn status_to_string(code: u16) -> (line: Option<String>)
    ensures
        line is Some <==> 100 <= code <= 999,
        match line {
            Some(line) => status_line(code) == Some(line@),
            None => status_line(code) is None,
        },
{
    match reqwest::StatusCode::from_u16(code) {
        Ok(status) => Some(status.to_string()),
        Err(_) => None,
    }
}

impl RestCall {
    /// The call with `method` to `url`, if there is an address.
    pub fn new(method: Method, url: Option<String>) -> (call: Option<RestCall>)
        ensures
            call == match url {
                Some(url) => Some(RestCall { method, url }),
                None => None,
            },
    {
        match url {
            Some(url) => Some(RestCall { method, url }),
            None => None,
        }
    }
}

/// Whether a response with this status number succeeded: the numbers from
/// 200 to 299.
pub open spec fn spec_is_success(status: u16) -> bool {
    200 <= status < 300
}

#[verifier::when_used_as_spec(spec_is_success)]
pub fn is_success(status: u16) -> (success: bool)
    ensures
        success == spec_is_success(status),
{
    200 <= status && status < 300
}

/// The error message for a response that did not succeed, given what
/// `Display` writes for its status and the text of its body.
pub open spec fn unexpected_result(line: Seq<char>, body: Seq<char>) -> Seq<char> {
    "Unexpected result with status code "@ + line + ": "@ + body
}

/// Builds the message of [`unexpected_result`].
pub fn unexpected_result_message(line: &str, body: &str) -> (message: String)
    ensures
        message@ == unexpected_result(line@, body@),
{
    let mut message = "Unexpected result with status code ".to_owned();
    message.append(line);
    message.append(": ");
    message.append(body);
    message
}

/// Reads the status of a response: nothing for a success, and for any other
/// status the error message, which names the status and quotes the body.
pub fn check_status(status: u16, body: &str) -> (error: Option<String>)
    requires
        100 <= status <= 999,
    ensures
        error is None <==> spec_is_success(status),
        error matches Some(message) ==> status_line(status) matches Some(line) && message@
            == unexpected_result(line, body@),
{
    if is_success(status) {
        return None;
    }
    match status_to_string(status) {
        Some(line) => Some(unexpected_result_message(line.as_str(), body)),
        None => None,
    }
}

} // verus!
