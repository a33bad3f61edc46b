//! What the REST clients share: the request they send, what came back, and
//! how the answer becomes a value or an error.
//!
//! A client here builds a [`RestRequest`] and reads an [`HttpOutcome`]; the
//! transport that sends one and produces the other lives outside the library.
use vstd::prelude::*;

use crate::error::CteError;
use crate::text::{concat, decimal_text, u64_to_string};
use crate::types::{Exchange, MarketType};

verus! {

/// A GET request: the full URL, the endpoint that errors name, and the query
/// parameters in the order they are added.
#[derive(Debug)]
pub struct RestRequest {
    pub url: String,
    pub endpoint: String,
    pub query: Vec<(String, String)>,
}

/// The query parameters as texts.
pub open spec fn query_view(q: Seq<(String, String)>) -> Seq<(Seq<char>, Seq<char>)> {
    q.map_values(|p: (String, String)| (p.0@, p.1@))
}

/// What came of sending a request whose status is checked and decoding its
/// body.
#[derive(Debug)]
pub enum HttpOutcome<T> {
    /// The request could not be sent; the transport's message.
    Unsent(String),
    /// A status outside 200..=299 came back, with the body's text.
    Failed(u16, String),
    /// A success status came back but the body did not decode; the decoder's
    /// message.
    Undecodable(String),
    /// A success status and the decoded body.
    Decoded(T),
}

/// What came of sending a request whose status is not looked at and decoding
/// its body.
#[derive(Debug)]
pub enum Received<T> {
    /// The request could not be sent; the transport's message.
    Unsent(String),
    /// The body did not decode; the decoder's message.
    Undecodable(String),
    /// The decoded body.
    Decoded(T),
}

/// `r` is a REST error of `exchange` at `endpoint` with the given status and body.
pub open spec fn is_rest_error<T>(
    r: Result<T, CteError>,
    exchange: Exchange,
    endpoint: Seq<char>,
    status: u16,
    body: Seq<char>,
) -> bool {
    r matches Err(CteError::RestApi { exchange: e, endpoint: p, status: s, body: b }) && e
        == exchange && p@ == endpoint && s == status && b@ == body
}

/// `r` is a connection error of `exchange` with the given message.
pub open spec fn is_connection_error<T>(r: Result<T, CteError>, exchange: Exchange, message: Seq<char>) -> bool {
    r matches Err(CteError::ConnectionFailed { exchange: e, message: m }) && e == exchange && m@
        == message
}

/// The error a request gives for an outcome other than a decoded body: the
/// status is 0 when nothing was sent and 200 when the body did not decode.
pub open spec fn outcome_error<T, U>(
    r: Result<U, CteError>,
    exchange: Exchange,
    endpoint: Seq<char>,
    o: HttpOutcome<T>,
) -> bool {
    match o {
        HttpOutcome::Unsent(m) => is_rest_error(r, exchange, endpoint, 0, m@),
        HttpOutcome::Failed(s, b) => is_rest_error(r, exchange, endpoint, s, b@),
        HttpOutcome::Undecodable(m) => is_rest_error(
            r,
            exchange,
            endpoint,
            200,
            "Parse error: "@ + m@,
        ),
        HttpOutcome::Decoded(_) => false,
    }
}

/// The same for a listing request, where a request that could not be sent is
/// a connection error.
pub open spec fn listing_error<T, U>(
    r: Result<U, CteError>,
    exchange: Exchange,
    endpoint: Seq<char>,
    o: HttpOutcome<T>,
) -> bool {
    match o {
        HttpOutcome::Unsent(m) => is_connection_error(r, exchange, m@),
        _ => outcome_error(r, exchange, endpoint, o),
    }
}

fn rest_error(exchange: Exchange, endpoint: &str, status: u16, body: String) -> (e: CteError)
    ensures
        is_rest_error(Err::<(), CteError>(e), exchange, endpoint@, status, body@),
{
    CteError::RestApi { exchange, endpoint: String::from_str(endpoint), status, body }
}

/// The decoded body of a request to `endpoint`, or its error.
pub fn decoded<T>(exchange: Exchange, endpoint: &str, outcome: HttpOutcome<T>) -> (r: Result<T, CteError>)
    ensures
        outcome matches HttpOutcome::Decoded(t) ==> r == Ok::<T, CteError>(t),
        !(outcome is Decoded) ==> outcome_error(r, exchange, endpoint@, outcome),
{
    match outcome {
        HttpOutcome::Unsent(m) => Err(rest_error(exchange, endpoint, 0, m)),
        HttpOutcome::Failed(s, b) => Err(rest_error(exchange, endpoint, s, b)),
        HttpOutcome::Undecodable(m) => Err(
            rest_error(exchange, endpoint, 200, concat("Parse error: ", m.as_str())),
        ),
        HttpOutcome::Decoded(t) => Ok(t),
    }
}

/// The decoded body of a listing request to `endpoint`, or its error.
pub fn listing_decoded<T>(exchange: Exchange, endpoint: &str, outcome: HttpOutcome<T>) -> (r: Result<T, CteError>)
    ensures
        outcome matches HttpOutcome::Decoded(t) ==> r == Ok::<T, CteError>(t),
        !(outcome is Decoded) ==> listing_error(r, exchange, endpoint@, outcome),
{
    match outcome {
        HttpOutcome::Unsent(m) => Err(CteError::ConnectionFailed { exchange, message: m }),
        _ => decoded(exchange, endpoint, outcome),
    }
}

/// The decoded body of a request whose status is not looked at: a request
/// that could not be sent, or a body that did not decode, is a connection
/// error, the latter with `context` before the decoder's message.
pub fn received<T>(exchange: Exchange, context: &str, outcome: Received<T>) -> (r: Result<T, CteError>)
    ensures
        match outcome {
            Received::Unsent(m) => is_connection_error(r, exchange, m@),
            Received::Undecodable(m) => is_connection_error(r, exchange, context@ + m@),
            Received::Decoded(t) => r == Ok::<T, CteError>(t),
        },
{
    match outcome {
        Received::Unsent(m) => Err(CteError::ConnectionFailed { exchange, message: m }),
        Received::Undecodable(m) => Err(
            CteError::ConnectionFailed { exchange, message: concat(context, m.as_str()) },
        ),
        Received::Decoded(t) => Ok(t),
    }
}

/// The reason phrase that the `http` crate gives a status code, if it knows one.
pub uninterp spec fn canonical_reason(code: int) -> Option<Seq<char>>;

/// Calls `reqwest::StatusCode::from_u16` and `canonical_reason`; the phrase is
/// named by `canonical_reason`.
#[verifier::external_body]
fn status_reason(code: u16) -> (r: Option<String>)
    requires
        100 <= code <= 999,
    ensures
        match canonical_reason(code as int) {
            Some(t) => r matches Some(s) && s@ == t,
            None => r is None,
        },
{
    match reqwest::StatusCode::from_u16(code) {
        Ok(s) => s.canonical_reason().map(|p| p.to_string()),
        Err(_) => None,
    }
}

/// How a status code is printed: the number, a space and the reason phrase.
pub open spec fn status_text(code: u16) -> Seq<char> {
    decimal_text(code as nat) + " "@ + match canonical_reason(code as int) {
        Some(t) => t,
        None => "<unknown status code>"@,
    }
}

/// Whether a status code is a success (200..=299).
pub open spec fn is_success(code: u16) -> bool {
    200 <= code <= 299
}

/// What a ping makes of its answer: `Ok` for a success status, a connection
/// error with the transport's message or with the status otherwise.  The
/// answer is the transport's message or the status code.
pub fn ping_result(exchange: Exchange, answer: Result<u16, String>) -> (r: Result<(), CteError>)
    requires
        answer matches Ok(code) ==> 100 <= code <= 999,
    ensures
        match answer {
            Err(m) => is_connection_error(r, exchange, m@),
            Ok(code) => if is_success(code) {
                r is Ok
            } else {
                is_connection_error(r, exchange, "Ping returned status "@ + status_text(code))
            },
        },
{
    match answer {
        Err(m) => Err(CteError::ConnectionFailed { exchange, message: m }),
        Ok(code) => {
            if 200 <= code && code <= 299 {
                Ok(())
            } else {
                let mut message = concat("Ping returned status ", u64_to_string(code as u64).as_str());
                message.append(" ");
                match status_reason(code) {
                    Some(p) => message.append(p.as_str()),
                    None => message.append("<unknown status code>"),
                }
                assert(message@ =~= "Ping returned status "@ + status_text(code));
                Err(CteError::ConnectionFailed { exchange, message })
            }
        },
    }
}

/// An optional text, as its characters.
pub open spec fn opt_text(t: Option<String>) -> Option<Seq<char>> {
    match t {
        Some(s) => Some(s@),
        None => None,
    }
}

/// What `format!("{:?}", ..)` prints for an optional text: `None`, or `Some`
/// and the text quoted with Rust's escapes.
pub uninterp spec fn optional_text_debug(t: Option<Seq<char>>) -> Seq<char>;

/// Calls `format!("{:?}", ..)` on an optional text, whose result is named by
/// `optional_text_debug`; `None` prints as `None`.
#[verifier::external_body]
pub(crate) fn debug_optional_text(t: &Option<String>) -> (r: String)
    ensures
        r@ == optional_text_debug(opt_text(*t)),
        t is None ==> r@ == "None"@,
{
    format!("{:?}", t)
}

/// A request to `base` followed by `path`, with no query yet.
pub fn request_to(base: &str, path: &str) -> (r: RestRequest)
    ensures
        r.url@ == base@ + path@,
        r.endpoint@ == path@,
        r.query@.len() == 0,
{
    RestRequest { url: concat(base, path), endpoint: String::from_str(path), query: Vec::new() }
}

/// A request to `base` followed by `path` whose query is written into the URL;
/// errors name `endpoint`.
pub fn request_with_url(url: String, endpoint: &str) -> (r: RestRequest)
    ensures
        r.url@ == url@,
        r.endpoint@ == endpoint@,
        r.query@.len() == 0,
{
    RestRequest { url, endpoint: String::from_str(endpoint), query: Vec::new() }
}

/// The path of an endpoint that has a spot and a derivatives form.
pub open spec fn market_path(m: MarketType, spot: Seq<char>, derivatives: Seq<char>) -> Seq<char> {
    if m == MarketType::Spot {
        spot
    } else {
        derivatives
    }
}

/// A requested count, or `default` where none is given, and at most `max`.
pub open spec fn capped(limit: Option<u32>, default: u32, max: u32) -> u32 {
    let l = match limit {
        Some(l) => l,
        None => default,
    };
    if l < max {
        l
    } else {
        max
    }
}

/// A requested count, or `default` where none is given, and at most `max`.
pub fn capped_limit(limit: Option<u32>, default: u32, max: u32) -> (r: u32)
    ensures
        r == capped(limit, default, max),
{
    let l = match limit {
        Some(l) => l,
        None => default,
    };
    if l < max {
        l
    } else {
        max
    }
}

/// The smaller of two counts.
pub fn at_most(v: u32, max: u32) -> (r: u32)
    ensures
        r == if v < max { v } else { max },
{
    if v < max {
        v
    } else {
        max
    }
}

/// Filtering a prefix one element longer keeps that element exactly when the
/// predicate holds of it.
pub proof fn lemma_filter_prefix<A>(s: Seq<A>, k: int, pred: spec_fn(A) -> bool)
    requires
        0 <= k < s.len(),
    ensures
        s.subrange(0, k + 1).filter(pred) == (if pred(s[k]) {
            s.subrange(0, k).filter(pred).push(s[k])
        } else {
            s.subrange(0, k).filter(pred)
        }),
{
    reveal(Seq::filter);
    assert(s.subrange(0, k + 1).drop_last() =~= s.subrange(0, k));
}

impl RestRequest {
    /// Adds a query parameter after those already there.
    pub fn add_query(&mut self, key: &str, value: String)
        ensures
            final(self).url == old(self).url,
            final(self).endpoint == old(self).endpoint,
            query_view(final(self).query@) == query_view(old(self).query@).push((key@, value@)),
    {
        let ghost before = self.query@;
        self.query.push((String::from_str(key), value));
        proof {
            assert(query_view(self.query@) =~= query_view(before).push((key@, value@)));
        }
    }
}

} // verus!
