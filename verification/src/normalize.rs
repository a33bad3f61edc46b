//! What the exchange normalisers share: price levels, candle prices, symbol
//! construction and the candle close time.
use vstd::prelude::*;

use crate::decimal::{decimal_or_zero, Decimal};
use crate::text::{
    is_ascii_text, lemma_uppercase_idempotent, parse_i64, parse_i64_spec, to_uppercase, uppercase,
};
use crate::time::{chrono_millis_in_range, millis_in_range};
use crate::timeframe::{timeframe_seconds, Timeframe};
use crate::types::{Candle, Exchange, MarketType, OrderBookLevel, Symbol};

verus! {

/// The level that a `[price, quantity]` pair of texts denotes; a text that is
/// not a decimal counts as zero.
pub open spec fn level_of(price: Seq<char>, quantity: Seq<char>, l: OrderBookLevel) -> bool {
    l.price@ == decimal_or_zero(price) && l.quantity@ == decimal_or_zero(quantity)
}

/// `levels` are the pairs of `pairs`, one for one and in order.
pub open spec fn levels_of_pairs(pairs: Seq<[String; 2]>, levels: Seq<OrderBookLevel>) -> bool {
    &&& levels.len() == pairs.len()
    &&& forall|i: int|
        0 <= i < pairs.len() ==> level_of(
            #[trigger] pairs[i]@[0]@,
            pairs[i]@[1]@,
            levels[i],
        )
}

/// Turns `[price, quantity]` text pairs into order-book levels.
pub fn levels_from_pairs(pairs: &Vec<[String; 2]>) -> (r: Vec<OrderBookLevel>)
    ensures
        levels_of_pairs(pairs@, r@),
{
    let mut out: Vec<OrderBookLevel> = Vec::new();
    let mut i: usize = 0;
    while i < pairs.len()
        invariant
            i <= pairs.len(),
            out@.len() == i,
            forall|k: int|
                0 <= k < i ==> level_of(#[trigger] pairs@[k]@[0]@, pairs@[k]@[1]@, out@[k]),
        decreases pairs.len() - i,
    {
        let pair = &pairs[i];
        let level = OrderBookLevel {
            price: Decimal::parse_or_zero(pair[0].as_str()),
            quantity: Decimal::parse_or_zero(pair[1].as_str()),
        };
        out.push(level);
        i = i + 1;
    }
    out
}

/// The six prices of a candle are read from the six texts.
pub open spec fn candle_prices(
    c: Candle,
    open: Seq<char>,
    high: Seq<char>,
    low: Seq<char>,
    close: Seq<char>,
    volume: Seq<char>,
    quote_volume: Seq<char>,
) -> bool {
    &&& c.open@ == decimal_or_zero(open)
    &&& c.high@ == decimal_or_zero(high)
    &&& c.low@ == decimal_or_zero(low)
    &&& c.close@ == decimal_or_zero(close)
    &&& c.volume@ == decimal_or_zero(volume)
    &&& c.quote_volume@ == decimal_or_zero(quote_volume)
}

/// The close time of a candle that opens at `open_ms`: one timeframe later.
pub open spec fn close_millis(open_ms: int, tf: Timeframe) -> int {
    open_ms + timeframe_seconds(tf) * 1000
}

/// The close time of a candle whose open time is the text `ts` fits in an
/// `i64` (trivially so where the text is not a number).
pub open spec fn close_time_fits(ts: Seq<char>, tf: Timeframe) -> bool {
    match parse_i64_spec(ts) {
        Some(t) => close_millis(t, tf) <= i64::MAX,
        None => true,
    }
}

/// The length of a timeframe in milliseconds.
pub fn timeframe_millis(tf: Timeframe) -> (r: i64)
    ensures
        r == timeframe_seconds(tf) * 1000,
        0 < r <= 2592000000,
{
    let s = tf.to_seconds();
    (s as i64) * 1000
}

/// A symbol of the given exchange, with the base and quote assets in upper case.
pub open spec fn built_symbol(
    s: Symbol,
    raw: Seq<char>,
    base: Seq<char>,
    quote: Seq<char>,
    market_type: MarketType,
    exchange: Exchange,
) -> bool {
    &&& s.base@ == uppercase(base)
    &&& s.quote@ == uppercase(quote)
    &&& s.market_type == market_type
    &&& s.exchange == exchange
    &&& s.raw_symbol@ == raw
}

/// Building a symbol from ASCII asset names and then building it again from
/// the result's own fields changes nothing: the assets are already upper case.
pub proof fn lemma_built_symbol_rebuilds(
    s: Symbol,
    again: Symbol,
    raw: Seq<char>,
    base: Seq<char>,
    quote: Seq<char>,
    market_type: MarketType,
    exchange: Exchange,
)
    requires
        is_ascii_text(base),
        is_ascii_text(quote),
        built_symbol(s, raw, base, quote, market_type, exchange),
        built_symbol(again, s.raw_symbol@, s.base@, s.quote@, s.market_type, exchange),
    ensures
        again.base@ == s.base@,
        again.quote@ == s.quote@,
        again.market_type == s.market_type,
        again.exchange == s.exchange,
        again.raw_symbol@ == s.raw_symbol@,
{
    lemma_uppercase_idempotent(base);
    lemma_uppercase_idempotent(quote);
}

/// Builds a symbol of the given exchange.
pub fn symbol_for(raw: &str, base: &str, quote: &str, market_type: MarketType, exchange: Exchange) -> (r: Symbol)
    ensures
        built_symbol(r, raw@, base@, quote@, market_type, exchange),
{
    Symbol {
        base: to_uppercase(base),
        quote: to_uppercase(quote),
        market_type,
        exchange,
        raw_symbol: String::from_str(raw),
    }
}

/// The open and close times of a candle whose open time in milliseconds is
/// the text `ts`: `None` where the text is not an integer or chrono refuses
/// one of the two instants.
pub open spec fn candle_times_of(ts: Seq<char>, tf: Timeframe) -> Option<(int, int)> {
    match parse_i64_spec(ts) {
        Some(t) => if chrono_millis_in_range(t) && chrono_millis_in_range(close_millis(t, tf)) {
            Some((t, close_millis(t, tf)))
        } else {
            None
        },
        None => None,
    }
}

/// Reads the open time of a candle and computes its close time.
pub fn candle_times(ts: &str, tf: Timeframe) -> (r: Option<(i64, i64)>)
    requires
        close_time_fits(ts@, tf),
    ensures
        match candle_times_of(ts@, tf) {
            Some((o, c)) => r == Some((o as i64, c as i64)),
            None => r is None,
        },
{
    match parse_i64(ts) {
        Some(t) => {
            let close = t + timeframe_millis(tf);
            if millis_in_range(t) && millis_in_range(close) {
                Some((t, close))
            } else {
                None
            }
        },
        None => None,
    }
}

/// The integer that a text denotes, zero where it is not one
/// (`s.parse::<i64>().unwrap_or(0)`).
pub open spec fn i64_or_zero(s: Seq<char>) -> int {
    match parse_i64_spec(s) {
        Some(v) => v,
        None => 0,
    }
}

/// Reads an integer, zero where the text is not one.
pub fn parse_i64_or_zero(s: &str) -> (r: i64)
    ensures
        r as int == i64_or_zero(s@),
{
    match parse_i64(s) {
        Some(v) => v,
        None => 0,
    }
}

/// The integer that an optional text denotes, zero where it is absent or not
/// an integer.
pub open spec fn optional_i64_or_zero(s: Option<String>) -> int {
    match s {
        Some(t) => i64_or_zero(t@),
        None => 0,
    }
}

/// Reads an optional integer text, zero where it is absent or not an integer.
pub fn parse_optional_i64_or_zero(s: &Option<String>) -> (r: i64)
    ensures
        r as int == optional_i64_or_zero(*s),
{
    match s {
        Some(t) => parse_i64_or_zero(t.as_str()),
        None => 0,
    }
}

} // verus!
