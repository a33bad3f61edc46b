//! gate.io: raw REST and WebSocket payloads and their normalisation.
use vstd::prelude::*;

use crate::decimal::{decimal_or_zero, Decimal};
use crate::normalize::{built_symbol, candle_prices, levels_from_pairs, levels_of_pairs, symbol_for, timeframe_millis};
use crate::text::{contains_char, decimal_text, parse_i64, parse_i64_spec, str_eq, u64_to_string};
use crate::time::{chrono_millis_in_range, millis_in_range, millis_or_now, now_millis, stamped};
use crate::timeframe::{timeframe_seconds, Timeframe};
use crate::types::{Candle, Exchange, MarketType, OrderBook, Symbol, Trade};

verus! {

/// A spot candle:
/// `[timestamp, quote_volume, close, high, low, open, volume, is_window_closed]`,
/// the timestamp in seconds.
pub type GateSpotCandleRaw = Vec<String>;

/// A futures candle; `t` is in seconds.
#[derive(Debug)]
pub struct GateFuturesCandleRaw {
    pub t: i64,
    pub v: Option<u64>,
    pub c: String,
    pub h: String,
    pub l: String,
    pub o: String,
    pub sum: Option<String>,
}

/// A REST order-book snapshot.
#[derive(Debug)]
pub struct GateOrderBookRaw {
    pub id: Option<u64>,
    pub asks: Vec<[String; 2]>,
    pub bids: Vec<[String; 2]>,
}

/// A REST trade; `create_time` is in seconds, `create_time_ms` in milliseconds.
#[derive(Debug)]
pub struct GateTradeRaw {
    pub id: String,
    pub create_time: Option<String>,
    pub create_time_ms: Option<String>,
    pub currency_pair: Option<String>,
    pub side: String,
    pub amount: String,
    pub price: String,
}

/// A spot currency pair.
#[derive(Debug)]
pub struct GateCurrencyPair {
    pub id: String,
    pub base: String,
    pub quote: String,
    pub trade_status: Option<String>,
}

/// A WebSocket candle update; `t` is in seconds.
#[derive(Debug)]
pub struct GateWsCandle {
    pub t: String,
    pub v: Option<String>,
    pub c: String,
    pub h: String,
    pub l: String,
    pub o: String,
    pub n: Option<String>,
}

/// A WebSocket trade update.  The feed sends `create_time` as fractional
/// seconds; `create_time_seconds_ms` holds it already turned into whole
/// milliseconds (`(create_time * 1000.0) as i64`).
#[derive(Debug)]
pub struct GateWsTrade {
    pub id: Option<u64>,
    pub create_time_seconds_ms: Option<i64>,
    pub create_time_ms: Option<String>,
    pub currency_pair: Option<String>,
    pub side: String,
    pub amount: String,
    pub price: String,
}

/// A WebSocket order-book update; `t` is in milliseconds.
#[derive(Debug)]
pub struct GateWsDepth {
    pub t: Option<u64>,
    pub s: Option<String>,
    pub asks: Vec<[String; 2]>,
    pub bids: Vec<[String; 2]>,
    pub last_update_id: Option<u64>,
}

/// The server time.
#[derive(Debug)]
pub struct GateServerTime {
    pub server_time: Option<u64>,
}

/// Open and close times in milliseconds of a candle that opens `secs` seconds
/// after the epoch.
pub open spec fn second_candle_close(secs: int, tf: Timeframe) -> int {
    secs * 1000 + timeframe_seconds(tf) * 1000
}

/// The millisecond times of a candle that opens at `secs` seconds fit in an `i64`.
pub open spec fn second_times_fit(secs: int, tf: Timeframe) -> bool {
    i64::MIN <= secs * 1000 && second_candle_close(secs, tf) <= i64::MAX
}

/// The open and close times of a candle opening at `secs` seconds, where
/// chrono accepts both.
pub open spec fn second_candle_times(secs: int, tf: Timeframe) -> Option<(int, int)> {
    if chrono_millis_in_range(secs * 1000) && chrono_millis_in_range(second_candle_close(secs, tf)) {
        Some((secs * 1000, second_candle_close(secs, tf)))
    } else {
        None
    }
}

/// The candle times of a text timestamp in seconds.
pub open spec fn text_candle_times(ts: Seq<char>, tf: Timeframe) -> Option<(int, int)> {
    match parse_i64_spec(ts) {
        Some(t) => second_candle_times(t, tf),
        None => None,
    }
}

/// The times of a candle opening at a text timestamp in seconds fit in an `i64`.
pub open spec fn text_times_fit(ts: Seq<char>, tf: Timeframe) -> bool {
    match parse_i64_spec(ts) {
        Some(t) => second_times_fit(t, tf),
        None => true,
    }
}

fn candle_times_from_seconds(secs: i64, tf: Timeframe) -> (r: Option<(i64, i64)>)
    requires
        second_times_fit(secs as int, tf),
    ensures
        match second_candle_times(secs as int, tf) {
            Some((o, c)) => r == Some((o as i64, c as i64)),
            None => r is None,
        },
{
    let open_ms = secs * 1000;
    let close_ms = open_ms + timeframe_millis(tf);
    if millis_in_range(open_ms) && millis_in_range(close_ms) {
        Some((open_ms, close_ms))
    } else {
        None
    }
}

/// The candle that a spot row of at least eight fields gives.
pub open spec fn spot_candle(raw: Seq<String>, symbol: Symbol, timeframe: Timeframe, c: Candle) -> bool {
    &&& text_candle_times(raw[0]@, timeframe) == Some((c.open_time as int, c.close_time as int))
    &&& c.symbol == symbol
    &&& c.timeframe == timeframe
    &&& candle_prices(c, raw[5]@, raw[3]@, raw[4]@, raw[2]@, raw[6]@, raw[1]@)
    &&& c.trades_count == 0
    &&& c.is_closed == (raw[7]@ == "true"@)
}

/// Turns a spot candle row into a candle; `None` where it has fewer than eight
/// fields, its time is not an integer, or chrono refuses the open or close time.
pub fn normalize_spot_candle(raw: &GateSpotCandleRaw, symbol: &Symbol, timeframe: Timeframe) -> (r: Option<Candle>)
    requires
        raw.len() >= 8 ==> text_times_fit(raw@[0]@, timeframe),
    ensures
        r is Some <==> raw.len() >= 8 && text_candle_times(raw@[0]@, timeframe) is Some,
        r matches Some(c) ==> spot_candle(raw@, *symbol, timeframe, c),
{
    if raw.len() < 8 {
        return None;
    }
    let ts = match parse_i64(raw[0].as_str()) {
        Some(t) => t,
        None => {
            return None;
        },
    };
    let (open_time, close_time) = match candle_times_from_seconds(ts, timeframe) {
        Some(t) => t,
        None => {
            return None;
        },
    };
    Some(
        Candle {
            symbol: symbol.duplicate(),
            timeframe,
            open_time,
            close_time,
            open: Decimal::parse_or_zero(raw[5].as_str()),
            high: Decimal::parse_or_zero(raw[3].as_str()),
            low: Decimal::parse_or_zero(raw[4].as_str()),
            close: Decimal::parse_or_zero(raw[2].as_str()),
            volume: Decimal::parse_or_zero(raw[6].as_str()),
            quote_volume: Decimal::parse_or_zero(raw[1].as_str()),
            trades_count: 0,
            is_closed: str_eq(raw[7].as_str(), "true"),
        },
    )
}

/// The quote volume of a futures candle: its `sum` where that is a decimal,
/// zero otherwise.
pub open spec fn futures_quote_volume(sum: Option<String>) -> (int, nat) {
    match sum {
        Some(s) => decimal_or_zero(s@),
        None => (0, 0),
    }
}

/// Turns a futures candle into a candle; the volume is the contract count.
pub fn normalize_futures_candle(raw: &GateFuturesCandleRaw, symbol: &Symbol, timeframe: Timeframe) -> (r: Option<Candle>)
    requires
        second_times_fit(raw.t as int, timeframe),
    ensures
        r is Some <==> second_candle_times(raw.t as int, timeframe) is Some,
        r matches Some(c) ==> {
            &&& second_candle_times(raw.t as int, timeframe) == Some((c.open_time as int, c.close_time as int))
            &&& c.symbol == *symbol
            &&& c.timeframe == timeframe
            &&& c.open@ == decimal_or_zero(raw.o@)
            &&& c.high@ == decimal_or_zero(raw.h@)
            &&& c.low@ == decimal_or_zero(raw.l@)
            &&& c.close@ == decimal_or_zero(raw.c@)
            &&& c.volume@ == (match raw.v {
                Some(v) => v as int,
                None => 0,
            }, 0nat)
            &&& c.quote_volume@ == futures_quote_volume(raw.sum)
            &&& c.trades_count == 0
            &&& c.is_closed
        },
{
    let (open_time, close_time) = match candle_times_from_seconds(raw.t, timeframe) {
        Some(t) => t,
        None => {
            return None;
        },
    };
    let volume: u64 = match raw.v {
        Some(v) => v,
        None => 0,
    };
    let quote_volume = match &raw.sum {
        Some(s) => Decimal::parse_or_zero(s.as_str()),
        None => Decimal::zero(),
    };
    Some(
        Candle {
            symbol: symbol.duplicate(),
            timeframe,
            open_time,
            close_time,
            open: Decimal::parse_or_zero(raw.o.as_str()),
            high: Decimal::parse_or_zero(raw.h.as_str()),
            low: Decimal::parse_or_zero(raw.l.as_str()),
            close: Decimal::parse_or_zero(raw.c.as_str()),
            volume: Decimal::from_u64(volume),
            quote_volume,
            trades_count: 0,
            is_closed: true,
        },
    )
}

/// Turns a WebSocket candle update into a candle; the quote volume is zero.
pub fn normalize_ws_candle(raw: &GateWsCandle, symbol: &Symbol, timeframe: Timeframe) -> (r: Option<Candle>)
    requires
        text_times_fit(raw.t@, timeframe),
    ensures
        r is Some <==> text_candle_times(raw.t@, timeframe) is Some,
        r matches Some(c) ==> {
            &&& text_candle_times(raw.t@, timeframe) == Some((c.open_time as int, c.close_time as int))
            &&& c.symbol == *symbol
            &&& c.timeframe == timeframe
            &&& c.open@ == decimal_or_zero(raw.o@)
            &&& c.high@ == decimal_or_zero(raw.h@)
            &&& c.low@ == decimal_or_zero(raw.l@)
            &&& c.close@ == decimal_or_zero(raw.c@)
            &&& c.volume@ == futures_quote_volume(raw.v)
            &&& c.quote_volume@ == (0int, 0nat)
            &&& c.trades_count == 0
            &&& c.is_closed
        },
{
    let ts = match parse_i64(raw.t.as_str()) {
        Some(t) => t,
        None => {
            return None;
        },
    };
    let (open_time, close_time) = match candle_times_from_seconds(ts, timeframe) {
        Some(t) => t,
        None => {
            return None;
        },
    };
    let volume = match &raw.v {
        Some(s) => Decimal::parse_or_zero(s.as_str()),
        None => Decimal::zero(),
    };
    Some(
        Candle {
            symbol: symbol.duplicate(),
            timeframe,
            open_time,
            close_time,
            open: Decimal::parse_or_zero(raw.o.as_str()),
            high: Decimal::parse_or_zero(raw.h.as_str()),
            low: Decimal::parse_or_zero(raw.l.as_str()),
            close: Decimal::parse_or_zero(raw.c.as_str()),
            volume,
            quote_volume: Decimal::zero(),
            trades_count: 0,
            is_closed: true,
        },
    )
}

/// The time of a REST trade in milliseconds: `create_time_ms` where it is an
/// integer, else `create_time` seconds times a thousand, else zero.
pub open spec fn trade_millis(ms: Option<String>, secs: Option<String>) -> int {
    match ms {
        Some(m) if parse_i64_spec(m@) is Some => parse_i64_spec(m@)->0,
        _ => match secs {
            Some(s) => match parse_i64_spec(s@) {
                Some(t) => t * 1000,
                None => 0,
            },
            None => 0,
        },
    }
}

/// The seconds-based time of a REST trade, where used, fits in an `i64` once
/// turned into milliseconds.
pub open spec fn trade_millis_fit(ms: Option<String>, secs: Option<String>) -> bool {
    i64::MIN <= trade_millis(ms, secs) <= i64::MAX
}

/// Turns a REST trade into a trade; a sell counts as buyer-maker.
pub fn normalize_trade(raw: &GateTradeRaw, symbol: &Symbol) -> (t: Trade)
    requires
        trade_millis_fit(raw.create_time_ms, raw.create_time),
    ensures
        t.symbol == *symbol,
        t.id == raw.id,
        t.price@ == decimal_or_zero(raw.price@),
        t.quantity@ == decimal_or_zero(raw.amount@),
        stamped(trade_millis(raw.create_time_ms, raw.create_time), t.timestamp as int),
        t.is_buyer_maker == (raw.side@ == "sell"@),
{
    let from_ms = match &raw.create_time_ms {
        Some(m) => parse_i64(m.as_str()),
        None => None,
    };
    let ts_ms: i64 = match from_ms {
        Some(v) => v,
        None => match &raw.create_time {
            Some(s) => match parse_i64(s.as_str()) {
                Some(t) => t * 1000,
                None => 0,
            },
            None => 0,
        },
    };
    Trade {
        symbol: symbol.duplicate(),
        id: raw.id.clone(),
        price: Decimal::parse_or_zero(raw.price.as_str()),
        quantity: Decimal::parse_or_zero(raw.amount.as_str()),
        timestamp: millis_or_now(ts_ms),
        is_buyer_maker: str_eq(raw.side.as_str(), "sell"),
    }
}

/// The time of a WebSocket trade in milliseconds: `create_time_ms` where it
/// is an integer, else the converted `create_time`, else zero.
pub open spec fn ws_trade_millis(raw: GateWsTrade) -> int {
    match raw.create_time_ms {
        Some(m) if parse_i64_spec(m@) is Some => parse_i64_spec(m@)->0,
        _ => match raw.create_time_seconds_ms {
            Some(v) => v as int,
            None => 0,
        },
    }
}

/// The id of a WebSocket trade: the decimal text of its id, or the empty text.
pub open spec fn ws_trade_id(raw: GateWsTrade) -> Seq<char> {
    match raw.id {
        Some(i) => decimal_text(i as nat),
        None => Seq::empty(),
    }
}

/// Turns a WebSocket trade update into a trade; a sell counts as buyer-maker.
pub fn normalize_ws_trade(raw: &GateWsTrade, symbol: &Symbol) -> (t: Trade)
    ensures
        t.symbol == *symbol,
        t.id@ == ws_trade_id(*raw),
        t.price@ == decimal_or_zero(raw.price@),
        t.quantity@ == decimal_or_zero(raw.amount@),
        stamped(ws_trade_millis(*raw), t.timestamp as int),
        t.is_buyer_maker == (raw.side@ == "sell"@),
{
    let from_ms = match &raw.create_time_ms {
        Some(m) => parse_i64(m.as_str()),
        None => None,
    };
    let ts_ms: i64 = match from_ms {
        Some(v) => v,
        None => match raw.create_time_seconds_ms {
            Some(v) => v,
            None => 0,
        },
    };
    let id = match raw.id {
        Some(i) => u64_to_string(i),
        None => String::new(),
    };
    Trade {
        symbol: symbol.duplicate(),
        id,
        price: Decimal::parse_or_zero(raw.price.as_str()),
        quantity: Decimal::parse_or_zero(raw.amount.as_str()),
        timestamp: millis_or_now(ts_ms),
        is_buyer_maker: str_eq(raw.side.as_str(), "sell"),
    }
}

/// Turns a REST order-book snapshot into an order book stamped with the
/// current time; the sequence is the snapshot id, or zero.
pub fn normalize_depth(raw: &GateOrderBookRaw, symbol: &Symbol) -> (b: OrderBook)
    ensures
        b.symbol == *symbol,
        chrono_millis_in_range(b.timestamp as int),
        levels_of_pairs(raw.bids@, b.bids@),
        levels_of_pairs(raw.asks@, b.asks@),
        b.sequence == match raw.id {
            Some(i) => i,
            None => 0,
        },
{
    OrderBook {
        symbol: symbol.duplicate(),
        timestamp: now_millis(),
        bids: levels_from_pairs(&raw.bids),
        asks: levels_from_pairs(&raw.asks),
        sequence: match raw.id {
            Some(i) => i,
            None => 0,
        },
    }
}

/// Turns a WebSocket order-book update into an order book; the time is the
/// update's where present and accepted, the current time otherwise.
pub fn normalize_ws_depth(raw: &GateWsDepth, symbol: &Symbol) -> (b: OrderBook)
    ensures
        b.symbol == *symbol,
        chrono_millis_in_range(b.timestamp as int),
        (raw.t matches Some(t) && chrono_millis_in_range((t as i64) as int)) ==> b.timestamp == raw.t->0 as i64,
        levels_of_pairs(raw.bids@, b.bids@),
        levels_of_pairs(raw.asks@, b.asks@),
        b.sequence == match raw.last_update_id {
            Some(u) => u,
            None => 0,
        },
{
    let timestamp = match raw.t {
        Some(t) => millis_or_now(t as i64),
        None => now_millis(),
    };
    OrderBook {
        symbol: symbol.duplicate(),
        timestamp,
        bids: levels_from_pairs(&raw.bids),
        asks: levels_from_pairs(&raw.asks),
        sequence: match raw.last_update_id {
            Some(u) => u,
            None => 0,
        },
    }
}

/// A gate.io symbol with the base and quote assets in upper case.
pub fn build_symbol(id: &str, base: &str, quote: &str, market_type: MarketType) -> (s: Symbol)
    ensures
        built_symbol(s, id@, base@, quote@, market_type, Exchange::GateIo),
{
    symbol_for(id, base, quote, market_type, Exchange::GateIo)
}

/// The pair that names a symbol on gate.io: its raw symbol where that already holds an
/// underscore, `BASE_QUOTE` otherwise.
pub open spec fn gate_pair_text(symbol: Symbol) -> Seq<char> {
    if symbol.raw_symbol@.contains('_') {
        symbol.raw_symbol@
    } else {
        symbol.base@ + "_"@ + symbol.quote@
    }
}

/// The pair name of a symbol on gate.io, such as `BTC_USDT`.
pub fn to_gate_pair(symbol: &Symbol) -> (r: String)
    ensures
        r@ == gate_pair_text(*symbol),
{
    if contains_char(symbol.raw_symbol.as_str(), '_') {
        return symbol.raw_symbol.clone();
    }
    let mut out = String::from_str(symbol.base.as_str());
    out.append("_");
    out.append(symbol.quote.as_str());
    out
}

/// Field of a gate.io spot candlestick row: the opening time in seconds.
pub const GATE_SPOT_TIME: usize = 0usize;

/// Field of a gate.io spot candlestick row: the volume in the quote asset.
pub const GATE_SPOT_QUOTE_VOLUME: usize = 1usize;

/// Field of a gate.io spot candlestick row: the closing price.
pub const GATE_SPOT_CLOSE: usize = 2usize;

/// Field of a gate.io spot candlestick row: the highest price.
pub const GATE_SPOT_HIGH: usize = 3usize;

/// Field of a gate.io spot candlestick row: the lowest price.
pub const GATE_SPOT_LOW: usize = 4usize;

/// Field of a gate.io spot candlestick row: the opening price.
pub const GATE_SPOT_OPEN: usize = 5usize;

/// Field of a gate.io spot candlestick row: the volume in the base asset.
pub const GATE_SPOT_VOLUME: usize = 6usize;

/// Field of a gate.io spot candlestick row: whether the window has closed.
pub const GATE_SPOT_CLOSED: usize = 7usize;

/// A gate.io spot row gives the candle of its fields as gate.io lays them
/// out: time, quote volume, close, high, low, open, base volume, closed.
pub proof fn lemma_gate_spot_row_layout(raw: Seq<String>, symbol: Symbol, timeframe: Timeframe, c: Candle)
    requires
        spot_candle(raw, symbol, timeframe, c),
    ensures
        c.open@ == decimal_or_zero(raw[GATE_SPOT_OPEN as int]@),
        c.high@ == decimal_or_zero(raw[GATE_SPOT_HIGH as int]@),
        c.low@ == decimal_or_zero(raw[GATE_SPOT_LOW as int]@),
        c.close@ == decimal_or_zero(raw[GATE_SPOT_CLOSE as int]@),
        c.volume@ == decimal_or_zero(raw[GATE_SPOT_VOLUME as int]@),
        c.quote_volume@ == decimal_or_zero(raw[GATE_SPOT_QUOTE_VOLUME as int]@),
        c.symbol == symbol,
        c.timeframe == timeframe,
        c.is_closed == (raw[GATE_SPOT_CLOSED as int]@ == "true"@),
{
}

} // verus!
