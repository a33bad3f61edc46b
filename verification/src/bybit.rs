//! Bybit: raw REST and WebSocket payloads and their normalisation.
use vstd::prelude::*;

use crate::decimal::{decimal_or_zero, Decimal};
use crate::normalize::{
    built_symbol, candle_prices, candle_times, candle_times_of, close_time_fits, i64_or_zero,
    levels_from_pairs, levels_of_pairs, parse_i64_or_zero, symbol_for,
};
use crate::text::{eq_ignore_ascii_case, eq_ignore_ascii_case_spec};
use crate::time::{chrono_millis_in_range, millis_or_now, now_millis, stamped};
use crate::timeframe::Timeframe;
use crate::types::{market_type_text, Candle, Exchange, MarketType, OrderBook, Symbol, Trade};

verus! {

/// The envelope of every REST response.
#[derive(Debug)]
pub struct BybitResponse<T> {
    pub ret_code: i32,
    pub ret_msg: Option<String>,
    pub result: T,
}

/// The klines of a REST response, each `[start, open, high, low, close, volume, turnover]`.
#[derive(Debug)]
pub struct BybitKlineResult {
    pub list: Vec<Vec<String>>,
}

/// A REST order-book snapshot.
#[derive(Debug)]
pub struct BybitOrderBookResult {
    pub b: Vec<[String; 2]>,
    pub a: Vec<[String; 2]>,
    pub ts: Option<u64>,
    pub u: Option<u64>,
}

/// The trades of a REST response.
#[derive(Debug)]
pub struct BybitTradeResult {
    pub list: Vec<BybitTradeRaw>,
}

/// A REST trade.
#[derive(Debug)]
pub struct BybitTradeRaw {
    pub exec_id: String,
    pub symbol: String,
    pub price: String,
    pub size: String,
    pub side: String,
    pub time: String,
}

/// The instruments of a REST response.
#[derive(Debug)]
pub struct BybitInstrumentsResult {
    pub list: Vec<BybitInstrumentInfo>,
}

/// One instrument.
#[derive(Debug)]
pub struct BybitInstrumentInfo {
    pub symbol: String,
    pub base_coin: Option<String>,
    pub quote_coin: Option<String>,
    pub status: String,
}

/// A WebSocket kline.
#[derive(Debug)]
pub struct BybitWsKline {
    pub start: u64,
    pub end: u64,
    pub interval: String,
    pub open: String,
    pub close: String,
    pub high: String,
    pub low: String,
    pub volume: String,
    pub turnover: String,
    pub confirm: bool,
}

/// A WebSocket trade.
#[derive(Debug)]
pub struct BybitWsTrade {
    pub timestamp: u64,
    pub s: String,
    pub side: String,
    pub v: String,
    pub p: String,
    pub i: Option<String>,
}

/// A WebSocket order-book update.
#[derive(Debug)]
pub struct BybitWsDepth {
    pub s: String,
    pub b: Vec<[String; 2]>,
    pub a: Vec<[String; 2]>,
    pub u: Option<u64>,
    pub seq: Option<u64>,
}

/// The candle that a REST kline of at least seven fields gives, whose close
/// time is one timeframe after its open time.
pub open spec fn kline_candle(raw: Seq<String>, symbol: Symbol, timeframe: Timeframe, c: Candle) -> bool {
    &&& candle_times_of(raw[0]@, timeframe) == Some((c.open_time as int, c.close_time as int))
    &&& c.symbol == symbol
    &&& c.timeframe == timeframe
    &&& candle_prices(c, raw[1]@, raw[2]@, raw[3]@, raw[4]@, raw[5]@, raw[6]@)
    &&& c.trades_count == 0
    &&& c.is_closed
}

/// Turns a REST kline into a candle; `None` where it has fewer than seven
/// fields, its start is not an integer, or chrono refuses the open or close time.
pub fn normalize_kline(raw: &[String], symbol: &Symbol, timeframe: Timeframe) -> (r: Option<Candle>)
    requires
        raw@.len() >= 7 ==> close_time_fits(raw@[0]@, timeframe),
    ensures
        r is Some <==> raw@.len() >= 7 && candle_times_of(raw@[0]@, timeframe) is Some,
        r matches Some(c) ==> kline_candle(raw@, *symbol, timeframe, c),
{
    if raw.len() < 7 {
        return None;
    }
    let (open_time, close_time) = match candle_times(raw[0].as_str(), timeframe) {
        Some(t) => t,
        None => {
            return None;
        },
    };
    Some(
        Candle {
            symbol: symbol.duplicate(),
            timeframe,
            open_time,
            close_time,
            open: Decimal::parse_or_zero(raw[1].as_str()),
            high: Decimal::parse_or_zero(raw[2].as_str()),
            low: Decimal::parse_or_zero(raw[3].as_str()),
            close: Decimal::parse_or_zero(raw[4].as_str()),
            volume: Decimal::parse_or_zero(raw[5].as_str()),
            quote_volume: Decimal::parse_or_zero(raw[6].as_str()),
            trades_count: 0,
            is_closed: true,
        },
    )
}

/// Turns a WebSocket kline into a candle; the turnover is the quote volume and
/// the candle is closed once confirmed.
pub fn normalize_ws_kline(raw: &BybitWsKline, symbol: &Symbol, timeframe: Timeframe) -> (c: Candle)
    ensures
        c.symbol == *symbol,
        c.timeframe == timeframe,
        stamped((raw.start as i64) as int, c.open_time as int),
        stamped((raw.end as i64) as int, c.close_time as int),
        candle_prices(c, raw.open@, raw.high@, raw.low@, raw.close@, raw.volume@, raw.turnover@),
        c.trades_count == 0,
        c.is_closed == raw.confirm,
{
    Candle {
        symbol: symbol.duplicate(),
        timeframe,
        open_time: millis_or_now(raw.start as i64),
        close_time: millis_or_now(raw.end as i64),
        open: Decimal::parse_or_zero(raw.open.as_str()),
        high: Decimal::parse_or_zero(raw.high.as_str()),
        low: Decimal::parse_or_zero(raw.low.as_str()),
        close: Decimal::parse_or_zero(raw.close.as_str()),
        volume: Decimal::parse_or_zero(raw.volume.as_str()),
        quote_volume: Decimal::parse_or_zero(raw.turnover.as_str()),
        trades_count: 0,
        is_closed: raw.confirm,
    }
}

/// Turns a REST trade into a trade; a sell counts as buyer-maker.
pub fn normalize_trade(raw: &BybitTradeRaw, symbol: &Symbol) -> (t: Trade)
    ensures
        t.symbol == *symbol,
        t.id == raw.exec_id,
        t.price@ == decimal_or_zero(raw.price@),
        t.quantity@ == decimal_or_zero(raw.size@),
        stamped(i64_or_zero(raw.time@), t.timestamp as int),
        t.is_buyer_maker == eq_ignore_ascii_case_spec(raw.side@, "sell"@),
{
    let ts = parse_i64_or_zero(raw.time.as_str());
    Trade {
        symbol: symbol.duplicate(),
        id: raw.exec_id.clone(),
        price: Decimal::parse_or_zero(raw.price.as_str()),
        quantity: Decimal::parse_or_zero(raw.size.as_str()),
        timestamp: millis_or_now(ts),
        is_buyer_maker: eq_ignore_ascii_case(raw.side.as_str(), "sell"),
    }
}

/// The id of a WebSocket trade: its `i` field, or the empty text.
pub open spec fn ws_trade_id(raw: BybitWsTrade) -> Seq<char> {
    match raw.i {
        Some(i) => i@,
        None => Seq::empty(),
    }
}

/// Turns a WebSocket trade into a trade; a sell counts as buyer-maker.
pub fn normalize_ws_trade(raw: &BybitWsTrade, symbol: &Symbol) -> (t: Trade)
    ensures
        t.symbol == *symbol,
        t.id@ == ws_trade_id(*raw),
        t.price@ == decimal_or_zero(raw.p@),
        t.quantity@ == decimal_or_zero(raw.v@),
        stamped((raw.timestamp as i64) as int, t.timestamp as int),
        t.is_buyer_maker == eq_ignore_ascii_case_spec(raw.side@, "sell"@),
{
    let id = match &raw.i {
        Some(i) => i.clone(),
        None => String::new(),
    };
    Trade {
        symbol: symbol.duplicate(),
        id,
        price: Decimal::parse_or_zero(raw.p.as_str()),
        quantity: Decimal::parse_or_zero(raw.v.as_str()),
        timestamp: millis_or_now(raw.timestamp as i64),
        is_buyer_maker: eq_ignore_ascii_case(raw.side.as_str(), "sell"),
    }
}

/// Turns a REST order-book snapshot into an order book; missing time and
/// update id count as zero.
pub fn normalize_depth(raw: &BybitOrderBookResult, symbol: &Symbol) -> (b: OrderBook)
    ensures
        b.symbol == *symbol,
        stamped(
            (match raw.ts {
                Some(t) => t,
                None => 0u64,
            } as i64) as int,
            b.timestamp as int,
        ),
        levels_of_pairs(raw.b@, b.bids@),
        levels_of_pairs(raw.a@, b.asks@),
        b.sequence == match raw.u {
            Some(u) => u,
            None => 0,
        },
{
    let ts: u64 = match raw.ts {
        Some(t) => t,
        None => 0,
    };
    OrderBook {
        symbol: symbol.duplicate(),
        timestamp: millis_or_now(ts as i64),
        bids: levels_from_pairs(&raw.b),
        asks: levels_from_pairs(&raw.a),
        sequence: match raw.u {
            Some(u) => u,
            None => 0,
        },
    }
}

/// Turns a WebSocket order-book update into an order book stamped with the
/// current time.
pub fn normalize_ws_depth(raw: &BybitWsDepth, symbol: &Symbol) -> (b: OrderBook)
    ensures
        b.symbol == *symbol,
        chrono_millis_in_range(b.timestamp as int),
        levels_of_pairs(raw.b@, b.bids@),
        levels_of_pairs(raw.a@, b.asks@),
        b.sequence == match raw.u {
            Some(u) => u,
            None => 0,
        },
{
    OrderBook {
        symbol: symbol.duplicate(),
        timestamp: now_millis(),
        bids: levels_from_pairs(&raw.b),
        asks: levels_from_pairs(&raw.a),
        sequence: match raw.u {
            Some(u) => u,
            None => 0,
        },
    }
}

/// A Bybit symbol with the base and quote assets in upper case.
pub fn build_symbol(raw: &str, base: &str, quote: &str, market_type: MarketType) -> (s: Symbol)
    ensures
        built_symbol(s, raw@, base@, quote@, market_type, Exchange::Bybit),
{
    symbol_for(raw, base, quote, market_type, Exchange::Bybit)
}

/// The category that Bybit's API expects for a market type.
pub open spec fn category_text(m: MarketType) -> Seq<char> {
    match m {
        MarketType::Spot => "spot"@,
        MarketType::LinearPerpetual => "linear"@,
        MarketType::InversePerpetual => "inverse"@,
        MarketType::Futures => "linear"@,
    }
}

/// The category of a market type (`spot`, `linear`, `inverse`).
pub fn bybit_category(market_type: MarketType) -> (r: &'static str)
    ensures
        r@ == category_text(market_type),
{
    match market_type {
        MarketType::Spot => "spot",
        MarketType::LinearPerpetual => "linear",
        MarketType::InversePerpetual => "inverse",
        MarketType::Futures => "linear",
    }
}

/// Every market type but dated futures is asked for under its own name
/// (`spot`, `linear`, `inverse`), so an inverse perpetual is never asked for
/// under the linear category; dated futures go under the linear category.
pub proof fn lemma_category_is_market_name(m: MarketType)
    ensures
        m != MarketType::Futures ==> category_text(m) == market_type_text(m),
        category_text(MarketType::Futures) == category_text(MarketType::LinearPerpetual),
        category_text(MarketType::InversePerpetual) != category_text(MarketType::LinearPerpetual),
{
    reveal_strlit("linear");
    reveal_strlit("inverse");
    assert("linear"@ != "inverse"@) by {
        assert("linear"@[0] != "inverse"@[0]);
    }
}

/// Field of a Bybit kline: the opening time in milliseconds.
pub const BYBIT_KLINE_TIME: usize = 0usize;

/// Field of a Bybit kline: the opening price.
pub const BYBIT_KLINE_OPEN: usize = 1usize;

/// Field of a Bybit kline: the highest price.
pub const BYBIT_KLINE_HIGH: usize = 2usize;

/// Field of a Bybit kline: the lowest price.
pub const BYBIT_KLINE_LOW: usize = 3usize;

/// Field of a Bybit kline: the closing price.
pub const BYBIT_KLINE_CLOSE: usize = 4usize;

/// Field of a Bybit kline: the volume.
pub const BYBIT_KLINE_VOLUME: usize = 5usize;

/// Field of a Bybit kline: the turnover in the quote asset.
pub const BYBIT_KLINE_QUOTE_VOLUME: usize = 6usize;

/// A Bybit kline gives the candle of its fields as Bybit lays them out:
/// time, open, high, low, close, volume, turnover.
pub proof fn lemma_bybit_kline_row_layout(raw: Seq<String>, symbol: Symbol, timeframe: Timeframe, c: Candle)
    requires
        kline_candle(raw, symbol, timeframe, c),
    ensures
        c.open@ == decimal_or_zero(raw[BYBIT_KLINE_OPEN as int]@),
        c.high@ == decimal_or_zero(raw[BYBIT_KLINE_HIGH as int]@),
        c.low@ == decimal_or_zero(raw[BYBIT_KLINE_LOW as int]@),
        c.close@ == decimal_or_zero(raw[BYBIT_KLINE_CLOSE as int]@),
        c.volume@ == decimal_or_zero(raw[BYBIT_KLINE_VOLUME as int]@),
        c.quote_volume@ == decimal_or_zero(raw[BYBIT_KLINE_QUOTE_VOLUME as int]@),
        c.symbol == symbol,
        c.timeframe == timeframe,
{
}

} // verus!
