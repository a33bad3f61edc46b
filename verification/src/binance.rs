//! Binance: raw REST and WebSocket payloads and their normalisation.
use vstd::prelude::*;

use crate::decimal::{decimal_or_zero, Decimal};
use crate::normalize::{built_symbol, candle_prices, levels_from_pairs, levels_of_pairs, symbol_for};
use crate::text::{decimal_text, u64_to_string};
use crate::time::{millis_or_now, now_millis, stamped, chrono_millis_in_range};
use crate::timeframe::Timeframe;
use crate::types::{Candle, Exchange, MarketType, OrderBook, Symbol, Trade};

verus! {

/// A REST kline: open time, open, high, low, close, volume, close time, quote
/// volume, number of trades, taker buy base volume, taker buy quote volume,
/// and an unused field.
#[derive(Debug)]
pub struct BinanceKlineRaw(
    pub i64,
    pub String,
    pub String,
    pub String,
    pub String,
    pub String,
    pub i64,
    pub String,
    pub u64,
    pub String,
    pub String,
    pub String,
);

/// A kline stream event.
#[derive(Debug)]
pub struct BinanceWsKlineEvent {
    pub event_type: String,
    pub event_time: i64,
    pub symbol: String,
    pub kline: BinanceWsKline,
}

/// The kline inside a stream event.
#[derive(Debug)]
pub struct BinanceWsKline {
    pub open_time: i64,
    pub close_time: i64,
    pub symbol: String,
    pub interval: String,
    pub open: String,
    pub close: String,
    pub high: String,
    pub low: String,
    pub volume: String,
    pub trades: u64,
    pub is_closed: bool,
    pub quote_volume: String,
}

/// An aggregated-trade stream event.
#[derive(Debug)]
pub struct BinanceWsTradeEvent {
    pub event_type: String,
    pub event_time: i64,
    pub symbol: String,
    pub trade_id: u64,
    pub price: String,
    pub quantity: String,
    pub trade_time: i64,
    pub is_buyer_maker: bool,
}

/// A REST order-book snapshot.
#[derive(Debug)]
pub struct BinanceDepthEvent {
    pub last_update_id: u64,
    pub bids: Vec<[String; 2]>,
    pub asks: Vec<[String; 2]>,
}

/// A partial-depth stream event.
#[derive(Debug)]
pub struct BinanceWsDepthEvent {
    pub event_type: String,
    pub event_time: i64,
    pub symbol: String,
    pub last_update_id: Option<u64>,
    pub final_update_id: Option<u64>,
    pub bids: Vec<[String; 2]>,
    pub asks: Vec<[String; 2]>,
}

/// The spot exchange information.
#[derive(Debug)]
pub struct BinanceExchangeInfo {
    pub symbols: Vec<BinanceSymbolInfo>,
}

/// One spot symbol of the exchange information.
#[derive(Debug)]
pub struct BinanceSymbolInfo {
    pub symbol: String,
    pub base_asset: String,
    pub quote_asset: String,
    pub status: String,
}

/// The futures exchange information.
#[derive(Debug)]
pub struct BinanceFuturesExchangeInfo {
    pub symbols: Vec<BinanceFuturesSymbolInfo>,
}

/// One futures symbol of the exchange information.
#[derive(Debug)]
pub struct BinanceFuturesSymbolInfo {
    pub symbol: String,
    pub base_asset: String,
    pub quote_asset: String,
    pub status: String,
    pub contract_type: String,
}

/// A REST trade.
#[derive(Debug)]
pub struct BinanceTradeRaw {
    pub id: u64,
    pub price: String,
    pub qty: String,
    pub time: i64,
    pub is_buyer_maker: bool,
}

/// Turns a REST kline into a candle; the candle counts as closed.
pub fn normalize_kline(raw: &BinanceKlineRaw, symbol: &Symbol, timeframe: Timeframe) -> (c: Candle)
    ensures
        c.symbol == *symbol,
        c.timeframe == timeframe,
        stamped(raw.0 as int, c.open_time as int),
        stamped(raw.6 as int, c.close_time as int),
        candle_prices(c, raw.1@, raw.2@, raw.3@, raw.4@, raw.5@, raw.7@),
        c.trades_count == raw.8,
        c.is_closed,
{
    Candle {
        symbol: symbol.duplicate(),
        timeframe,
        open_time: millis_or_now(raw.0),
        close_time: millis_or_now(raw.6),
        open: Decimal::parse_or_zero(raw.1.as_str()),
        high: Decimal::parse_or_zero(raw.2.as_str()),
        low: Decimal::parse_or_zero(raw.3.as_str()),
        close: Decimal::parse_or_zero(raw.4.as_str()),
        volume: Decimal::parse_or_zero(raw.5.as_str()),
        quote_volume: Decimal::parse_or_zero(raw.7.as_str()),
        trades_count: raw.8,
        is_closed: true,
    }
}

/// Turns a kline stream event into a candle.
pub fn normalize_ws_kline(event: &BinanceWsKlineEvent, symbol: &Symbol, timeframe: Timeframe) -> (c: Candle)
    ensures
        c.symbol == *symbol,
        c.timeframe == timeframe,
        stamped(event.kline.open_time as int, c.open_time as int),
        stamped(event.kline.close_time as int, c.close_time as int),
        candle_prices(
            c,
            event.kline.open@,
            event.kline.high@,
            event.kline.low@,
            event.kline.close@,
            event.kline.volume@,
            event.kline.quote_volume@,
        ),
        c.trades_count == event.kline.trades,
        c.is_closed == event.kline.is_closed,
{
    let k = &event.kline;
    Candle {
        symbol: symbol.duplicate(),
        timeframe,
        open_time: millis_or_now(k.open_time),
        close_time: millis_or_now(k.close_time),
        open: Decimal::parse_or_zero(k.open.as_str()),
        high: Decimal::parse_or_zero(k.high.as_str()),
        low: Decimal::parse_or_zero(k.low.as_str()),
        close: Decimal::parse_or_zero(k.close.as_str()),
        volume: Decimal::parse_or_zero(k.volume.as_str()),
        quote_volume: Decimal::parse_or_zero(k.quote_volume.as_str()),
        trades_count: k.trades,
        is_closed: k.is_closed,
    }
}

/// Turns a REST trade into a trade; the id is the decimal text of the trade id.
pub fn normalize_trade(raw: &BinanceTradeRaw, symbol: &Symbol) -> (t: Trade)
    ensures
        t.symbol == *symbol,
        t.id@ == decimal_text(raw.id as nat),
        t.price@ == decimal_or_zero(raw.price@),
        t.quantity@ == decimal_or_zero(raw.qty@),
        stamped(raw.time as int, t.timestamp as int),
        t.is_buyer_maker == raw.is_buyer_maker,
{
    Trade {
        symbol: symbol.duplicate(),
        id: u64_to_string(raw.id),
        price: Decimal::parse_or_zero(raw.price.as_str()),
        quantity: Decimal::parse_or_zero(raw.qty.as_str()),
        timestamp: millis_or_now(raw.time),
        is_buyer_maker: raw.is_buyer_maker,
    }
}

/// Turns an aggregated-trade stream event into a trade.
pub fn normalize_ws_trade(event: &BinanceWsTradeEvent, symbol: &Symbol) -> (t: Trade)
    ensures
        t.symbol == *symbol,
        t.id@ == decimal_text(event.trade_id as nat),
        t.price@ == decimal_or_zero(event.price@),
        t.quantity@ == decimal_or_zero(event.quantity@),
        stamped(event.trade_time as int, t.timestamp as int),
        t.is_buyer_maker == event.is_buyer_maker,
{
    Trade {
        symbol: symbol.duplicate(),
        id: u64_to_string(event.trade_id),
        price: Decimal::parse_or_zero(event.price.as_str()),
        quantity: Decimal::parse_or_zero(event.quantity.as_str()),
        timestamp: millis_or_now(event.trade_time),
        is_buyer_maker: event.is_buyer_maker,
    }
}

/// Turns a REST order-book snapshot into an order book stamped with the
/// current time; the sequence is the last update id.
pub fn normalize_depth(raw: &BinanceDepthEvent, symbol: &Symbol) -> (b: OrderBook)
    ensures
        b.symbol == *symbol,
        chrono_millis_in_range(b.timestamp as int),
        levels_of_pairs(raw.bids@, b.bids@),
        levels_of_pairs(raw.asks@, b.asks@),
        b.sequence == raw.last_update_id,
{
    OrderBook {
        symbol: symbol.duplicate(),
        timestamp: now_millis(),
        bids: levels_from_pairs(&raw.bids),
        asks: levels_from_pairs(&raw.asks),
        sequence: raw.last_update_id,
    }
}

/// The sequence number of a depth stream event: the final update id, else
/// the last update id, else zero.
pub open spec fn ws_depth_sequence(event: BinanceWsDepthEvent) -> u64 {
    match event.final_update_id {
        Some(u) => u,
        None => match event.last_update_id {
            Some(u) => u,
            None => 0,
        },
    }
}

/// Turns a depth stream event into an order book.
pub fn normalize_ws_depth(event: &BinanceWsDepthEvent, symbol: &Symbol) -> (b: OrderBook)
    ensures
        b.symbol == *symbol,
        stamped(event.event_time as int, b.timestamp as int),
        levels_of_pairs(event.bids@, b.bids@),
        levels_of_pairs(event.asks@, b.asks@),
        b.sequence == ws_depth_sequence(*event),
{
    let sequence = match event.final_update_id {
        Some(u) => u,
        None => match event.last_update_id {
            Some(u) => u,
            None => 0,
        },
    };
    OrderBook {
        symbol: symbol.duplicate(),
        timestamp: millis_or_now(event.event_time),
        bids: levels_from_pairs(&event.bids),
        asks: levels_from_pairs(&event.asks),
        sequence,
    }
}

/// A Binance symbol with the base and quote assets in upper case.
pub fn build_symbol(raw: &str, base: &str, quote: &str, market_type: MarketType) -> (s: Symbol)
    ensures
        built_symbol(s, raw@, base@, quote@, market_type, Exchange::Binance),
{
    symbol_for(raw, base, quote, market_type, Exchange::Binance)
}

} // verus!
