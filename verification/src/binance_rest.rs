//! The Binance REST client: the requests it sends and how it reads the answers.
use vstd::prelude::*;

use crate::binance::{
    build_symbol, normalize_depth, normalize_kline, normalize_trade, BinanceDepthEvent,
    BinanceExchangeInfo, BinanceFuturesExchangeInfo, BinanceFuturesSymbolInfo, BinanceKlineRaw,
    BinanceSymbolInfo, BinanceTradeRaw,
};
use crate::decimal::decimal_or_zero;
use crate::error::CteError;
use crate::normalize::{built_symbol, candle_prices, levels_of_pairs};
use crate::rest::{
    capped, capped_limit, at_most, decoded, is_connection_error, lemma_filter_prefix,
    market_path, outcome_error, query_view, received, request_to, HttpOutcome, Received,
    RestRequest,
};
use crate::text::{decimal_text, i64_to_string, signed_decimal_text, str_eq, u64_to_string};
use crate::time::{chrono_millis_in_range, stamped};
use crate::timeframe::{binance_interval, Timeframe};
use crate::types::{Candle, Exchange, MarketType, OrderBook, Symbol, Trade};

verus! {

/// The candle a REST kline gives (see `normalize_kline`).
pub open spec fn kline_candle(raw: BinanceKlineRaw, symbol: Symbol, timeframe: Timeframe, c: Candle) -> bool {
    &&& c.symbol == symbol
    &&& c.timeframe == timeframe
    &&& stamped(raw.0 as int, c.open_time as int)
    &&& stamped(raw.6 as int, c.close_time as int)
    &&& candle_prices(c, raw.1@, raw.2@, raw.3@, raw.4@, raw.5@, raw.7@)
    &&& c.trades_count == raw.8
    &&& c.is_closed
}

/// The trade a REST trade gives (see `normalize_trade`).
pub open spec fn trade_of(raw: BinanceTradeRaw, symbol: Symbol, t: Trade) -> bool {
    &&& t.symbol == symbol
    &&& t.id@ == decimal_text(raw.id as nat)
    &&& t.price@ == decimal_or_zero(raw.price@)
    &&& t.quantity@ == decimal_or_zero(raw.qty@)
    &&& stamped(raw.time as int, t.timestamp as int)
    &&& t.is_buyer_maker == raw.is_buyer_maker
}

/// Spot symbols that are trading.
pub open spec fn spot_trading() -> spec_fn(BinanceSymbolInfo) -> bool {
    |i: BinanceSymbolInfo| i.status@ == "TRADING"@
}

/// Futures symbols that are trading perpetual contracts.
pub open spec fn perpetual_trading() -> spec_fn(BinanceFuturesSymbolInfo) -> bool {
    |i: BinanceFuturesSymbolInfo| i.status@ == "TRADING"@ && i.contract_type@ == "PERPETUAL"@
}

/// `syms` are the symbols of the trading spot entries of `infos`, in order.
pub open spec fn spot_symbols(infos: Seq<BinanceSymbolInfo>, syms: Seq<Symbol>) -> bool {
    let kept = infos.filter(spot_trading());
    &&& syms.len() == kept.len()
    &&& forall|k: int|
        0 <= k < kept.len() ==> built_symbol(
            #[trigger] syms[k],
            kept[k].symbol@,
            kept[k].base_asset@,
            kept[k].quote_asset@,
            MarketType::Spot,
            Exchange::Binance,
        )
}

/// `syms` are the linear-perpetual symbols of the trading perpetual entries of
/// `infos`, in order.
pub open spec fn futures_symbols(infos: Seq<BinanceFuturesSymbolInfo>, syms: Seq<Symbol>) -> bool {
    let kept = infos.filter(perpetual_trading());
    &&& syms.len() == kept.len()
    &&& forall|k: int|
        0 <= k < kept.len() ==> built_symbol(
            #[trigger] syms[k],
            kept[k].symbol@,
            kept[k].base_asset@,
            kept[k].quote_asset@,
            MarketType::LinearPerpetual,
            Exchange::Binance,
        )
}

/// The kline endpoint of a market.
pub open spec fn kline_path(m: MarketType) -> Seq<char> {
    market_path(m, "/api/v3/klines"@, "/fapi/v1/klines"@)
}

/// The order-book endpoint of a market.
pub open spec fn depth_path(m: MarketType) -> Seq<char> {
    market_path(m, "/api/v3/depth"@, "/fapi/v1/depth"@)
}

/// The recent-trades endpoint of a market.
pub open spec fn trades_path(m: MarketType) -> Seq<char> {
    market_path(m, "/api/v3/trades"@, "/fapi/v1/trades"@)
}

/// The order book a REST snapshot gives (see `normalize_depth`).
pub open spec fn depth_book(raw: BinanceDepthEvent, symbol: Symbol, b: OrderBook) -> bool {
    &&& b.symbol == symbol
    &&& chrono_millis_in_range(b.timestamp as int)
    &&& levels_of_pairs(raw.bids@, b.bids@)
    &&& levels_of_pairs(raw.asks@, b.asks@)
    &&& b.sequence == raw.last_update_id
}

/// The Binance REST client: the spot and futures base URLs.
#[derive(Debug)]
pub struct BinanceRestClient {
    pub spot_base: String,
    pub futures_base: String,
}

impl BinanceRestClient {
    /// A client of the two base URLs.
    pub fn new(spot_base: &str, futures_base: &str) -> (r: BinanceRestClient)
        ensures
            r.spot_base@ == spot_base@,
            r.futures_base@ == futures_base@,
    {
        BinanceRestClient {
            spot_base: String::from_str(spot_base),
            futures_base: String::from_str(futures_base),
        }
    }

    /// The base URL of a market: spot, or futures for every other market.
    pub fn base_url(&self, market_type: MarketType) -> (r: &str)
        ensures
            r@ == market_path(market_type, self.spot_base@, self.futures_base@),
    {
        match market_type {
            MarketType::Spot => self.spot_base.as_str(),
            _ => self.futures_base.as_str(),
        }
    }

    /// The ping request.
    pub fn ping_request(&self) -> (r: RestRequest)
        ensures
            r.url@ == self.spot_base@ + "/api/v3/ping"@,
            r.query@.len() == 0,
    {
        request_to(self.spot_base.as_str(), "/api/v3/ping")
    }

    /// The request listing the symbols of a market: the spot exchange
    /// information for spot, the futures one for every other market.
    pub fn symbols_request(&self, market_type: MarketType) -> (r: RestRequest)
        ensures
            r.url@ == market_path(
                market_type,
                self.spot_base@ + "/api/v3/exchangeInfo"@,
                self.futures_base@ + "/fapi/v1/exchangeInfo"@,
            ),
            r.query@.len() == 0,
    {
        match market_type {
            MarketType::Spot => request_to(self.spot_base.as_str(), "/api/v3/exchangeInfo"),
            _ => request_to(self.futures_base.as_str(), "/fapi/v1/exchangeInfo"),
        }
    }

    /// The trading spot symbols of the answer to the spot listing.
    pub fn spot_symbols_result(outcome: Received<BinanceExchangeInfo>) -> (r: Result<Vec<Symbol>, CteError>)
        ensures
            match outcome {
                Received::Unsent(m) => is_connection_error(r, Exchange::Binance, m@),
                Received::Undecodable(m) => is_connection_error(
                    r,
                    Exchange::Binance,
                    "Failed to parse exchange info: "@ + m@,
                ),
                Received::Decoded(info) => r matches Ok(syms) && spot_symbols(info.symbols@, syms@),
            },
    {
        let info = match received(Exchange::Binance, "Failed to parse exchange info: ", outcome) {
            Ok(i) => i,
            Err(e) => {
                return Err(e);
            },
        };
        let infos = &info.symbols;
        let ghost pred = spot_trading();
        let mut out: Vec<Symbol> = Vec::new();
        let mut i: usize = 0;
        while i < infos.len()
            invariant
                i <= infos.len(),
                pred == spot_trading(),
                out@.len() == infos@.subrange(0, i as int).filter(pred).len(),
                forall|k: int|
                    0 <= k < out@.len() ==> built_symbol(
                        #[trigger] out@[k],
                        infos@.subrange(0, i as int).filter(pred)[k].symbol@,
                        infos@.subrange(0, i as int).filter(pred)[k].base_asset@,
                        infos@.subrange(0, i as int).filter(pred)[k].quote_asset@,
                        MarketType::Spot,
                        Exchange::Binance,
                    ),
            decreases infos.len() - i,
        {
            proof {
                lemma_filter_prefix(infos@, i as int, pred);
            }
            let s = &infos[i];
            if str_eq(s.status.as_str(), "TRADING") {
                let sym = build_symbol(
                    s.symbol.as_str(),
                    s.base_asset.as_str(),
                    s.quote_asset.as_str(),
                    MarketType::Spot,
                );
                out.push(sym);
            }
            i = i + 1;
        }
        assert(infos@.subrange(0, infos.len() as int) =~= infos@);
        Ok(out)
    }

    /// The trading perpetual symbols of the answer to the futures listing.
    pub fn futures_symbols_result(outcome: Received<BinanceFuturesExchangeInfo>) -> (r: Result<Vec<Symbol>, CteError>)
        ensures
            match outcome {
                Received::Unsent(m) => is_connection_error(r, Exchange::Binance, m@),
                Received::Undecodable(m) => is_connection_error(
                    r,
                    Exchange::Binance,
                    "Failed to parse futures exchange info: "@ + m@,
                ),
                Received::Decoded(info) => r matches Ok(syms) && futures_symbols(info.symbols@, syms@),
            },
    {
        let info = match received(
            Exchange::Binance,
            "Failed to parse futures exchange info: ",
            outcome,
        ) {
            Ok(i) => i,
            Err(e) => {
                return Err(e);
            },
        };
        let infos = &info.symbols;
        let ghost pred = perpetual_trading();
        let mut out: Vec<Symbol> = Vec::new();
        let mut i: usize = 0;
        while i < infos.len()
            invariant
                i <= infos.len(),
                pred == perpetual_trading(),
                out@.len() == infos@.subrange(0, i as int).filter(pred).len(),
                forall|k: int|
                    0 <= k < out@.len() ==> built_symbol(
                        #[trigger] out@[k],
                        infos@.subrange(0, i as int).filter(pred)[k].symbol@,
                        infos@.subrange(0, i as int).filter(pred)[k].base_asset@,
                        infos@.subrange(0, i as int).filter(pred)[k].quote_asset@,
                        MarketType::LinearPerpetual,
                        Exchange::Binance,
                    ),
            decreases infos.len() - i,
        {
            proof {
                lemma_filter_prefix(infos@, i as int, pred);
            }
            let s = &infos[i];
            if str_eq(s.status.as_str(), "TRADING") && str_eq(s.contract_type.as_str(), "PERPETUAL") {
                let sym = build_symbol(
                    s.symbol.as_str(),
                    s.base_asset.as_str(),
                    s.quote_asset.as_str(),
                    MarketType::LinearPerpetual,
                );
                out.push(sym);
            }
            i = i + 1;
        }
        assert(infos@.subrange(0, infos.len() as int) =~= infos@);
        Ok(out)
    }
    /// The kline request: `symbol`, `interval`, `limit` (200 by default, at most
    /// 1500), then `startTime` where a start is given.
    pub fn candles_request(&self, symbol: &Symbol, timeframe: Timeframe, start: Option<i64>, limit: Option<u32>) -> (r: RestRequest)
        ensures
            r.url@ == market_path(symbol.market_type, self.spot_base@, self.futures_base@)
                + kline_path(symbol.market_type),
            r.endpoint@ == kline_path(symbol.market_type),
            query_view(r.query@) == seq![
                ("symbol"@, symbol.raw_symbol@),
                ("interval"@, binance_interval(timeframe)),
                ("limit"@, decimal_text(capped(limit, 200, 1500) as nat)),
            ] + match start {
                Some(ms) => seq![("startTime"@, signed_decimal_text(ms as int))],
                None => seq![],
            },
    {
        let path = match symbol.market_type {
            MarketType::Spot => "/api/v3/klines",
            _ => "/fapi/v1/klines",
        };
        let mut r = request_to(self.base_url(symbol.market_type), path);
        r.add_query("symbol", symbol.raw_symbol.clone());
        r.add_query("interval", String::from_str(timeframe.to_binance_str()));
        r.add_query("limit", u64_to_string(capped_limit(limit, 200, 1500) as u64));
        if let Some(ms) = start {
            r.add_query("startTime", i64_to_string(ms));
        }
        assert(query_view(r.query@) =~= seq![
            ("symbol"@, symbol.raw_symbol@),
            ("interval"@, binance_interval(timeframe)),
            ("limit"@, decimal_text(capped(limit, 200, 1500) as nat)),
        ] + match start {
            Some(ms) => seq![("startTime"@, signed_decimal_text(ms as int))],
            None => seq![],
        });
        r
    }

    /// The candles of the answer to a kline request, one per kline and in order.
    pub fn candles_result(symbol: &Symbol, timeframe: Timeframe, outcome: HttpOutcome<Vec<BinanceKlineRaw>>) -> (r: Result<Vec<Candle>, CteError>)
        ensures
            match outcome {
                HttpOutcome::Decoded(raws) => r matches Ok(cs) && cs@.len() == raws@.len() && forall|k: int|
                    0 <= k < raws@.len() ==> kline_candle(raws@[k], *symbol, timeframe, #[trigger] cs@[k]),
                _ => outcome_error(r, Exchange::Binance, kline_path(symbol.market_type), outcome),
            },
    {
        let path = match symbol.market_type {
            MarketType::Spot => "/api/v3/klines",
            _ => "/fapi/v1/klines",
        };
        let raws = match decoded(Exchange::Binance, path, outcome) {
            Ok(v) => v,
            Err(e) => {
                return Err(e);
            },
        };
        let mut out: Vec<Candle> = Vec::new();
        let mut i: usize = 0;
        while i < raws.len()
            invariant
                i <= raws.len(),
                out@.len() == i,
                forall|k: int| 0 <= k < i ==> kline_candle(raws@[k], *symbol, timeframe, #[trigger] out@[k]),
            decreases raws.len() - i,
        {
            let c = normalize_kline(&raws[i], symbol, timeframe);
            out.push(c);
            i = i + 1;
        }
        Ok(out)
    }

    /// The order-book request: `symbol`, then `limit` (at most 1000).
    pub fn orderbook_request(&self, symbol: &Symbol, depth: u32) -> (r: RestRequest)
        ensures
            r.url@ == market_path(symbol.market_type, self.spot_base@, self.futures_base@)
                + depth_path(symbol.market_type),
            r.endpoint@ == depth_path(symbol.market_type),
            query_view(r.query@) == seq![
                ("symbol"@, symbol.raw_symbol@),
                ("limit"@, decimal_text((if depth < 1000 { depth } else { 1000 }) as nat)),
            ],
    {
        let path = match symbol.market_type {
            MarketType::Spot => "/api/v3/depth",
            _ => "/fapi/v1/depth",
        };
        let mut r = request_to(self.base_url(symbol.market_type), path);
        r.add_query("symbol", symbol.raw_symbol.clone());
        r.add_query("limit", u64_to_string(at_most(depth, 1000) as u64));
        assert(query_view(r.query@) =~= seq![
            ("symbol"@, symbol.raw_symbol@),
            ("limit"@, decimal_text((if depth < 1000 { depth } else { 1000 }) as nat)),
        ]);
        r
    }

    /// The order book of the answer to an order-book request.
    pub fn orderbook_result(symbol: &Symbol, outcome: HttpOutcome<BinanceDepthEvent>) -> (r: Result<OrderBook, CteError>)
        ensures
            match outcome {
                HttpOutcome::Decoded(raw) => r matches Ok(b) && depth_book(raw, *symbol, b),
                _ => outcome_error(r, Exchange::Binance, depth_path(symbol.market_type), outcome),
            },
    {
        let path = match symbol.market_type {
            MarketType::Spot => "/api/v3/depth",
            _ => "/fapi/v1/depth",
        };
        match decoded(Exchange::Binance, path, outcome) {
            Ok(raw) => Ok(normalize_depth(&raw, symbol)),
            Err(e) => Err(e),
        }
    }

    /// The recent-trades request: `symbol`, then `limit` (at most 1000).
    pub fn recent_trades_request(&self, symbol: &Symbol, limit: u32) -> (r: RestRequest)
        ensures
            r.url@ == market_path(symbol.market_type, self.spot_base@, self.futures_base@)
                + trades_path(symbol.market_type),
            r.endpoint@ == trades_path(symbol.market_type),
            query_view(r.query@) == seq![
                ("symbol"@, symbol.raw_symbol@),
                ("limit"@, decimal_text((if limit < 1000 { limit } else { 1000 }) as nat)),
            ],
    {
        let path = match symbol.market_type {
            MarketType::Spot => "/api/v3/trades",
            _ => "/fapi/v1/trades",
        };
        let mut r = request_to(self.base_url(symbol.market_type), path);
        r.add_query("symbol", symbol.raw_symbol.clone());
        r.add_query("limit", u64_to_string(at_most(limit, 1000) as u64));
        assert(query_view(r.query@) =~= seq![
            ("symbol"@, symbol.raw_symbol@),
            ("limit"@, decimal_text((if limit < 1000 { limit } else { 1000 }) as nat)),
        ]);
        r
    }

    /// The trades of the answer to a recent-trades request, one per entry and
    /// in order.
    pub fn recent_trades_result(symbol: &Symbol, outcome: HttpOutcome<Vec<BinanceTradeRaw>>) -> (r: Result<Vec<Trade>, CteError>)
        ensures
            match outcome {
                HttpOutcome::Decoded(raws) => r matches Ok(ts) && ts@.len() == raws@.len() && forall|k: int|
                    0 <= k < raws@.len() ==> trade_of(raws@[k], *symbol, #[trigger] ts@[k]),
                _ => outcome_error(r, Exchange::Binance, trades_path(symbol.market_type), outcome),
            },
    {
        let path = match symbol.market_type {
            MarketType::Spot => "/api/v3/trades",
            _ => "/fapi/v1/trades",
        };
        let raws = match decoded(Exchange::Binance, path, outcome) {
            Ok(v) => v,
            Err(e) => {
                return Err(e);
            },
        };
        let mut out: Vec<Trade> = Vec::new();
        let mut i: usize = 0;
        while i < raws.len()
            invariant
                i <= raws.len(),
                out@.len() == i,
                forall|k: int| 0 <= k < i ==> trade_of(raws@[k], *symbol, #[trigger] out@[k]),
            decreases raws.len() - i,
        {
            let t = normalize_trade(&raws[i], symbol);
            out.push(t);
            i = i + 1;
        }
        Ok(out)
    }
}


/// A trade read from the REST answer takes its price from the price field
/// and its quantity from the size field, and the buyer-maker flag is the exchange's own.
pub proof fn lemma_trade_fields(raw: BinanceTradeRaw, symbol: Symbol, t: Trade)
    requires
        trade_of(raw, symbol, t),
    ensures
        t.price@ == decimal_or_zero(raw.price@),
        t.quantity@ == decimal_or_zero(raw.qty@),
        t.symbol == symbol,
        t.is_buyer_maker == raw.is_buyer_maker,
{
}

/// The bids of a book read from the REST answer are the answer's bids and
/// its asks the answer's asks, level by level.
pub proof fn lemma_book_sides(raw: BinanceDepthEvent, symbol: Symbol, b: OrderBook)
    requires
        depth_book(raw, symbol, b),
    ensures
        levels_of_pairs(raw.bids@, b.bids@),
        levels_of_pairs(raw.asks@, b.asks@),
        b.symbol == symbol,
{
}

/// A Binance REST kline gives the candle of its fields as Binance lays them
/// out: open time, open, high, low, close, volume, close time, quote volume
/// and number of trades, in that order.
pub proof fn lemma_kline_layout(raw: BinanceKlineRaw, symbol: Symbol, timeframe: Timeframe, c: Candle)
    requires
        kline_candle(raw, symbol, timeframe, c),
    ensures
        c.open@ == decimal_or_zero(raw.1@),
        c.high@ == decimal_or_zero(raw.2@),
        c.low@ == decimal_or_zero(raw.3@),
        c.close@ == decimal_or_zero(raw.4@),
        c.volume@ == decimal_or_zero(raw.5@),
        c.quote_volume@ == decimal_or_zero(raw.7@),
        c.trades_count == raw.8,
        c.symbol == symbol,
        c.timeframe == timeframe,
{
}

} // verus!
