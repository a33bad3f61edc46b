//! The REST client of gate.io: the requests it sends and how it reads the answers.
use vstd::prelude::*;

use crate::decimal::decimal_or_zero;
use crate::error::CteError;
use crate::gateio::{
    build_symbol, futures_quote_volume, gate_pair_text, normalize_depth,
    normalize_futures_candle, normalize_spot_candle, normalize_trade, second_candle_times,
    second_times_fit, spot_candle, text_candle_times, text_times_fit, to_gate_pair, trade_millis,
    trade_millis_fit, GateCurrencyPair, GateFuturesCandleRaw, GateOrderBookRaw,
    GateSpotCandleRaw, GateTradeRaw,
};
use crate::normalize::{built_symbol, levels_of_pairs};
use crate::rest::{
    at_most, capped, capped_limit, decoded, lemma_filter_prefix, listing_decoded, listing_error,
    market_path, outcome_error, query_view, request_to, HttpOutcome, RestRequest,
};
use crate::text::{decimal_text, i64_to_string, signed_decimal_text, str_eq, u64_to_string};
use crate::time::{chrono_millis_in_range, stamped};
use crate::timeframe::{gateio_interval, Timeframe};
use crate::types::{Candle, Exchange, MarketType, OrderBook, Symbol, Trade};

verus! {

/// A futures contract of the contract listing: its `name` where that is a
/// text, `None` where it is missing or not a text.
#[derive(Debug)]
pub struct GateContract {
    pub name: Option<String>,
}

/// The two sides of a text split at its one occurrence of `c`; `None` where
/// `c` occurs never or more than once.
pub open spec fn split_once_exactly(s: Seq<char>, c: char) -> Option<(Seq<char>, Seq<char>)> {
    if exists|i: int| 0 <= i < s.len() && s[i] == c && forall|j: int| 0 <= j < s.len() && j != i ==> s[j] != c {
        let i = choose|i: int| 0 <= i < s.len() && s[i] == c && forall|j: int| 0 <= j < s.len() && j != i ==> s[j] != c;
        Some((s.subrange(0, i), s.subrange(i + 1, s.len() as int)))
    } else {
        None
    }
}

/// Where `c` occurs once in `s`: its position; `None` where it occurs never
/// or more than once.
fn single_position(s: &str, c: char) -> (r: Option<usize>)
    ensures
        match r {
            Some(i) => i < s@.len() && s@[i as int] == c && forall|j: int|
                0 <= j < s@.len() && j != i ==> s@[j] != c,
            None => !exists|i: int|
                0 <= i < s@.len() && s@[i] == c && forall|j: int|
                    0 <= j < s@.len() && j != i ==> s@[j] != c,
        },
{
    let n = s.unicode_len();
    let mut found: Option<usize> = None;
    let mut i: usize = 0;
    while i < n
        invariant
            i <= n,
            n == s@.len(),
            match found {
                Some(p) => p < i && s@[p as int] == c && forall|j: int|
                    0 <= j < i && j != p ==> s@[j] != c,
                None => forall|j: int| 0 <= j < i ==> s@[j] != c,
            },
        decreases n - i,
    {
        if s.get_char(i) == c {
            match found {
                Some(p) => {
                    assert(s@[p as int] == c && s@[i as int] == c);
                    return None;
                },
                None => {
                    found = Some(i);
                },
            }
        }
        i = i + 1;
    }
    found
}

/// The symbol of a contract whose name splits at one underscore into base and
/// quote; `None` for any other name.
pub open spec fn contract_symbol(k: GateContract, s: Symbol) -> bool {
    k.name matches Some(name) && split_once_exactly(name@, '_') matches Some(parts)
        && built_symbol(s, name@, parts.0, parts.1, MarketType::LinearPerpetual, Exchange::GateIo)
}

/// The symbol of a contract, where it gives one.
fn contract_symbol_of(k: &GateContract) -> (r: Option<Symbol>)
    ensures
        r is Some <==> (contract_kept())(*k),
        r matches Some(s) ==> contract_symbol(*k, s),
{
    if let Some(name) = &k.name {
        if let Some(p) = single_position(name.as_str(), '_') {
            let n = name.unicode_len();
            let base = name.as_str().substring_char(0, p);
            let quote = name.as_str().substring_char(p + 1, n);
            proof {
                let s = name@;
                let w = choose|i: int| 0 <= i < s.len() && s[i] == '_' && forall|j: int|
                    0 <= j < s.len() && j != i ==> s[j] != '_';
                assert(w == p as int) by {
                    if w != p as int {
                        assert(s[p as int] == '_');
                    }
                }
            }
            return Some(build_symbol(name.as_str(), base, quote, MarketType::LinearPerpetual));
        }
    }
    None
}

/// The contracts that give a symbol.
pub open spec fn contract_kept() -> spec_fn(GateContract) -> bool {
    |k: GateContract| k.name matches Some(name) && split_once_exactly(name@, '_') is Some
}

/// The pairs whose trade status is `tradable` or not given.
pub open spec fn pair_tradable() -> spec_fn(GateCurrencyPair) -> bool {
    |p: GateCurrencyPair| match p.trade_status {
        Some(s) => s@ == "tradable"@,
        None => true,
    }
}

/// `syms` are the spot symbols of the tradable pairs, in order.
pub open spec fn pair_symbols(list: Seq<GateCurrencyPair>, syms: Seq<Symbol>) -> bool {
    let kept = list.filter(pair_tradable());
    &&& syms.len() == kept.len()
    &&& forall|k: int|
        0 <= k < kept.len() ==> built_symbol(
            #[trigger] syms[k],
            kept[k].id@,
            kept[k].base@,
            kept[k].quote@,
            MarketType::Spot,
            Exchange::GateIo,
        )
}

/// `syms` are the symbols of the contracts that give one, in order.
pub open spec fn contract_symbols(list: Seq<GateContract>, syms: Seq<Symbol>) -> bool {
    let kept = list.filter(contract_kept());
    &&& syms.len() == kept.len()
    &&& forall|k: int| 0 <= k < kept.len() ==> contract_symbol(kept[k], #[trigger] syms[k])
}

/// The spot rows that give a candle.
pub open spec fn spot_row_kept(timeframe: Timeframe) -> spec_fn(GateSpotCandleRaw) -> bool {
    |k: GateSpotCandleRaw| k@.len() >= 8 && text_candle_times(k@[0]@, timeframe) is Some
}

/// The times of every spot row of at least eight fields fit in an `i64`.
pub open spec fn spot_rows_fit(raws: Seq<GateSpotCandleRaw>, timeframe: Timeframe) -> bool {
    forall|k: int|
        0 <= k < raws.len() && (#[trigger] raws[k])@.len() >= 8 ==> text_times_fit(
            raws[k]@[0]@,
            timeframe,
        )
}

/// `cs` are the candles of the spot rows that give one, in order.
pub open spec fn spot_candles(raws: Seq<GateSpotCandleRaw>, symbol: Symbol, timeframe: Timeframe, cs: Seq<Candle>) -> bool {
    let kept = raws.filter(spot_row_kept(timeframe));
    &&& cs.len() == kept.len()
    &&& forall|k: int| 0 <= k < kept.len() ==> spot_candle(kept[k]@, symbol, timeframe, #[trigger] cs[k])
}

/// The candle a futures candle gives (see `normalize_futures_candle`).
pub open spec fn futures_candle(raw: GateFuturesCandleRaw, symbol: Symbol, timeframe: Timeframe, c: Candle) -> bool {
    &&& second_candle_times(raw.t as int, timeframe) == Some((c.open_time as int, c.close_time as int))
    &&& c.symbol == symbol
    &&& c.timeframe == timeframe
    &&& c.open@ == decimal_or_zero(raw.o@)
    &&& c.high@ == decimal_or_zero(raw.h@)
    &&& c.low@ == decimal_or_zero(raw.l@)
    &&& c.close@ == decimal_or_zero(raw.c@)
    &&& c.volume@ == (match raw.v {
        Some(v) => v as int,
        None => 0,
    }, 0nat)
    &&& c.quote_volume@ == futures_quote_volume(raw.sum)
    &&& c.trades_count == 0
    &&& c.is_closed
}

/// The futures candles that give a candle.
pub open spec fn futures_kept(timeframe: Timeframe) -> spec_fn(GateFuturesCandleRaw) -> bool {
    |k: GateFuturesCandleRaw| second_candle_times(k.t as int, timeframe) is Some
}

/// The times of every futures candle fit in an `i64`.
pub open spec fn futures_fit(raws: Seq<GateFuturesCandleRaw>, timeframe: Timeframe) -> bool {
    forall|k: int| 0 <= k < raws.len() ==> second_times_fit((#[trigger] raws[k]).t as int, timeframe)
}

/// `cs` are the candles of the futures candles that give one, in order.
pub open spec fn futures_candles(raws: Seq<GateFuturesCandleRaw>, symbol: Symbol, timeframe: Timeframe, cs: Seq<Candle>) -> bool {
    let kept = raws.filter(futures_kept(timeframe));
    &&& cs.len() == kept.len()
    &&& forall|k: int| 0 <= k < kept.len() ==> futures_candle(kept[k], symbol, timeframe, #[trigger] cs[k])
}

/// The trade a REST trade gives (see `normalize_trade`).
pub open spec fn trade_of(raw: GateTradeRaw, symbol: Symbol, t: Trade) -> bool {
    &&& t.symbol == symbol
    &&& t.id == raw.id
    &&& t.price@ == decimal_or_zero(raw.price@)
    &&& t.quantity@ == decimal_or_zero(raw.amount@)
    &&& stamped(trade_millis(raw.create_time_ms, raw.create_time), t.timestamp as int)
    &&& t.is_buyer_maker == (raw.side@ == "sell"@)
}

/// The order book a REST snapshot gives (see `normalize_depth`).
pub open spec fn depth_book(raw: GateOrderBookRaw, symbol: Symbol, b: OrderBook) -> bool {
    &&& b.symbol == symbol
    &&& chrono_millis_in_range(b.timestamp as int)
    &&& levels_of_pairs(raw.bids@, b.bids@)
    &&& levels_of_pairs(raw.asks@, b.asks@)
    &&& b.sequence == match raw.id {
        Some(i) => i,
        None => 0,
    }
}

/// The candle endpoint of a market.
pub open spec fn candles_path(m: MarketType) -> Seq<char> {
    market_path(m, "/spot/candlesticks"@, "/futures/usdt/candlesticks"@)
}

/// The order-book endpoint of a market.
pub open spec fn depth_path(m: MarketType) -> Seq<char> {
    market_path(m, "/spot/order_book"@, "/futures/usdt/order_book"@)
}

/// The recent-trades endpoint of a market.
pub open spec fn trades_path(m: MarketType) -> Seq<char> {
    market_path(m, "/spot/trades"@, "/futures/usdt/trades"@)
}

/// The query key that names the instrument in a market.
pub open spec fn pair_key(m: MarketType) -> Seq<char> {
    market_path(m, "currency_pair"@, "contract"@)
}

/// Whole seconds of a millisecond timestamp, rounded down.
pub open spec fn floor_seconds(ms: int) -> int {
    ms / 1000
}

fn seconds_of(ms: i64) -> (r: i64)
    ensures
        r == floor_seconds(ms as int),
{
    if ms >= 0 {
        ms / 1000
    } else {
        let a: i64 = -(ms + 1);
        let d: i64 = a / 1000;
        proof {
            let r = a as int % 1000;
            assert(a as int == 1000 * d + r && 0 <= r < 1000) by (nonlinear_arith)
                requires
                    a >= 0,
                    d as int == a as int / 1000,
                    r == a as int % 1000,
            ;
            assert(ms as int == 1000 * (-d - 1) + (999 - r));
            assert((ms as int) / 1000 == -d - 1) by (nonlinear_arith)
                requires
                    ms as int == 1000 * (-d - 1) + (999 - r),
                    0 <= 999 - r < 1000,
            ;
        }
        -d - 1
    }
}

/// The REST client of gate.io: the base URL.
#[derive(Debug)]
pub struct GateRestClient {
    pub base_url: String,
}

impl GateRestClient {
    /// A client of the base URL.
    pub fn new(base_url: &str) -> (r: GateRestClient)
        ensures
            r.base_url@ == base_url@,
    {
        GateRestClient { base_url: String::from_str(base_url) }
    }

    /// The ping request: the server time.
    pub fn ping_request(&self) -> (r: RestRequest)
        ensures
            r.url@ == self.base_url@ + "/spot/time"@,
            r.query@.len() == 0,
    {
        request_to(self.base_url.as_str(), "/spot/time")
    }

    /// The request listing the symbols of a market: the spot currency pairs,
    /// or the USDT futures contracts for every other market.
    pub fn symbols_request(&self, market_type: MarketType) -> (r: RestRequest)
        ensures
            r.url@ == self.base_url@ + market_path(
                market_type,
                "/spot/currency_pairs"@,
                "/futures/usdt/contracts"@,
            ),
            r.endpoint@ == market_path(
                market_type,
                "/spot/currency_pairs"@,
                "/futures/usdt/contracts"@,
            ),
            r.query@.len() == 0,
    {
        match market_type {
            MarketType::Spot => request_to(self.base_url.as_str(), "/spot/currency_pairs"),
            _ => request_to(self.base_url.as_str(), "/futures/usdt/contracts"),
        }
    }

    /// The tradable pairs of the answer to the spot listing.
    pub fn spot_symbols_result(outcome: HttpOutcome<Vec<GateCurrencyPair>>) -> (r: Result<Vec<Symbol>, CteError>)
        ensures
            match outcome {
                HttpOutcome::Decoded(list) => r matches Ok(syms) && pair_symbols(list@, syms@),
                _ => listing_error(r, Exchange::GateIo, "/spot/currency_pairs"@, outcome),
            },
    {
        let list = match listing_decoded(Exchange::GateIo, "/spot/currency_pairs", outcome) {
            Ok(v) => v,
            Err(e) => {
                return Err(e);
            },
        };
        let ghost pred = pair_tradable();
        let mut out: Vec<Symbol> = Vec::new();
        let mut i: usize = 0;
        while i < list.len()
            invariant
                i <= list.len(),
                pred == pair_tradable(),
                out@.len() == list@.subrange(0, i as int).filter(pred).len(),
                forall|k: int|
                    0 <= k < out@.len() ==> built_symbol(
                        #[trigger] out@[k],
                        list@.subrange(0, i as int).filter(pred)[k].id@,
                        list@.subrange(0, i as int).filter(pred)[k].base@,
                        list@.subrange(0, i as int).filter(pred)[k].quote@,
                        MarketType::Spot,
                        Exchange::GateIo,
                    ),
            decreases list.len() - i,
        {
            proof {
                lemma_filter_prefix(list@, i as int, pred);
            }
            let p = &list[i];
            let tradable = match &p.trade_status {
                Some(s) => str_eq(s.as_str(), "tradable"),
                None => true,
            };
            if tradable {
                out.push(build_symbol(p.id.as_str(), p.base.as_str(), p.quote.as_str(), MarketType::Spot));
            }
            i = i + 1;
        }
        assert(list@.subrange(0, list.len() as int) =~= list@);
        Ok(out)
    }

    /// The contracts of the answer to the futures listing whose name splits at
    /// one underscore into base and quote, as linear-perpetual symbols.
    pub fn futures_symbols_result(outcome: HttpOutcome<Vec<GateContract>>) -> (r: Result<Vec<Symbol>, CteError>)
        ensures
            match outcome {
                HttpOutcome::Decoded(list) => r matches Ok(syms) && contract_symbols(list@, syms@),
                _ => listing_error(r, Exchange::GateIo, "/futures/usdt/contracts"@, outcome),
            },
    {
        let list = match listing_decoded(Exchange::GateIo, "/futures/usdt/contracts", outcome) {
            Ok(v) => v,
            Err(e) => {
                return Err(e);
            },
        };
        let ghost pred = contract_kept();
        let mut out: Vec<Symbol> = Vec::new();
        let mut i: usize = 0;
        while i < list.len()
            invariant
                i <= list.len(),
                pred == contract_kept(),
                out@.len() == list@.subrange(0, i as int).filter(pred).len(),
                forall|k: int|
                    0 <= k < out@.len() ==> contract_symbol(
                        list@.subrange(0, i as int).filter(pred)[k],
                        #[trigger] out@[k],
                    ),
            decreases list.len() - i,
        {
            proof {
                lemma_filter_prefix(list@, i as int, pred);
            }
            match contract_symbol_of(&list[i]) {
                Some(sym) => out.push(sym),
                None => {},
            }
            i = i + 1;
        }
        assert(list@.subrange(0, list.len() as int) =~= list@);
        Ok(out)
    }
    /// The candle request: the pair under `currency_pair` (spot) or
    /// `contract`, `interval`, `limit` (200 by default, at most 1000), then
    /// `from` in whole seconds where a start is given.
    pub fn candles_request(&self, symbol: &Symbol, timeframe: Timeframe, start: Option<i64>, limit: Option<u32>) -> (r: RestRequest)
        ensures
            r.url@ == self.base_url@ + candles_path(symbol.market_type),
            r.endpoint@ == candles_path(symbol.market_type),
            query_view(r.query@) == seq![
                (pair_key(symbol.market_type), gate_pair_text(*symbol)),
                ("interval"@, gateio_interval(timeframe)),
                ("limit"@, decimal_text(capped(limit, 200, 1000) as nat)),
            ] + match start {
                Some(ms) => seq![("from"@, signed_decimal_text(floor_seconds(ms as int)))],
                None => seq![],
            },
    {
        let (path, key) = match symbol.market_type {
            MarketType::Spot => ("/spot/candlesticks", "currency_pair"),
            _ => ("/futures/usdt/candlesticks", "contract"),
        };
        let mut r = request_to(self.base_url.as_str(), path);
        r.add_query(key, to_gate_pair(symbol));
        r.add_query("interval", String::from_str(timeframe.to_gateio_str()));
        r.add_query("limit", u64_to_string(capped_limit(limit, 200, 1000) as u64));
        if let Some(ms) = start {
            r.add_query("from", i64_to_string(seconds_of(ms)));
        }
        assert(query_view(r.query@) =~= seq![
            (pair_key(symbol.market_type), gate_pair_text(*symbol)),
            ("interval"@, gateio_interval(timeframe)),
            ("limit"@, decimal_text(capped(limit, 200, 1000) as nat)),
        ] + match start {
            Some(ms) => seq![("from"@, signed_decimal_text(floor_seconds(ms as int)))],
            None => seq![],
        });
        r
    }

    /// The candles of the answer to a spot candle request: one for each row
    /// that gives one, in order.
    pub fn spot_candles_result(symbol: &Symbol, timeframe: Timeframe, outcome: HttpOutcome<Vec<GateSpotCandleRaw>>) -> (r: Result<Vec<Candle>, CteError>)
        requires
            outcome matches HttpOutcome::Decoded(raws) ==> spot_rows_fit(raws@, timeframe),
        ensures
            match outcome {
                HttpOutcome::Decoded(raws) => r matches Ok(cs) && spot_candles(raws@, *symbol, timeframe, cs@),
                _ => outcome_error(r, Exchange::GateIo, "/spot/candlesticks"@, outcome),
            },
    {
        let raws = match decoded(Exchange::GateIo, "/spot/candlesticks", outcome) {
            Ok(v) => v,
            Err(e) => {
                return Err(e);
            },
        };
        let ghost pred = spot_row_kept(timeframe);
        let mut out: Vec<Candle> = Vec::new();
        let mut i: usize = 0;
        while i < raws.len()
            invariant
                i <= raws.len(),
                pred == spot_row_kept(timeframe),
                spot_rows_fit(raws@, timeframe),
                out@.len() == raws@.subrange(0, i as int).filter(pred).len(),
                forall|k: int|
                    0 <= k < out@.len() ==> spot_candle(
                        raws@.subrange(0, i as int).filter(pred)[k]@,
                        *symbol,
                        timeframe,
                        #[trigger] out@[k],
                    ),
            decreases raws.len() - i,
        {
            proof {
                lemma_filter_prefix(raws@, i as int, pred);
            }
            match normalize_spot_candle(&raws[i], symbol, timeframe) {
                Some(c) => out.push(c),
                None => {},
            }
            i = i + 1;
        }
        assert(raws@.subrange(0, raws.len() as int) =~= raws@);
        Ok(out)
    }

    /// The candles of the answer to a futures candle request: one for each
    /// candle whose times chrono accepts, in order.
    pub fn futures_candles_result(symbol: &Symbol, timeframe: Timeframe, outcome: HttpOutcome<Vec<GateFuturesCandleRaw>>) -> (r: Result<Vec<Candle>, CteError>)
        requires
            outcome matches HttpOutcome::Decoded(raws) ==> futures_fit(raws@, timeframe),
        ensures
            match outcome {
                HttpOutcome::Decoded(raws) => r matches Ok(cs) && futures_candles(raws@, *symbol, timeframe, cs@),
                _ => outcome_error(r, Exchange::GateIo, "/futures/usdt/candlesticks"@, outcome),
            },
    {
        let raws = match decoded(Exchange::GateIo, "/futures/usdt/candlesticks", outcome) {
            Ok(v) => v,
            Err(e) => {
                return Err(e);
            },
        };
        let ghost pred = futures_kept(timeframe);
        let mut out: Vec<Candle> = Vec::new();
        let mut i: usize = 0;
        while i < raws.len()
            invariant
                i <= raws.len(),
                pred == futures_kept(timeframe),
                futures_fit(raws@, timeframe),
                out@.len() == raws@.subrange(0, i as int).filter(pred).len(),
                forall|k: int|
                    0 <= k < out@.len() ==> futures_candle(
                        raws@.subrange(0, i as int).filter(pred)[k],
                        *symbol,
                        timeframe,
                        #[trigger] out@[k],
                    ),
            decreases raws.len() - i,
        {
            proof {
                lemma_filter_prefix(raws@, i as int, pred);
            }
            match normalize_futures_candle(&raws[i], symbol, timeframe) {
                Some(c) => out.push(c),
                None => {},
            }
            i = i + 1;
        }
        assert(raws@.subrange(0, raws.len() as int) =~= raws@);
        Ok(out)
    }

    /// The order-book request: the pair, then `limit` (at most 100).
    pub fn orderbook_request(&self, symbol: &Symbol, depth: u32) -> (r: RestRequest)
        ensures
            r.url@ == self.base_url@ + depth_path(symbol.market_type),
            r.endpoint@ == depth_path(symbol.market_type),
            query_view(r.query@) == seq![
                (pair_key(symbol.market_type), gate_pair_text(*symbol)),
                ("limit"@, decimal_text((if depth < 100 { depth } else { 100 }) as nat)),
            ],
    {
        let (path, key) = match symbol.market_type {
            MarketType::Spot => ("/spot/order_book", "currency_pair"),
            _ => ("/futures/usdt/order_book", "contract"),
        };
        let mut r = request_to(self.base_url.as_str(), path);
        r.add_query(key, to_gate_pair(symbol));
        r.add_query("limit", u64_to_string(at_most(depth, 100) as u64));
        assert(query_view(r.query@) =~= seq![
            (pair_key(symbol.market_type), gate_pair_text(*symbol)),
            ("limit"@, decimal_text((if depth < 100 { depth } else { 100 }) as nat)),
        ]);
        r
    }

    /// The order book of the answer to an order-book request.
    pub fn orderbook_result(symbol: &Symbol, outcome: HttpOutcome<GateOrderBookRaw>) -> (r: Result<OrderBook, CteError>)
        ensures
            match outcome {
                HttpOutcome::Decoded(raw) => r matches Ok(b) && depth_book(raw, *symbol, b),
                _ => outcome_error(r, Exchange::GateIo, depth_path(symbol.market_type), outcome),
            },
    {
        let path = match symbol.market_type {
            MarketType::Spot => "/spot/order_book",
            _ => "/futures/usdt/order_book",
        };
        match decoded(Exchange::GateIo, path, outcome) {
            Ok(raw) => Ok(normalize_depth(&raw, symbol)),
            Err(e) => Err(e),
        }
    }

    /// The recent-trades request: the pair, then `limit` (at most 1000).
    pub fn recent_trades_request(&self, symbol: &Symbol, limit: u32) -> (r: RestRequest)
        ensures
            r.url@ == self.base_url@ + trades_path(symbol.market_type),
            r.endpoint@ == trades_path(symbol.market_type),
            query_view(r.query@) == seq![
                (pair_key(symbol.market_type), gate_pair_text(*symbol)),
                ("limit"@, decimal_text((if limit < 1000 { limit } else { 1000 }) as nat)),
            ],
    {
        let (path, key) = match symbol.market_type {
            MarketType::Spot => ("/spot/trades", "currency_pair"),
            _ => ("/futures/usdt/trades", "contract"),
        };
        let mut r = request_to(self.base_url.as_str(), path);
        r.add_query(key, to_gate_pair(symbol));
        r.add_query("limit", u64_to_string(at_most(limit, 1000) as u64));
        assert(query_view(r.query@) =~= seq![
            (pair_key(symbol.market_type), gate_pair_text(*symbol)),
            ("limit"@, decimal_text((if limit < 1000 { limit } else { 1000 }) as nat)),
        ]);
        r
    }

    /// The trades of the answer to a recent-trades request, one per entry and
    /// in order.
    pub fn recent_trades_result(symbol: &Symbol, outcome: HttpOutcome<Vec<GateTradeRaw>>) -> (r: Result<Vec<Trade>, CteError>)
        requires
            outcome matches HttpOutcome::Decoded(raws) ==> forall|k: int|
                0 <= k < raws@.len() ==> trade_millis_fit(
                    (#[trigger] raws@[k]).create_time_ms,
                    raws@[k].create_time,
                ),
        ensures
            match outcome {
                HttpOutcome::Decoded(raws) => r matches Ok(ts) && ts@.len() == raws@.len() && forall|k: int|
                    0 <= k < raws@.len() ==> trade_of(raws@[k], *symbol, #[trigger] ts@[k]),
                _ => outcome_error(r, Exchange::GateIo, trades_path(symbol.market_type), outcome),
            },
    {
        let path = match symbol.market_type {
            MarketType::Spot => "/spot/trades",
            _ => "/futures/usdt/trades",
        };
        let raws = match decoded(Exchange::GateIo, path, outcome) {
            Ok(v) => v,
            Err(e) => {
                return Err(e);
            },
        };
        let mut out: Vec<Trade> = Vec::new();
        let mut i: usize = 0;
        while i < raws.len()
            invariant
                i <= raws.len(),
                out@.len() == i,
                forall|k: int|
                    0 <= k < raws@.len() ==> trade_millis_fit(
                        (#[trigger] raws@[k]).create_time_ms,
                        raws@[k].create_time,
                    ),
                forall|k: int| 0 <= k < i ==> trade_of(raws@[k], *symbol, #[trigger] out@[k]),
            decreases raws.len() - i,
        {
            out.push(normalize_trade(&raws[i], symbol));
            i = i + 1;
        }
        Ok(out)
    }
}


/// A trade read from the REST answer takes its price from the price field
/// and its quantity from the size field, and a `sell` is buyer-maker and a `buy` is not.
pub proof fn lemma_trade_fields(raw: GateTradeRaw, symbol: Symbol, t: Trade)
    requires
        trade_of(raw, symbol, t),
    ensures
        t.price@ == decimal_or_zero(raw.price@),
        t.quantity@ == decimal_or_zero(raw.amount@),
        t.symbol == symbol,
        raw.side@ == "sell"@ ==> t.is_buyer_maker,
        raw.side@ == "buy"@ ==> !t.is_buyer_maker,
{
    reveal_strlit("sell");
    reveal_strlit("buy");
    assert("buy"@ != "sell"@) by {
        assert("buy"@.len() != "sell"@.len());
    }
}

/// The bids of a book read from the REST answer are the answer's bids and
/// its asks the answer's asks, level by level.
pub proof fn lemma_book_sides(raw: GateOrderBookRaw, symbol: Symbol, b: OrderBook)
    requires
        depth_book(raw, symbol, b),
    ensures
        levels_of_pairs(raw.bids@, b.bids@),
        levels_of_pairs(raw.asks@, b.asks@),
        b.symbol == symbol,
{
}

/// A gate.io futures candle gives the candle of its named fields: `o` the
/// opening price, `h` the highest, `l` the lowest, `c` the closing price.
pub proof fn lemma_futures_candle_fields(raw: GateFuturesCandleRaw, symbol: Symbol, timeframe: Timeframe, c: Candle)
    requires
        futures_candle(raw, symbol, timeframe, c),
    ensures
        c.open@ == decimal_or_zero(raw.o@),
        c.high@ == decimal_or_zero(raw.h@),
        c.low@ == decimal_or_zero(raw.l@),
        c.close@ == decimal_or_zero(raw.c@),
        c.symbol == symbol,
        c.timeframe == timeframe,
{
}

} // verus!
