//! The Bybit REST client: the requests it sends and how it reads the answers.
use vstd::prelude::*;

use crate::bybit::{
    build_symbol, bybit_category, category_text, kline_candle, normalize_depth, normalize_kline,
    normalize_trade, BybitInstrumentInfo, BybitInstrumentsResult, BybitKlineResult,
    BybitOrderBookResult, BybitResponse, BybitTradeRaw, BybitTradeResult,
};
use crate::decimal::decimal_or_zero;
use crate::error::CteError;
use crate::normalize::{built_symbol, candle_times_of, close_time_fits, i64_or_zero, levels_of_pairs};
use crate::rest::{
    at_most, capped, capped_limit, debug_optional_text, decoded, is_rest_error,
    lemma_filter_prefix, listing_decoded, listing_error, opt_text, optional_text_debug,
    outcome_error, query_view, request_to, request_with_url, HttpOutcome, RestRequest,
};
use crate::text::{
    concat, decimal_text, eq_ignore_ascii_case_spec, i64_to_string, signed_decimal_text, str_eq,
    u64_to_string,
};
use crate::time::stamped;
use crate::timeframe::{bybit_interval, Timeframe};
use crate::types::{Candle, Exchange, MarketType, OrderBook, Symbol, Trade};

verus! {

/// The body of the error that a response with a non-zero code gives.
pub open spec fn api_error_body(code: i32, msg: Option<String>) -> Seq<char> {
    "API error code: "@ + signed_decimal_text(code as int) + ", msg: "@ + optional_text_debug(
        opt_text(msg),
    )
}

/// The result of a response whose code is zero, else the API error.
fn checked_result<T>(endpoint: &str, resp: BybitResponse<T>) -> (r: Result<T, CteError>)
    ensures
        resp.ret_code == 0 ==> r == Ok::<T, CteError>(resp.result),
        resp.ret_code != 0 ==> is_rest_error(
            r,
            Exchange::Bybit,
            endpoint@,
            200,
            api_error_body(resp.ret_code, resp.ret_msg),
        ),
{
    if resp.ret_code == 0 {
        Ok(resp.result)
    } else {
        let mut body = concat("API error code: ", i64_to_string(resp.ret_code as i64).as_str());
        body.append(", msg: ");
        let shown = debug_optional_text(&resp.ret_msg);
        body.append(shown.as_str());
        assert(body@ =~= api_error_body(resp.ret_code, resp.ret_msg));
        Err(
            CteError::RestApi {
                exchange: Exchange::Bybit,
                endpoint: String::from_str(endpoint),
                status: 200,
                body,
            },
        )
    }
}

/// The outcome of a request whose answer is a Bybit envelope: `ok(result)`
/// when the code is zero, the API error for another code, and the request's
/// error otherwise.
pub open spec fn answered<T, U>(
    outcome: HttpOutcome<BybitResponse<T>>,
    endpoint: Seq<char>,
    r: Result<U, CteError>,
    ok: spec_fn(T, U) -> bool,
) -> bool {
    match outcome {
        HttpOutcome::Decoded(resp) => if resp.ret_code == 0 {
            r matches Ok(v) && ok(resp.result, v)
        } else {
            is_rest_error(r, Exchange::Bybit, endpoint, 200, api_error_body(resp.ret_code, resp.ret_msg))
        },
        _ => outcome_error(r, Exchange::Bybit, endpoint, outcome),
    }
}

/// An optional text, or the empty text where it is absent.
pub open spec fn text_or_empty(t: Option<String>) -> Seq<char> {
    match t {
        Some(s) => s@,
        None => ""@,
    }
}

/// The instruments that are trading.
pub open spec fn instrument_trading() -> spec_fn(BybitInstrumentInfo) -> bool {
    |i: BybitInstrumentInfo| i.status@ == "Trading"@
}

/// `syms` are the symbols of the trading instruments, in order; missing coins
/// are empty.
pub open spec fn instrument_symbols(list: Seq<BybitInstrumentInfo>, market_type: MarketType, syms: Seq<Symbol>) -> bool {
    let kept = list.filter(instrument_trading());
    &&& syms.len() == kept.len()
    &&& forall|k: int|
        0 <= k < kept.len() ==> built_symbol(
            #[trigger] syms[k],
            kept[k].symbol@,
            text_or_empty(kept[k].base_coin),
            text_or_empty(kept[k].quote_coin),
            market_type,
            Exchange::Bybit,
        )
}

/// The klines that give a candle.
pub open spec fn kline_kept(timeframe: Timeframe) -> spec_fn(Vec<String>) -> bool {
    |k: Vec<String>| k@.len() >= 7 && candle_times_of(k@[0]@, timeframe) is Some
}

/// The close time of every kline of at least seven fields fits in an `i64`.
pub open spec fn klines_fit(raws: Seq<Vec<String>>, timeframe: Timeframe) -> bool {
    forall|k: int|
        0 <= k < raws.len() && (#[trigger] raws[k])@.len() >= 7 ==> close_time_fits(
            raws[k]@[0]@,
            timeframe,
        )
}

/// `cs` are the candles of the klines that give one, in order.
pub open spec fn kline_candles(raws: Seq<Vec<String>>, symbol: Symbol, timeframe: Timeframe, cs: Seq<Candle>) -> bool {
    let kept = raws.filter(kline_kept(timeframe));
    &&& cs.len() == kept.len()
    &&& forall|k: int| 0 <= k < kept.len() ==> kline_candle(kept[k]@, symbol, timeframe, #[trigger] cs[k])
}

/// The trade a REST trade gives (see `normalize_trade`).
pub open spec fn trade_of(raw: BybitTradeRaw, symbol: Symbol, t: Trade) -> bool {
    &&& t.symbol == symbol
    &&& t.id == raw.exec_id
    &&& t.price@ == decimal_or_zero(raw.price@)
    &&& t.quantity@ == decimal_or_zero(raw.size@)
    &&& stamped(i64_or_zero(raw.time@), t.timestamp as int)
    &&& t.is_buyer_maker == eq_ignore_ascii_case_spec(raw.side@, "sell"@)
}

/// The order book a REST snapshot gives (see `normalize_depth`).
pub open spec fn depth_book(raw: BybitOrderBookResult, symbol: Symbol, b: OrderBook) -> bool {
    &&& b.symbol == symbol
    &&& stamped(
        (match raw.ts {
            Some(t) => t,
            None => 0u64,
        } as i64) as int,
        b.timestamp as int,
    )
    &&& levels_of_pairs(raw.b@, b.bids@)
    &&& levels_of_pairs(raw.a@, b.asks@)
    &&& b.sequence == match raw.u {
        Some(u) => u,
        None => 0,
    }
}

/// The Bybit REST client: the base URL.
#[derive(Debug)]
pub struct BybitRestClient {
    pub base_url: String,
}

impl BybitRestClient {
    /// A client of the base URL.
    pub fn new(base_url: &str) -> (r: BybitRestClient)
        ensures
            r.base_url@ == base_url@,
    {
        BybitRestClient { base_url: String::from_str(base_url) }
    }

    /// The ping request: the server time.
    pub fn ping_request(&self) -> (r: RestRequest)
        ensures
            r.url@ == self.base_url@ + "/v5/market/time"@,
            r.query@.len() == 0,
    {
        request_to(self.base_url.as_str(), "/v5/market/time")
    }

    /// The request listing the instruments of a market's category.
    pub fn symbols_request(&self, market_type: MarketType) -> (r: RestRequest)
        ensures
            r.url@ == self.base_url@ + "/v5/market/instruments-info?category="@ + category_text(
                market_type,
            ),
            r.endpoint@ == "/v5/market/instruments-info"@,
            r.query@.len() == 0,
    {
        let mut url = concat(self.base_url.as_str(), "/v5/market/instruments-info?category=");
        url.append(bybit_category(market_type));
        request_with_url(url, "/v5/market/instruments-info")
    }

    /// The trading instruments of the answer to a listing, as symbols of the
    /// market type.
    pub fn symbols_result(market_type: MarketType, outcome: HttpOutcome<BybitResponse<BybitInstrumentsResult>>) -> (r: Result<Vec<Symbol>, CteError>)
        ensures
            match outcome {
                HttpOutcome::Decoded(resp) => if resp.ret_code == 0 {
                    r matches Ok(syms) && instrument_symbols(resp.result.list@, market_type, syms@)
                } else {
                    is_rest_error(
                        r,
                        Exchange::Bybit,
                        "/v5/market/instruments-info"@,
                        200,
                        api_error_body(resp.ret_code, resp.ret_msg),
                    )
                },
                _ => listing_error(r, Exchange::Bybit, "/v5/market/instruments-info"@, outcome),
            },
    {
        let endpoint = "/v5/market/instruments-info";
        let resp = match listing_decoded(Exchange::Bybit, endpoint, outcome) {
            Ok(v) => v,
            Err(e) => {
                return Err(e);
            },
        };
        let result = match checked_result(endpoint, resp) {
            Ok(v) => v,
            Err(e) => {
                return Err(e);
            },
        };
        let list = &result.list;
        let ghost pred = instrument_trading();
        let mut out: Vec<Symbol> = Vec::new();
        let mut i: usize = 0;
        while i < list.len()
            invariant
                i <= list.len(),
                pred == instrument_trading(),
                out@.len() == list@.subrange(0, i as int).filter(pred).len(),
                forall|k: int|
                    0 <= k < out@.len() ==> built_symbol(
                        #[trigger] out@[k],
                        list@.subrange(0, i as int).filter(pred)[k].symbol@,
                        text_or_empty(list@.subrange(0, i as int).filter(pred)[k].base_coin),
                        text_or_empty(list@.subrange(0, i as int).filter(pred)[k].quote_coin),
                        market_type,
                        Exchange::Bybit,
                    ),
            decreases list.len() - i,
        {
            proof {
                lemma_filter_prefix(list@, i as int, pred);
            }
            let s = &list[i];
            if str_eq(s.status.as_str(), "Trading") {
                let base = match &s.base_coin {
                    Some(b) => b.as_str(),
                    None => "",
                };
                let quote = match &s.quote_coin {
                    Some(q) => q.as_str(),
                    None => "",
                };
                out.push(build_symbol(s.symbol.as_str(), base, quote, market_type));
            }
            i = i + 1;
        }
        assert(list@.subrange(0, list.len() as int) =~= list@);
        Ok(out)
    }

    /// The kline request: `category`, `symbol`, `interval`, `limit` (200 by
    /// default, at most 1000), then `start` where a start is given (the
    /// milliseconds as an unsigned number).
    pub fn candles_request(&self, symbol: &Symbol, timeframe: Timeframe, start: Option<i64>, limit: Option<u32>) -> (r: RestRequest)
        ensures
            r.url@ == self.base_url@ + "/v5/market/kline"@,
            r.endpoint@ == "/v5/market/kline"@,
            query_view(r.query@) == seq![
                ("category"@, category_text(symbol.market_type)),
                ("symbol"@, symbol.raw_symbol@),
                ("interval"@, bybit_interval(timeframe)),
                ("limit"@, decimal_text(capped(limit, 200, 1000) as nat)),
            ] + match start {
                Some(ms) => seq![("start"@, decimal_text((ms as u64) as nat))],
                None => seq![],
            },
    {
        let mut r = request_to(self.base_url.as_str(), "/v5/market/kline");
        r.add_query("category", String::from_str(bybit_category(symbol.market_type)));
        r.add_query("symbol", symbol.raw_symbol.clone());
        r.add_query("interval", String::from_str(timeframe.to_bybit_str()));
        r.add_query("limit", u64_to_string(capped_limit(limit, 200, 1000) as u64));
        if let Some(ms) = start {
            r.add_query("start", u64_to_string(ms as u64));
        }
        assert(query_view(r.query@) =~= seq![
            ("category"@, category_text(symbol.market_type)),
            ("symbol"@, symbol.raw_symbol@),
            ("interval"@, bybit_interval(timeframe)),
            ("limit"@, decimal_text(capped(limit, 200, 1000) as nat)),
        ] + match start {
            Some(ms) => seq![("start"@, decimal_text((ms as u64) as nat))],
            None => seq![],
        });
        r
    }

    /// The candles of the answer to a kline request: one for each kline that
    /// gives one, in order.
    pub fn candles_result(symbol: &Symbol, timeframe: Timeframe, outcome: HttpOutcome<BybitResponse<BybitKlineResult>>) -> (r: Result<Vec<Candle>, CteError>)
        requires
            outcome matches HttpOutcome::Decoded(resp) ==> klines_fit(resp.result.list@, timeframe),
        ensures
            answered(
                outcome,
                "/v5/market/kline"@,
                r,
                |res: BybitKlineResult, cs: Vec<Candle>| kline_candles(res.list@, *symbol, timeframe, cs@),
            ),
    {
        let endpoint = "/v5/market/kline";
        let resp = match decoded(Exchange::Bybit, endpoint, outcome) {
            Ok(v) => v,
            Err(e) => {
                return Err(e);
            },
        };
        let result = match checked_result(endpoint, resp) {
            Ok(v) => v,
            Err(e) => {
                return Err(e);
            },
        };
        let raws = &result.list;
        let ghost pred = kline_kept(timeframe);
        let mut out: Vec<Candle> = Vec::new();
        let mut i: usize = 0;
        while i < raws.len()
            invariant
                i <= raws.len(),
                pred == kline_kept(timeframe),
                klines_fit(raws@, timeframe),
                out@.len() == raws@.subrange(0, i as int).filter(pred).len(),
                forall|k: int|
                    0 <= k < out@.len() ==> kline_candle(
                        raws@.subrange(0, i as int).filter(pred)[k]@,
                        *symbol,
                        timeframe,
                        #[trigger] out@[k],
                    ),
            decreases raws.len() - i,
        {
            proof {
                lemma_filter_prefix(raws@, i as int, pred);
            }
            match normalize_kline(raws[i].as_slice(), symbol, timeframe) {
                Some(c) => out.push(c),
                None => {},
            }
            i = i + 1;
        }
        assert(raws@.subrange(0, raws.len() as int) =~= raws@);
        Ok(out)
    }

    /// The order-book request: `category`, `symbol`, then `limit` (at most 200).
    pub fn orderbook_request(&self, symbol: &Symbol, depth: u32) -> (r: RestRequest)
        ensures
            r.url@ == self.base_url@ + "/v5/market/orderbook"@,
            r.endpoint@ == "/v5/market/orderbook"@,
            query_view(r.query@) == seq![
                ("category"@, category_text(symbol.market_type)),
                ("symbol"@, symbol.raw_symbol@),
                ("limit"@, decimal_text((if depth < 200 { depth } else { 200 }) as nat)),
            ],
    {
        let mut r = request_to(self.base_url.as_str(), "/v5/market/orderbook");
        r.add_query("category", String::from_str(bybit_category(symbol.market_type)));
        r.add_query("symbol", symbol.raw_symbol.clone());
        r.add_query("limit", u64_to_string(at_most(depth, 200) as u64));
        assert(query_view(r.query@) =~= seq![
            ("category"@, category_text(symbol.market_type)),
            ("symbol"@, symbol.raw_symbol@),
            ("limit"@, decimal_text((if depth < 200 { depth } else { 200 }) as nat)),
        ]);
        r
    }

    /// The order book of the answer to an order-book request.
    pub fn orderbook_result(symbol: &Symbol, outcome: HttpOutcome<BybitResponse<BybitOrderBookResult>>) -> (r: Result<OrderBook, CteError>)
        ensures
            answered(
                outcome,
                "/v5/market/orderbook"@,
                r,
                |raw: BybitOrderBookResult, b: OrderBook| depth_book(raw, *symbol, b),
            ),
    {
        let endpoint = "/v5/market/orderbook";
        let resp = match decoded(Exchange::Bybit, endpoint, outcome) {
            Ok(v) => v,
            Err(e) => {
                return Err(e);
            },
        };
        match checked_result(endpoint, resp) {
            Ok(raw) => Ok(normalize_depth(&raw, symbol)),
            Err(e) => Err(e),
        }
    }

    /// The recent-trades request: `category`, `symbol`, then `limit` (at most 1000).
    pub fn recent_trades_request(&self, symbol: &Symbol, limit: u32) -> (r: RestRequest)
        ensures
            r.url@ == self.base_url@ + "/v5/market/recent-trade"@,
            r.endpoint@ == "/v5/market/recent-trade"@,
            query_view(r.query@) == seq![
                ("category"@, category_text(symbol.market_type)),
                ("symbol"@, symbol.raw_symbol@),
                ("limit"@, decimal_text((if limit < 1000 { limit } else { 1000 }) as nat)),
            ],
    {
        let mut r = request_to(self.base_url.as_str(), "/v5/market/recent-trade");
        r.add_query("category", String::from_str(bybit_category(symbol.market_type)));
        r.add_query("symbol", symbol.raw_symbol.clone());
        r.add_query("limit", u64_to_string(at_most(limit, 1000) as u64));
        assert(query_view(r.query@) =~= seq![
            ("category"@, category_text(symbol.market_type)),
            ("symbol"@, symbol.raw_symbol@),
            ("limit"@, decimal_text((if limit < 1000 { limit } else { 1000 }) as nat)),
        ]);
        r
    }

    /// The trades of the answer to a recent-trades request, one per entry and
    /// in order.
    pub fn recent_trades_result(symbol: &Symbol, outcome: HttpOutcome<BybitResponse<BybitTradeResult>>) -> (r: Result<Vec<Trade>, CteError>)
        ensures
            answered(
                outcome,
                "/v5/market/recent-trade"@,
                r,
                |res: BybitTradeResult, ts: Vec<Trade>| ts@.len() == res.list@.len() && forall|k: int|
                    0 <= k < res.list@.len() ==> trade_of(res.list@[k], *symbol, #[trigger] ts@[k]),
            ),
    {
        let endpoint = "/v5/market/recent-trade";
        let resp = match decoded(Exchange::Bybit, endpoint, outcome) {
            Ok(v) => v,
            Err(e) => {
                return Err(e);
            },
        };
        let result = match checked_result(endpoint, resp) {
            Ok(v) => v,
            Err(e) => {
                return Err(e);
            },
        };
        let raws = &result.list;
        let mut out: Vec<Trade> = Vec::new();
        let mut i: usize = 0;
        while i < raws.len()
            invariant
                i <= raws.len(),
                out@.len() == i,
                forall|k: int| 0 <= k < i ==> trade_of(raws@[k], *symbol, #[trigger] out@[k]),
            decreases raws.len() - i,
        {
            out.push(normalize_trade(&raws[i], symbol));
            i = i + 1;
        }
        Ok(out)
    }
}

/// A trade read from the REST answer takes its price from the price field
/// and its quantity from the size field, and a sell (in either case) is buyer-maker and a buy is not.
pub proof fn lemma_trade_fields(raw: BybitTradeRaw, symbol: Symbol, t: Trade)
    requires
        trade_of(raw, symbol, t),
    ensures
        t.price@ == decimal_or_zero(raw.price@),
        t.quantity@ == decimal_or_zero(raw.size@),
        t.symbol == symbol,
        raw.side@ == "sell"@ || raw.side@ == "Sell"@ ==> t.is_buyer_maker,
        raw.side@ == "buy"@ || raw.side@ == "Buy"@ ==> !t.is_buyer_maker,
{
    reveal_strlit("sell");
    reveal_strlit("buy");
    reveal_strlit("Sell");
    reveal_strlit("Buy");
    assert("buy"@.len() != "sell"@.len());
    assert("Buy"@.len() != "sell"@.len());
    assert("Sell"@.len() == "sell"@.len());
    assert(forall|i: int| 0 <= i < 4 ==> crate::text::ascii_lower(#[trigger] "Sell"@[i]) == crate::text::ascii_lower("sell"@[i]));
}

/// The bids of a book read from the REST answer are the answer's bids and
/// its asks the answer's asks, level by level.
pub proof fn lemma_book_sides(raw: BybitOrderBookResult, symbol: Symbol, b: OrderBook)
    requires
        depth_book(raw, symbol, b),
    ensures
        levels_of_pairs(raw.b@, b.bids@),
        levels_of_pairs(raw.a@, b.asks@),
        b.symbol == symbol,
{
}

} // verus!
