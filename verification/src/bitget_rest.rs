//! The Bitget REST client: the requests it sends and how it reads the answers.
use vstd::prelude::*;

use crate::bitget::{
    bitget_product_type, build_symbol, kline_candle, normalize_depth, normalize_kline,
    normalize_trade, product_type_text, BitgetKlineRaw, BitgetOrderBookRaw, BitgetResponse,
    BitgetSpotSymbol, BitgetTicker, BitgetTradeRaw,
};
use crate::decimal::decimal_or_zero;
use crate::error::CteError;
use crate::normalize::{
    built_symbol, candle_times_of, close_time_fits, i64_or_zero, levels_of_pairs,
    optional_i64_or_zero,
};
use crate::rest::{
    at_most, capped, capped_limit, debug_optional_text, decoded, is_rest_error,
    lemma_filter_prefix, listing_decoded, listing_error, market_path, opt_text,
    optional_text_debug, outcome_error, query_view, request_to, request_with_url, HttpOutcome,
    RestRequest,
};
use crate::text::{
    concat, decimal_text, eq_ignore_ascii_case_spec, i64_to_string, signed_decimal_text, str_eq,
    u64_to_string,
};
use crate::time::stamped;
use crate::timeframe::{bitget_granularity, Timeframe};
use crate::types::{Candle, Exchange, MarketType, OrderBook, Symbol, Trade};

verus! {

/// The code of a successful response.
pub open spec fn ok_code(code: Seq<char>) -> bool {
    code == "00000"@
}

/// The body of the error that a response with another code gives.
pub open spec fn api_error_body(code: Seq<char>, msg: Option<String>) -> Seq<char> {
    "API error: "@ + code + " - "@ + optional_text_debug(opt_text(msg))
}

/// The data of a response whose code is `00000`, else the API error.
fn checked_data<T>(endpoint: &str, resp: BitgetResponse<T>) -> (r: Result<T, CteError>)
    ensures
        ok_code(resp.code@) ==> r == Ok::<T, CteError>(resp.data),
        !ok_code(resp.code@) ==> is_rest_error(
            r,
            Exchange::Bitget,
            endpoint@,
            200,
            api_error_body(resp.code@, resp.msg),
        ),
{
    if str_eq(resp.code.as_str(), "00000") {
        Ok(resp.data)
    } else {
        let mut body = concat("API error: ", resp.code.as_str());
        body.append(" - ");
        let shown = debug_optional_text(&resp.msg);
        body.append(shown.as_str());
        assert(body@ =~= api_error_body(resp.code@, resp.msg));
        Err(
            CteError::RestApi {
                exchange: Exchange::Bitget,
                endpoint: String::from_str(endpoint),
                status: 200,
                body,
            },
        )
    }
}

/// The spot symbols that are online.
pub open spec fn spot_online() -> spec_fn(BitgetSpotSymbol) -> bool {
    |s: BitgetSpotSymbol| s.status@ == "online"@
}

/// `syms` are the spot symbols of the online entries of `list`, in order.
pub open spec fn spot_symbols(list: Seq<BitgetSpotSymbol>, syms: Seq<Symbol>) -> bool {
    let kept = list.filter(spot_online());
    &&& syms.len() == kept.len()
    &&& forall|k: int|
        0 <= k < kept.len() ==> built_symbol(
            #[trigger] syms[k],
            kept[k].symbol@,
            kept[k].base_coin@,
            kept[k].quote_coin@,
            MarketType::Spot,
            Exchange::Bitget,
        )
}

/// An optional text, or `default` where it is absent.
pub open spec fn text_or(t: Option<String>, default: Seq<char>) -> Seq<char> {
    match t {
        Some(s) => s@,
        None => default,
    }
}

/// `syms` are the symbols of the tickers, one for one: the base coin defaults
/// to empty and the quote coin to `USDT`.
pub open spec fn ticker_symbols(list: Seq<BitgetTicker>, market_type: MarketType, syms: Seq<Symbol>) -> bool {
    &&& syms.len() == list.len()
    &&& forall|k: int|
        0 <= k < list.len() ==> built_symbol(
            #[trigger] syms[k],
            list[k].symbol@,
            text_or(list[k].base_coin, ""@),
            text_or(list[k].quote_coin, "USDT"@),
            market_type,
            Exchange::Bitget,
        )
}

/// The klines that give a candle.
pub open spec fn kline_kept(timeframe: Timeframe) -> spec_fn(BitgetKlineRaw) -> bool {
    |k: BitgetKlineRaw| k@.len() >= 7 && candle_times_of(k@[0]@, timeframe) is Some
}

/// The close time of every kline of at least seven fields fits in an `i64`.
pub open spec fn klines_fit(raws: Seq<BitgetKlineRaw>, timeframe: Timeframe) -> bool {
    forall|k: int|
        0 <= k < raws.len() && (#[trigger] raws[k])@.len() >= 7 ==> close_time_fits(
            raws[k]@[0]@,
            timeframe,
        )
}

/// `cs` are the candles of the klines that give one, in order.
pub open spec fn kline_candles(raws: Seq<BitgetKlineRaw>, symbol: Symbol, timeframe: Timeframe, cs: Seq<Candle>) -> bool {
    let kept = raws.filter(kline_kept(timeframe));
    &&& cs.len() == kept.len()
    &&& forall|k: int| 0 <= k < kept.len() ==> kline_candle(kept[k]@, symbol, timeframe, #[trigger] cs[k])
}

/// The trade a REST trade gives (see `normalize_trade`).
pub open spec fn trade_of(raw: BitgetTradeRaw, symbol: Symbol, t: Trade) -> bool {
    &&& t.symbol == symbol
    &&& t.id == raw.trade_id
    &&& t.price@ == decimal_or_zero(raw.price@)
    &&& t.quantity@ == decimal_or_zero(raw.size@)
    &&& stamped(i64_or_zero(raw.ts@), t.timestamp as int)
    &&& t.is_buyer_maker == eq_ignore_ascii_case_spec(raw.side@, "sell"@)
}

/// The order book a REST snapshot gives (see `normalize_depth`).
pub open spec fn depth_book(raw: BitgetOrderBookRaw, symbol: Symbol, b: OrderBook) -> bool {
    &&& b.symbol == symbol
    &&& stamped(optional_i64_or_zero(raw.ts), b.timestamp as int)
    &&& levels_of_pairs(raw.bids@, b.bids@)
    &&& levels_of_pairs(raw.asks@, b.asks@)
    &&& b.sequence == 0
}

/// The candle endpoint of a market.
pub open spec fn candles_path(m: MarketType) -> Seq<char> {
    market_path(m, "/api/v2/spot/market/candles"@, "/api/v2/mix/market/candles"@)
}

/// The order-book endpoint of a market.
pub open spec fn depth_path(m: MarketType) -> Seq<char> {
    market_path(m, "/api/v2/spot/market/merge-depth"@, "/api/v2/mix/market/merge-depth"@)
}

/// The recent-trades endpoint of a market.
pub open spec fn trades_path(m: MarketType) -> Seq<char> {
    market_path(m, "/api/v2/spot/market/fills"@, "/api/v2/mix/market/fills"@)
}

/// The outcome of a request whose answer is a Bitget envelope: `ok(data)` when
/// the code is `00000`, the API error for another code, and the request's
/// error otherwise.
pub open spec fn answered<T, U>(
    outcome: HttpOutcome<BitgetResponse<T>>,
    endpoint: Seq<char>,
    r: Result<U, CteError>,
    ok: spec_fn(T, U) -> bool,
) -> bool {
    match outcome {
        HttpOutcome::Decoded(resp) => if ok_code(resp.code@) {
            r matches Ok(v) && ok(resp.data, v)
        } else {
            is_rest_error(r, Exchange::Bitget, endpoint, 200, api_error_body(resp.code@, resp.msg))
        },
        _ => outcome_error(r, Exchange::Bitget, endpoint, outcome),
    }
}

/// The Bitget REST client: the base URL.
#[derive(Debug)]
pub struct BitgetRestClient {
    pub base_url: String,
}

impl BitgetRestClient {
    /// A client of the base URL.
    pub fn new(base_url: &str) -> (r: BitgetRestClient)
        ensures
            r.base_url@ == base_url@,
    {
        BitgetRestClient { base_url: String::from_str(base_url) }
    }

    /// The ping request: the USDT-futures tickers.
    pub fn ping_request(&self) -> (r: RestRequest)
        ensures
            r.url@ == self.base_url@ + "/api/v2/mix/market/tickers?productType=USDT-FUTURES"@,
            r.query@.len() == 0,
    {
        request_to(self.base_url.as_str(), "/api/v2/mix/market/tickers?productType=USDT-FUTURES")
    }

    /// The request listing the symbols of a market: the spot symbols, or the
    /// tickers of the market's product type.
    pub fn symbols_request(&self, market_type: MarketType) -> (r: RestRequest)
        ensures
            market_type == MarketType::Spot ==> r.url@ == self.base_url@
                + "/api/v2/spot/public/symbols"@ && r.endpoint@ == "/api/v2/spot/public/symbols"@,
            market_type != MarketType::Spot ==> r.url@ == self.base_url@
                + "/api/v2/mix/market/tickers"@ + "?productType="@ + product_type_text(market_type)
                && r.endpoint@ == "/api/v2/mix/market/tickers"@,
            r.query@.len() == 0,
    {
        match market_type {
            MarketType::Spot => request_to(self.base_url.as_str(), "/api/v2/spot/public/symbols"),
            _ => {
                let mut url = concat(self.base_url.as_str(), "/api/v2/mix/market/tickers");
                url.append("?productType=");
                url.append(bitget_product_type(market_type));
                request_with_url(url, "/api/v2/mix/market/tickers")
            },
        }
    }

    /// The online spot symbols of the answer to the spot listing.
    pub fn spot_symbols_result(outcome: HttpOutcome<BitgetResponse<Vec<BitgetSpotSymbol>>>) -> (r: Result<Vec<Symbol>, CteError>)
        ensures
            match outcome {
                HttpOutcome::Decoded(resp) => if ok_code(resp.code@) {
                    r matches Ok(syms) && spot_symbols(resp.data@, syms@)
                } else {
                    is_rest_error(
                        r,
                        Exchange::Bitget,
                        "/api/v2/spot/public/symbols"@,
                        200,
                        api_error_body(resp.code@, resp.msg),
                    )
                },
                _ => listing_error(r, Exchange::Bitget, "/api/v2/spot/public/symbols"@, outcome),
            },
    {
        let endpoint = "/api/v2/spot/public/symbols";
        let resp = match listing_decoded(Exchange::Bitget, endpoint, outcome) {
            Ok(v) => v,
            Err(e) => {
                return Err(e);
            },
        };
        let list = match checked_data(endpoint, resp) {
            Ok(v) => v,
            Err(e) => {
                return Err(e);
            },
        };
        let ghost pred = spot_online();
        let mut out: Vec<Symbol> = Vec::new();
        let mut i: usize = 0;
        while i < list.len()
            invariant
                i <= list.len(),
                pred == spot_online(),
                out@.len() == list@.subrange(0, i as int).filter(pred).len(),
                forall|k: int|
                    0 <= k < out@.len() ==> built_symbol(
                        #[trigger] out@[k],
                        list@.subrange(0, i as int).filter(pred)[k].symbol@,
                        list@.subrange(0, i as int).filter(pred)[k].base_coin@,
                        list@.subrange(0, i as int).filter(pred)[k].quote_coin@,
                        MarketType::Spot,
                        Exchange::Bitget,
                    ),
            decreases list.len() - i,
        {
            proof {
                lemma_filter_prefix(list@, i as int, pred);
            }
            let s = &list[i];
            if str_eq(s.status.as_str(), "online") {
                out.push(
                    build_symbol(
                        s.symbol.as_str(),
                        s.base_coin.as_str(),
                        s.quote_coin.as_str(),
                        MarketType::Spot,
                    ),
                );
            }
            i = i + 1;
        }
        assert(list@.subrange(0, list.len() as int) =~= list@);
        Ok(out)
    }

    /// The symbols of the tickers in the answer to a derivatives listing.
    pub fn futures_symbols_result(market_type: MarketType, outcome: HttpOutcome<BitgetResponse<Vec<BitgetTicker>>>) -> (r: Result<Vec<Symbol>, CteError>)
        ensures
            match outcome {
                HttpOutcome::Decoded(resp) => if ok_code(resp.code@) {
                    r matches Ok(syms) && ticker_symbols(resp.data@, market_type, syms@)
                } else {
                    is_rest_error(
                        r,
                        Exchange::Bitget,
                        "/api/v2/mix/market/tickers"@,
                        200,
                        api_error_body(resp.code@, resp.msg),
                    )
                },
                _ => listing_error(r, Exchange::Bitget, "/api/v2/mix/market/tickers"@, outcome),
            },
    {
        let endpoint = "/api/v2/mix/market/tickers";
        let resp = match listing_decoded(Exchange::Bitget, endpoint, outcome) {
            Ok(v) => v,
            Err(e) => {
                return Err(e);
            },
        };
        let list = match checked_data(endpoint, resp) {
            Ok(v) => v,
            Err(e) => {
                return Err(e);
            },
        };
        let mut out: Vec<Symbol> = Vec::new();
        let mut i: usize = 0;
        while i < list.len()
            invariant
                i <= list.len(),
                out@.len() == i,
                forall|k: int|
                    0 <= k < i ==> built_symbol(
                        #[trigger] out@[k],
                        list@[k].symbol@,
                        text_or(list@[k].base_coin, ""@),
                        text_or(list@[k].quote_coin, "USDT"@),
                        market_type,
                        Exchange::Bitget,
                    ),
            decreases list.len() - i,
        {
            let t = &list[i];
            let base = match &t.base_coin {
                Some(b) => b.as_str(),
                None => "",
            };
            let quote = match &t.quote_coin {
                Some(q) => q.as_str(),
                None => "USDT",
            };
            out.push(build_symbol(t.symbol.as_str(), base, quote, market_type));
            i = i + 1;
        }
        Ok(out)
    }
    /// The candle request: the product type first for derivatives, `symbol`,
    /// `granularity`, `limit` (200 by default, at most 1000), then `startTime`
    /// where a start is given.
    pub fn candles_request(&self, symbol: &Symbol, timeframe: Timeframe, start: Option<i64>, limit: Option<u32>) -> (r: RestRequest)
        ensures
            r.url@ == self.base_url@ + candles_path(symbol.market_type),
            r.endpoint@ == candles_path(symbol.market_type),
            query_view(r.query@) == (if symbol.market_type == MarketType::Spot {
                seq![]
            } else {
                seq![("productType"@, product_type_text(symbol.market_type))]
            }) + seq![
                ("symbol"@, symbol.raw_symbol@),
                ("granularity"@, bitget_granularity(timeframe)),
                ("limit"@, decimal_text(capped(limit, 200, 1000) as nat)),
            ] + match start {
                Some(ms) => seq![("startTime"@, signed_decimal_text(ms as int))],
                None => seq![],
            },
    {
        let path = match symbol.market_type {
            MarketType::Spot => "/api/v2/spot/market/candles",
            _ => "/api/v2/mix/market/candles",
        };
        let mut r = request_to(self.base_url.as_str(), path);
        match symbol.market_type {
            MarketType::Spot => {},
            _ => {
                r.add_query("productType", String::from_str(bitget_product_type(symbol.market_type)));
            },
        }
        r.add_query("symbol", symbol.raw_symbol.clone());
        r.add_query("granularity", String::from_str(timeframe.to_bitget_str()));
        r.add_query("limit", u64_to_string(capped_limit(limit, 200, 1000) as u64));
        if let Some(ms) = start {
            r.add_query("startTime", i64_to_string(ms));
        }
        assert(query_view(r.query@) =~= (if symbol.market_type == MarketType::Spot {
            seq![]
        } else {
            seq![("productType"@, product_type_text(symbol.market_type))]
        }) + seq![
            ("symbol"@, symbol.raw_symbol@),
            ("granularity"@, bitget_granularity(timeframe)),
            ("limit"@, decimal_text(capped(limit, 200, 1000) as nat)),
        ] + match start {
            Some(ms) => seq![("startTime"@, signed_decimal_text(ms as int))],
            None => seq![],
        });
        r
    }

    /// The candles of the answer to a candle request: one for each kline that
    /// gives one, in order.
    pub fn candles_result(symbol: &Symbol, timeframe: Timeframe, outcome: HttpOutcome<BitgetResponse<Vec<BitgetKlineRaw>>>) -> (r: Result<Vec<Candle>, CteError>)
        requires
            outcome matches HttpOutcome::Decoded(resp) ==> klines_fit(resp.data@, timeframe),
        ensures
            answered(
                outcome,
                candles_path(symbol.market_type),
                r,
                |raws: Vec<BitgetKlineRaw>, cs: Vec<Candle>| kline_candles(raws@, *symbol, timeframe, cs@),
            ),
    {
        let path = match symbol.market_type {
            MarketType::Spot => "/api/v2/spot/market/candles",
            _ => "/api/v2/mix/market/candles",
        };
        let resp = match decoded(Exchange::Bitget, path, outcome) {
            Ok(v) => v,
            Err(e) => {
                return Err(e);
            },
        };
        let raws = match checked_data(path, resp) {
            Ok(v) => v,
            Err(e) => {
                return Err(e);
            },
        };
        let ghost pred = kline_kept(timeframe);
        let mut out: Vec<Candle> = Vec::new();
        let mut i: usize = 0;
        while i < raws.len()
            invariant
                i <= raws.len(),
                pred == kline_kept(timeframe),
                klines_fit(raws@, timeframe),
                out@.len() == raws@.subrange(0, i as int).filter(pred).len(),
                forall|k: int|
                    0 <= k < out@.len() ==> kline_candle(
                        raws@.subrange(0, i as int).filter(pred)[k]@,
                        *symbol,
                        timeframe,
                        #[trigger] out@[k],
                    ),
            decreases raws.len() - i,
        {
            proof {
                lemma_filter_prefix(raws@, i as int, pred);
            }
            match normalize_kline(&raws[i], symbol, timeframe) {
                Some(c) => out.push(c),
                None => {},
            }
            i = i + 1;
        }
        assert(raws@.subrange(0, raws.len() as int) =~= raws@);
        Ok(out)
    }

    /// The order-book request: `symbol`, `limit` (at most 150), then the
    /// product type for derivatives.
    pub fn orderbook_request(&self, symbol: &Symbol, depth: u32) -> (r: RestRequest)
        ensures
            r.url@ == self.base_url@ + depth_path(symbol.market_type),
            r.endpoint@ == depth_path(symbol.market_type),
            query_view(r.query@) == seq![
                ("symbol"@, symbol.raw_symbol@),
                ("limit"@, decimal_text((if depth < 150 { depth } else { 150 }) as nat)),
            ] + (if symbol.market_type == MarketType::Spot {
                seq![]
            } else {
                seq![("productType"@, product_type_text(symbol.market_type))]
            }),
    {
        let path = match symbol.market_type {
            MarketType::Spot => "/api/v2/spot/market/merge-depth",
            _ => "/api/v2/mix/market/merge-depth",
        };
        let mut r = request_to(self.base_url.as_str(), path);
        r.add_query("symbol", symbol.raw_symbol.clone());
        r.add_query("limit", u64_to_string(at_most(depth, 150) as u64));
        match symbol.market_type {
            MarketType::Spot => {},
            _ => {
                r.add_query("productType", String::from_str(bitget_product_type(symbol.market_type)));
            },
        }
        assert(query_view(r.query@) =~= seq![
            ("symbol"@, symbol.raw_symbol@),
            ("limit"@, decimal_text((if depth < 150 { depth } else { 150 }) as nat)),
        ] + (if symbol.market_type == MarketType::Spot {
            seq![]
        } else {
            seq![("productType"@, product_type_text(symbol.market_type))]
        }));
        r
    }

    /// The order book of the answer to an order-book request.
    pub fn orderbook_result(symbol: &Symbol, outcome: HttpOutcome<BitgetResponse<BitgetOrderBookRaw>>) -> (r: Result<OrderBook, CteError>)
        ensures
            answered(
                outcome,
                depth_path(symbol.market_type),
                r,
                |raw: BitgetOrderBookRaw, b: OrderBook| depth_book(raw, *symbol, b),
            ),
    {
        let path = match symbol.market_type {
            MarketType::Spot => "/api/v2/spot/market/merge-depth",
            _ => "/api/v2/mix/market/merge-depth",
        };
        let resp = match decoded(Exchange::Bitget, path, outcome) {
            Ok(v) => v,
            Err(e) => {
                return Err(e);
            },
        };
        match checked_data(path, resp) {
            Ok(raw) => Ok(normalize_depth(&raw, symbol)),
            Err(e) => Err(e),
        }
    }

    /// The recent-trades request: `symbol`, `limit` (at most 500), then the
    /// product type for derivatives.
    pub fn recent_trades_request(&self, symbol: &Symbol, limit: u32) -> (r: RestRequest)
        ensures
            r.url@ == self.base_url@ + trades_path(symbol.market_type),
            r.endpoint@ == trades_path(symbol.market_type),
            query_view(r.query@) == seq![
                ("symbol"@, symbol.raw_symbol@),
                ("limit"@, decimal_text((if limit < 500 { limit } else { 500 }) as nat)),
            ] + (if symbol.market_type == MarketType::Spot {
                seq![]
            } else {
                seq![("productType"@, product_type_text(symbol.market_type))]
            }),
    {
        let path = match symbol.market_type {
            MarketType::Spot => "/api/v2/spot/market/fills",
            _ => "/api/v2/mix/market/fills",
        };
        let mut r = request_to(self.base_url.as_str(), path);
        r.add_query("symbol", symbol.raw_symbol.clone());
        r.add_query("limit", u64_to_string(at_most(limit, 500) as u64));
        match symbol.market_type {
            MarketType::Spot => {},
            _ => {
                r.add_query("productType", String::from_str(bitget_product_type(symbol.market_type)));
            },
        }
        assert(query_view(r.query@) =~= seq![
            ("symbol"@, symbol.raw_symbol@),
            ("limit"@, decimal_text((if limit < 500 { limit } else { 500 }) as nat)),
        ] + (if symbol.market_type == MarketType::Spot {
            seq![]
        } else {
            seq![("productType"@, product_type_text(symbol.market_type))]
        }));
        r
    }

    /// The trades of the answer to a recent-trades request, one per entry and
    /// in order.
    pub fn recent_trades_result(symbol: &Symbol, outcome: HttpOutcome<BitgetResponse<Vec<BitgetTradeRaw>>>) -> (r: Result<Vec<Trade>, CteError>)
        ensures
            answered(
                outcome,
                trades_path(symbol.market_type),
                r,
                |raws: Vec<BitgetTradeRaw>, ts: Vec<Trade>| ts@.len() == raws@.len() && forall|k: int|
                    0 <= k < raws@.len() ==> trade_of(raws@[k], *symbol, #[trigger] ts@[k]),
            ),
    {
        let path = match symbol.market_type {
            MarketType::Spot => "/api/v2/spot/market/fills",
            _ => "/api/v2/mix/market/fills",
        };
        let resp = match decoded(Exchange::Bitget, path, outcome) {
            Ok(v) => v,
            Err(e) => {
                return Err(e);
            },
        };
        let raws = match checked_data(path, resp) {
            Ok(v) => v,
            Err(e) => {
                return Err(e);
            },
        };
        let mut out: Vec<Trade> = Vec::new();
        let mut i: usize = 0;
        while i < raws.len()
            invariant
                i <= raws.len(),
                out@.len() == i,
                forall|k: int| 0 <= k < i ==> trade_of(raws@[k], *symbol, #[trigger] out@[k]),
            decreases raws.len() - i,
        {
            out.push(normalize_trade(&raws[i], symbol));
            i = i + 1;
        }
        Ok(out)
    }
}


/// A trade read from the REST answer takes its price from the price field
/// and its quantity from the size field, and a sell (in either case) is buyer-maker and a buy is not.
pub proof fn lemma_trade_fields(raw: BitgetTradeRaw, symbol: Symbol, t: Trade)
    requires
        trade_of(raw, symbol, t),
    ensures
        t.price@ == decimal_or_zero(raw.price@),
        t.quantity@ == decimal_or_zero(raw.size@),
        t.symbol == symbol,
        raw.side@ == "sell"@ || raw.side@ == "Sell"@ ==> t.is_buyer_maker,
        raw.side@ == "buy"@ || raw.side@ == "Buy"@ ==> !t.is_buyer_maker,
{
    reveal_strlit("sell");
    reveal_strlit("buy");
    reveal_strlit("Sell");
    reveal_strlit("Buy");
    assert("buy"@.len() != "sell"@.len());
    assert("Buy"@.len() != "sell"@.len());
    assert("Sell"@.len() == "sell"@.len());
    assert(forall|i: int| 0 <= i < 4 ==> crate::text::ascii_lower(#[trigger] "Sell"@[i]) == crate::text::ascii_lower("sell"@[i]));
}

/// The bids of a book read from the REST answer are the answer's bids and
/// its asks the answer's asks, level by level.
pub proof fn lemma_book_sides(raw: BitgetOrderBookRaw, symbol: Symbol, b: OrderBook)
    requires
        depth_book(raw, symbol, b),
    ensures
        levels_of_pairs(raw.bids@, b.bids@),
        levels_of_pairs(raw.asks@, b.asks@),
        b.symbol == symbol,
{
}

} // verus!
