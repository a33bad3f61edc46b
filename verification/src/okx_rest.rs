//! The OKX REST client: the requests it sends and how it reads the answers.
//! Its query parameters are written into the URL.
use vstd::prelude::*;

use crate::decimal::decimal_or_zero;
use crate::error::CteError;
use crate::normalize::{built_symbol, candle_times_of, close_time_fits, i64_or_zero};
use crate::okx::{
    build_symbol, candle_row, inst_type_text, levels_of_rows, normalize_candle, normalize_depth,
    normalize_trade, okx_inst_type, OkxCandleRaw, OkxDepthRaw, OkxInstrument, OkxResponse,
    OkxTradeRaw,
};
use crate::rest::{
    at_most, capped, capped_limit, decoded, lemma_filter_prefix, listing_decoded, listing_error,
    outcome_error, request_to, request_with_url, HttpOutcome, RestRequest,
};
use crate::text::{concat, decimal_text, i64_to_string, signed_decimal_text, str_eq, u64_to_string};
use crate::time::{chrono_millis_in_range, now_millis, stamped};
use crate::timeframe::{okx_bar, Timeframe};
use crate::types::{Candle, Exchange, MarketType, OrderBook, Symbol, Trade};

verus! {

/// The instruments that are live.
pub open spec fn instrument_live() -> spec_fn(OkxInstrument) -> bool {
    |i: OkxInstrument| i.state@ == "live"@
}

/// `syms` are the symbols of the live instruments, in order.
pub open spec fn instrument_symbols(list: Seq<OkxInstrument>, market_type: MarketType, syms: Seq<Symbol>) -> bool {
    let kept = list.filter(instrument_live());
    &&& syms.len() == kept.len()
    &&& forall|k: int|
        0 <= k < kept.len() ==> built_symbol(
            #[trigger] syms[k],
            kept[k].inst_id@,
            kept[k].base_ccy@,
            kept[k].quote_ccy@,
            market_type,
            Exchange::Okx,
        )
}

/// The candle rows that give a candle.
pub open spec fn row_kept(timeframe: Timeframe) -> spec_fn(OkxCandleRaw) -> bool {
    |k: OkxCandleRaw| k@.len() >= 9 && candle_times_of(k@[0]@, timeframe) is Some
}

/// The close time of every candle row of at least nine fields fits in an `i64`.
pub open spec fn rows_fit(raws: Seq<OkxCandleRaw>, timeframe: Timeframe) -> bool {
    forall|k: int|
        0 <= k < raws.len() && (#[trigger] raws[k])@.len() >= 9 ==> close_time_fits(
            raws[k]@[0]@,
            timeframe,
        )
}

/// `cs` are the candles of the rows that give one, in order.
pub open spec fn row_candles(raws: Seq<OkxCandleRaw>, symbol: Symbol, timeframe: Timeframe, cs: Seq<Candle>) -> bool {
    let kept = raws.filter(row_kept(timeframe));
    &&& cs.len() == kept.len()
    &&& forall|k: int| 0 <= k < kept.len() ==> candle_row(kept[k]@, symbol, timeframe, #[trigger] cs[k])
}

/// The trade a REST trade gives (see `normalize_trade`).
pub open spec fn trade_of(raw: OkxTradeRaw, symbol: Symbol, t: Trade) -> bool {
    &&& t.symbol == symbol
    &&& t.id == raw.trade_id
    &&& t.price@ == decimal_or_zero(raw.px@)
    &&& t.quantity@ == decimal_or_zero(raw.sz@)
    &&& stamped(i64_or_zero(raw.ts@), t.timestamp as int)
    &&& t.is_buyer_maker == (raw.side@ == "sell"@)
}

/// The order book a REST snapshot gives (see `normalize_depth`).
pub open spec fn depth_book(raw: OkxDepthRaw, symbol: Symbol, b: OrderBook) -> bool {
    &&& b.symbol == symbol
    &&& stamped(i64_or_zero(raw.ts@), b.timestamp as int)
    &&& levels_of_rows(raw.bids@, b.bids@)
    &&& levels_of_rows(raw.asks@, b.asks@)
    &&& b.sequence == 0
}

/// The OKX REST client: the base URL.
#[derive(Debug)]
pub struct OkxRestClient {
    pub base_url: String,
}

impl OkxRestClient {
    /// A client of the base URL.
    pub fn new(base_url: &str) -> (r: OkxRestClient)
        ensures
            r.base_url@ == base_url@,
    {
        OkxRestClient { base_url: String::from_str(base_url) }
    }

    /// The ping request: the server time.
    pub fn ping_request(&self) -> (r: RestRequest)
        ensures
            r.url@ == self.base_url@ + "/api/v5/public/time"@,
            r.query@.len() == 0,
    {
        request_to(self.base_url.as_str(), "/api/v5/public/time")
    }

    /// The request listing the instruments of a market's instrument type.
    pub fn symbols_request(&self, market_type: MarketType) -> (r: RestRequest)
        ensures
            r.url@ == self.base_url@ + "/api/v5/public/instruments?instType="@ + inst_type_text(
                market_type,
            ),
            r.endpoint@ == "/api/v5/public/instruments"@,
            r.query@.len() == 0,
    {
        let mut url = concat(self.base_url.as_str(), "/api/v5/public/instruments?instType=");
        url.append(okx_inst_type(market_type));
        request_with_url(url, "/api/v5/public/instruments")
    }

    /// The live instruments of the answer to a listing, as symbols of the
    /// market type.
    pub fn symbols_result(market_type: MarketType, outcome: HttpOutcome<OkxResponse<OkxInstrument>>) -> (r: Result<Vec<Symbol>, CteError>)
        ensures
            match outcome {
                HttpOutcome::Decoded(resp) => r matches Ok(syms) && instrument_symbols(
                    resp.data@,
                    market_type,
                    syms@,
                ),
                _ => listing_error(r, Exchange::Okx, "/api/v5/public/instruments"@, outcome),
            },
    {
        let resp = match listing_decoded(Exchange::Okx, "/api/v5/public/instruments", outcome) {
            Ok(v) => v,
            Err(e) => {
                return Err(e);
            },
        };
        let list = &resp.data;
        let ghost pred = instrument_live();
        let mut out: Vec<Symbol> = Vec::new();
        let mut i: usize = 0;
        while i < list.len()
            invariant
                i <= list.len(),
                pred == instrument_live(),
                out@.len() == list@.subrange(0, i as int).filter(pred).len(),
                forall|k: int|
                    0 <= k < out@.len() ==> built_symbol(
                        #[trigger] out@[k],
                        list@.subrange(0, i as int).filter(pred)[k].inst_id@,
                        list@.subrange(0, i as int).filter(pred)[k].base_ccy@,
                        list@.subrange(0, i as int).filter(pred)[k].quote_ccy@,
                        market_type,
                        Exchange::Okx,
                    ),
            decreases list.len() - i,
        {
            proof {
                lemma_filter_prefix(list@, i as int, pred);
            }
            let s = &list[i];
            if str_eq(s.state.as_str(), "live") {
                out.push(
                    build_symbol(
                        s.inst_id.as_str(),
                        s.base_ccy.as_str(),
                        s.quote_ccy.as_str(),
                        market_type,
                    ),
                );
            }
            i = i + 1;
        }
        assert(list@.subrange(0, list.len() as int) =~= list@);
        Ok(out)
    }

    /// The candle request: `instId`, `bar`, `limit` (100 by default, at most
    /// 300), then `after` where a start is given.
    pub fn candles_request(&self, symbol: &Symbol, timeframe: Timeframe, start: Option<i64>, limit: Option<u32>) -> (r: RestRequest)
        ensures
            r.url@ == self.base_url@ + "/api/v5/market/candles?instId="@ + symbol.raw_symbol@
                + "&bar="@ + okx_bar(timeframe) + "&limit="@ + decimal_text(
                capped(limit, 100, 300) as nat,
            ) + match start {
                Some(ms) => "&after="@ + signed_decimal_text(ms as int),
                None => ""@,
            },
            r.endpoint@ == "/api/v5/market/candles"@,
            r.query@.len() == 0,
    {
        let mut url = concat(self.base_url.as_str(), "/api/v5/market/candles?instId=");
        url.append(symbol.raw_symbol.as_str());
        url.append("&bar=");
        url.append(timeframe.to_okx_str());
        url.append("&limit=");
        url.append(u64_to_string(capped_limit(limit, 100, 300) as u64).as_str());
        if let Some(ms) = start {
            url.append("&after=");
            url.append(i64_to_string(ms).as_str());
        }
        proof {
            reveal_strlit("");
        }
        assert(url@ =~= self.base_url@ + "/api/v5/market/candles?instId="@ + symbol.raw_symbol@
            + "&bar="@ + okx_bar(timeframe) + "&limit="@ + decimal_text(
            capped(limit, 100, 300) as nat,
        ) + match start {
            Some(ms) => "&after="@ + signed_decimal_text(ms as int),
            None => ""@,
        });
        request_with_url(url, "/api/v5/market/candles")
    }

    /// The candles of the answer to a candle request: one for each row that
    /// gives one, in order.
    pub fn candles_result(symbol: &Symbol, timeframe: Timeframe, outcome: HttpOutcome<OkxResponse<OkxCandleRaw>>) -> (r: Result<Vec<Candle>, CteError>)
        requires
            outcome matches HttpOutcome::Decoded(resp) ==> rows_fit(resp.data@, timeframe),
        ensures
            match outcome {
                HttpOutcome::Decoded(resp) => r matches Ok(cs) && row_candles(
                    resp.data@,
                    *symbol,
                    timeframe,
                    cs@,
                ),
                _ => outcome_error(r, Exchange::Okx, "/api/v5/market/candles"@, outcome),
            },
    {
        let resp = match decoded(Exchange::Okx, "/api/v5/market/candles", outcome) {
            Ok(v) => v,
            Err(e) => {
                return Err(e);
            },
        };
        let raws = &resp.data;
        let ghost pred = row_kept(timeframe);
        let mut out: Vec<Candle> = Vec::new();
        let mut i: usize = 0;
        while i < raws.len()
            invariant
                i <= raws.len(),
                pred == row_kept(timeframe),
                rows_fit(raws@, timeframe),
                out@.len() == raws@.subrange(0, i as int).filter(pred).len(),
                forall|k: int|
                    0 <= k < out@.len() ==> candle_row(
                        raws@.subrange(0, i as int).filter(pred)[k]@,
                        *symbol,
                        timeframe,
                        #[trigger] out@[k],
                    ),
            decreases raws.len() - i,
        {
            proof {
                lemma_filter_prefix(raws@, i as int, pred);
            }
            match normalize_candle(&raws[i], symbol, timeframe) {
                Some(c) => out.push(c),
                None => {},
            }
            i = i + 1;
        }
        assert(raws@.subrange(0, raws.len() as int) =~= raws@);
        Ok(out)
    }

    /// The order-book request: `instId`, then `sz` (at most 400).
    pub fn orderbook_request(&self, symbol: &Symbol, depth: u32) -> (r: RestRequest)
        ensures
            r.url@ == self.base_url@ + "/api/v5/market/books?instId="@ + symbol.raw_symbol@
                + "&sz="@ + decimal_text((if depth < 400 { depth } else { 400 }) as nat),
            r.endpoint@ == "/api/v5/market/books"@,
            r.query@.len() == 0,
    {
        let mut url = concat(self.base_url.as_str(), "/api/v5/market/books?instId=");
        url.append(symbol.raw_symbol.as_str());
        url.append("&sz=");
        url.append(u64_to_string(at_most(depth, 400) as u64).as_str());
        assert(url@ =~= self.base_url@ + "/api/v5/market/books?instId="@ + symbol.raw_symbol@
            + "&sz="@ + decimal_text((if depth < 400 { depth } else { 400 }) as nat));
        request_with_url(url, "/api/v5/market/books")
    }

    /// The order book of the answer to an order-book request: the first
    /// snapshot, or an empty book stamped with the current time where there is
    /// none.
    pub fn orderbook_result(symbol: &Symbol, outcome: HttpOutcome<OkxResponse<OkxDepthRaw>>) -> (r: Result<OrderBook, CteError>)
        ensures
            match outcome {
                HttpOutcome::Decoded(resp) => r matches Ok(b) && if resp.data@.len() > 0 {
                    depth_book(resp.data@[0], *symbol, b)
                } else {
                    &&& b.symbol == *symbol
                    &&& chrono_millis_in_range(b.timestamp as int)
                    &&& b.bids@.len() == 0
                    &&& b.asks@.len() == 0
                    &&& b.sequence == 0
                },
                _ => outcome_error(r, Exchange::Okx, "/api/v5/market/books"@, outcome),
            },
    {
        let resp = match decoded(Exchange::Okx, "/api/v5/market/books", outcome) {
            Ok(v) => v,
            Err(e) => {
                return Err(e);
            },
        };
        if resp.data.len() > 0 {
            Ok(normalize_depth(&resp.data[0], symbol))
        } else {
            Ok(
                OrderBook {
                    symbol: symbol.duplicate(),
                    timestamp: now_millis(),
                    bids: Vec::new(),
                    asks: Vec::new(),
                    sequence: 0,
                },
            )
        }
    }

    /// The recent-trades request: `instId`, then `limit` (at most 500).
    pub fn recent_trades_request(&self, symbol: &Symbol, limit: u32) -> (r: RestRequest)
        ensures
            r.url@ == self.base_url@ + "/api/v5/market/trades?instId="@ + symbol.raw_symbol@
                + "&limit="@ + decimal_text((if limit < 500 { limit } else { 500 }) as nat),
            r.endpoint@ == "/api/v5/market/trades"@,
            r.query@.len() == 0,
    {
        let mut url = concat(self.base_url.as_str(), "/api/v5/market/trades?instId=");
        url.append(symbol.raw_symbol.as_str());
        url.append("&limit=");
        url.append(u64_to_string(at_most(limit, 500) as u64).as_str());
        assert(url@ =~= self.base_url@ + "/api/v5/market/trades?instId="@ + symbol.raw_symbol@
            + "&limit="@ + decimal_text((if limit < 500 { limit } else { 500 }) as nat));
        request_with_url(url, "/api/v5/market/trades")
    }

    /// The trades of the answer to a recent-trades request, one per entry and
    /// in order.
    pub fn recent_trades_result(symbol: &Symbol, outcome: HttpOutcome<OkxResponse<OkxTradeRaw>>) -> (r: Result<Vec<Trade>, CteError>)
        ensures
            match outcome {
                HttpOutcome::Decoded(resp) => r matches Ok(ts) && ts@.len() == resp.data@.len()
                    && forall|k: int|
                    0 <= k < resp.data@.len() ==> trade_of(resp.data@[k], *symbol, #[trigger] ts@[k]),
                _ => outcome_error(r, Exchange::Okx, "/api/v5/market/trades"@, outcome),
            },
    {
        let resp = match decoded(Exchange::Okx, "/api/v5/market/trades", outcome) {
            Ok(v) => v,
            Err(e) => {
                return Err(e);
            },
        };
        let raws = &resp.data;
        let mut out: Vec<Trade> = Vec::new();
        let mut i: usize = 0;
        while i < raws.len()
            invariant
                i <= raws.len(),
                out@.len() == i,
                forall|k: int| 0 <= k < i ==> trade_of(raws@[k], *symbol, #[trigger] out@[k]),
            decreases raws.len() - i,
        {
            out.push(normalize_trade(&raws[i], symbol));
            i = i + 1;
        }
        Ok(out)
    }
}

/// A trade read from the REST answer takes its price from the price field
/// and its quantity from the size field, and a `sell` is buyer-maker and a `buy` is not.
pub proof fn lemma_trade_fields(raw: OkxTradeRaw, symbol: Symbol, t: Trade)
    requires
        trade_of(raw, symbol, t),
    ensures
        t.price@ == decimal_or_zero(raw.px@),
        t.quantity@ == decimal_or_zero(raw.sz@),
        t.symbol == symbol,
        raw.side@ == "sell"@ ==> t.is_buyer_maker,
        raw.side@ == "buy"@ ==> !t.is_buyer_maker,
{
    reveal_strlit("sell");
    reveal_strlit("buy");
    assert("buy"@ != "sell"@) by {
        assert("buy"@.len() != "sell"@.len());
    }
}

/// The bids of a book read from the REST answer are the answer's bids and
/// its asks the answer's asks, level by level.
pub proof fn lemma_book_sides(raw: OkxDepthRaw, symbol: Symbol, b: OrderBook)
    requires
        depth_book(raw, symbol, b),
    ensures
        levels_of_rows(raw.bids@, b.bids@),
        levels_of_rows(raw.asks@, b.asks@),
        b.symbol == symbol,
{
}

} // verus!
