//! OKX: raw REST payloads and their normalisation.
use vstd::prelude::*;

use crate::decimal::{decimal_or_zero, Decimal};
use crate::normalize::{
    built_symbol, candle_prices, candle_times, candle_times_of, close_time_fits, i64_or_zero,
    level_of, parse_i64_or_zero, symbol_for,
};
use crate::text::{is_ascii_text, str_eq, uppercase};
use crate::time::{millis_or_now, stamped};
use crate::timeframe::Timeframe;
use crate::types::{
    market_type_text, Candle, Exchange, MarketType, OrderBook, OrderBookLevel, Symbol, Trade,
};

verus! {

/// The envelope of every REST response.
#[derive(Debug)]
pub struct OkxResponse<T> {
    pub code: String,
    pub msg: String,
    pub data: Vec<T>,
}

/// One instrument.
#[derive(Debug)]
pub struct OkxInstrument {
    pub inst_id: String,
    pub inst_type: String,
    pub base_ccy: String,
    pub quote_ccy: String,
    pub state: String,
    pub ct_type: Option<String>,
}

/// A candle: `[ts, o, h, l, c, vol, volCcy, volCcyQuote, confirm]`.
pub type OkxCandleRaw = Vec<String>;

/// A REST trade.
#[derive(Debug)]
pub struct OkxTradeRaw {
    pub inst_id: String,
    pub trade_id: String,
    pub px: String,
    pub sz: String,
    pub side: String,
    pub ts: String,
}

/// A REST order-book snapshot; each level is `[price, size, ...]`.
#[derive(Debug)]
pub struct OkxDepthRaw {
    pub asks: Vec<Vec<String>>,
    pub bids: Vec<Vec<String>>,
    pub ts: String,
}

/// The channel argument of a WebSocket message.
#[derive(Debug)]
pub struct OkxWsArg {
    pub channel: String,
    pub inst_id: String,
}

/// The candle that a candle row of at least nine fields gives: the quote
/// volume is the eighth field and the candle is closed when the ninth is `1`.
pub open spec fn candle_row(raw: Seq<String>, symbol: Symbol, timeframe: Timeframe, c: Candle) -> bool {
    &&& candle_times_of(raw[0]@, timeframe) == Some((c.open_time as int, c.close_time as int))
    &&& c.symbol == symbol
    &&& c.timeframe == timeframe
    &&& candle_prices(c, raw[1]@, raw[2]@, raw[3]@, raw[4]@, raw[5]@, raw[7]@)
    &&& c.trades_count == 0
    &&& c.is_closed == (raw[8]@ == "1"@)
}

/// Turns a candle row into a candle; `None` where it has fewer than nine
/// fields, its time is not an integer, or chrono refuses the open or close time.
pub fn normalize_candle(raw: &OkxCandleRaw, symbol: &Symbol, timeframe: Timeframe) -> (r: Option<Candle>)
    requires
        raw.len() >= 9 ==> close_time_fits(raw@[0]@, timeframe),
    ensures
        r is Some <==> raw.len() >= 9 && candle_times_of(raw@[0]@, timeframe) is Some,
        r matches Some(c) ==> candle_row(raw@, *symbol, timeframe, c),
{
    if raw.len() < 9 {
        return None;
    }
    let (open_time, close_time) = match candle_times(raw[0].as_str(), timeframe) {
        Some(t) => t,
        None => {
            return None;
        },
    };
    Some(
        Candle {
            symbol: symbol.duplicate(),
            timeframe,
            open_time,
            close_time,
            open: Decimal::parse_or_zero(raw[1].as_str()),
            high: Decimal::parse_or_zero(raw[2].as_str()),
            low: Decimal::parse_or_zero(raw[3].as_str()),
            close: Decimal::parse_or_zero(raw[4].as_str()),
            volume: Decimal::parse_or_zero(raw[5].as_str()),
            quote_volume: Decimal::parse_or_zero(raw[7].as_str()),
            trades_count: 0,
            is_closed: str_eq(raw[8].as_str(), "1"),
        },
    )
}

/// Turns a REST trade into a trade; a sell counts as buyer-maker.
pub fn normalize_trade(raw: &OkxTradeRaw, symbol: &Symbol) -> (t: Trade)
    ensures
        t.symbol == *symbol,
        t.id == raw.trade_id,
        t.price@ == decimal_or_zero(raw.px@),
        t.quantity@ == decimal_or_zero(raw.sz@),
        stamped(i64_or_zero(raw.ts@), t.timestamp as int),
        t.is_buyer_maker == (raw.side@ == "sell"@),
{
    let ts = parse_i64_or_zero(raw.ts.as_str());
    Trade {
        symbol: symbol.duplicate(),
        id: raw.trade_id.clone(),
        price: Decimal::parse_or_zero(raw.px.as_str()),
        quantity: Decimal::parse_or_zero(raw.sz.as_str()),
        timestamp: millis_or_now(ts),
        is_buyer_maker: str_eq(raw.side.as_str(), "sell"),
    }
}

/// The rows of `rows` that have at least two fields, in order.
pub open spec fn complete_rows(rows: Seq<Vec<String>>) -> Seq<Vec<String>> {
    rows.filter(|row: Vec<String>| row@.len() >= 2)
}

/// `levels` are the rows of `rows` with at least two fields, one for one and
/// in order.
pub open spec fn levels_of_rows(rows: Seq<Vec<String>>, levels: Seq<OrderBookLevel>) -> bool {
    let kept = complete_rows(rows);
    &&& levels.len() == kept.len()
    &&& forall|i: int|
        0 <= i < kept.len() ==> level_of(#[trigger] kept[i]@[0]@, kept[i]@[1]@, levels[i])
}

/// Turns order-book rows into levels, dropping rows with fewer than two fields.
pub fn levels_from_rows(rows: &Vec<Vec<String>>) -> (r: Vec<OrderBookLevel>)
    ensures
        levels_of_rows(rows@, r@),
{
    let mut out: Vec<OrderBookLevel> = Vec::new();
    let mut i: usize = 0;
    while i < rows.len()
        invariant
            i <= rows.len(),
            levels_of_rows(rows@.subrange(0, i as int), out@),
        decreases rows.len() - i,
    {
        let row = &rows[i];
        proof {
            let pre = rows@.subrange(0, i as int);
            let next = rows@.subrange(0, i + 1);
            assert(next.drop_last() =~= pre);
            assert(next.last() == rows@[i as int]);
            reveal_with_fuel(Seq::filter, 1);
        }
        if row.len() >= 2 {
            let level = OrderBookLevel {
                price: Decimal::parse_or_zero(row[0].as_str()),
                quantity: Decimal::parse_or_zero(row[1].as_str()),
            };
            out.push(level);
        }
        i = i + 1;
    }
    assert(rows@.subrange(0, rows.len() as int) =~= rows@);
    out
}

/// Turns a REST order-book snapshot into an order book with sequence zero.
pub fn normalize_depth(raw: &OkxDepthRaw, symbol: &Symbol) -> (b: OrderBook)
    ensures
        b.symbol == *symbol,
        stamped(i64_or_zero(raw.ts@), b.timestamp as int),
        levels_of_rows(raw.bids@, b.bids@),
        levels_of_rows(raw.asks@, b.asks@),
        b.sequence == 0,
{
    let ts = parse_i64_or_zero(raw.ts.as_str());
    OrderBook {
        symbol: symbol.duplicate(),
        timestamp: millis_or_now(ts),
        bids: levels_from_rows(&raw.bids),
        asks: levels_from_rows(&raw.asks),
        sequence: 0,
    }
}

/// An OKX symbol with the base and quote currencies in upper case.
pub fn build_symbol(inst_id: &str, base: &str, quote: &str, market_type: MarketType) -> (s: Symbol)
    ensures
        built_symbol(s, inst_id@, base@, quote@, market_type, Exchange::Okx),
{
    symbol_for(inst_id, base, quote, market_type, Exchange::Okx)
}

/// The instrument type that OKX expects for a market type.
pub open spec fn inst_type_text(m: MarketType) -> Seq<char> {
    match m {
        MarketType::Spot => "SPOT"@,
        MarketType::LinearPerpetual => "SWAP"@,
        MarketType::InversePerpetual => "SWAP"@,
        MarketType::Futures => "FUTURES"@,
    }
}

/// The instrument type of a market type (`SPOT`, `SWAP`, `FUTURES`).
pub fn okx_inst_type(market_type: MarketType) -> (r: &'static str)
    ensures
        r@ == inst_type_text(market_type),
{
    match market_type {
        MarketType::Spot => "SPOT",
        MarketType::LinearPerpetual => "SWAP",
        MarketType::InversePerpetual => "SWAP",
        MarketType::Futures => "FUTURES",
    }
}

/// Spot and dated futures are asked for under their names in upper case
/// (`SPOT`, `FUTURES`); both kinds of perpetual are swaps, a kind of its own.
pub proof fn lemma_inst_type_of_market(m: MarketType)
    ensures
        m == MarketType::Spot || m == MarketType::Futures ==> inst_type_text(m) == uppercase(
            market_type_text(m),
        ),
        m == MarketType::LinearPerpetual || m == MarketType::InversePerpetual ==> inst_type_text(m)
            == "SWAP"@,
        inst_type_text(MarketType::LinearPerpetual) != inst_type_text(MarketType::Spot),
        inst_type_text(MarketType::LinearPerpetual) != inst_type_text(MarketType::Futures),
{
    reveal_strlit("spot");
    reveal_strlit("futures");
    reveal_strlit("SPOT");
    reveal_strlit("FUTURES");
    reveal_strlit("SWAP");
    let s = "spot"@;
    let f = "futures"@;
    assert(is_ascii_text(s));
    assert(is_ascii_text(f));
    assert(uppercase(s) =~= "SPOT"@);
    assert(uppercase(f) =~= "FUTURES"@);
    assert("SWAP"@ != "SPOT"@) by {
        assert("SWAP"@[1] != "SPOT"@[1]);
    }
    assert("SWAP"@ != "FUTURES"@) by {
        assert("SWAP"@.len() != "FUTURES"@.len());
    }
}

/// Field of an OKX candle row: the opening time in milliseconds.
pub const OKX_ROW_TIME: usize = 0usize;

/// Field of an OKX candle row: the opening price.
pub const OKX_ROW_OPEN: usize = 1usize;

/// Field of an OKX candle row: the highest price.
pub const OKX_ROW_HIGH: usize = 2usize;

/// Field of an OKX candle row: the lowest price.
pub const OKX_ROW_LOW: usize = 3usize;

/// Field of an OKX candle row: the closing price.
pub const OKX_ROW_CLOSE: usize = 4usize;

/// Field of an OKX candle row: the volume in contracts or base asset.
pub const OKX_ROW_VOLUME: usize = 5usize;

/// Field of an OKX candle row: the volume in the quote asset.
pub const OKX_ROW_QUOTE_VOLUME: usize = 7usize;

/// Field of an OKX candle row: `1` once the candle is complete.
pub const OKX_ROW_CONFIRM: usize = 8usize;

/// An OKX candle row gives the candle of its fields as OKX lays them out:
/// time, open, high, low, close, volume, currency volume, quote volume, confirm.
pub proof fn lemma_okx_row_row_layout(raw: Seq<String>, symbol: Symbol, timeframe: Timeframe, c: Candle)
    requires
        candle_row(raw, symbol, timeframe, c),
    ensures
        c.open@ == decimal_or_zero(raw[OKX_ROW_OPEN as int]@),
        c.high@ == decimal_or_zero(raw[OKX_ROW_HIGH as int]@),
        c.low@ == decimal_or_zero(raw[OKX_ROW_LOW as int]@),
        c.close@ == decimal_or_zero(raw[OKX_ROW_CLOSE as int]@),
        c.volume@ == decimal_or_zero(raw[OKX_ROW_VOLUME as int]@),
        c.quote_volume@ == decimal_or_zero(raw[OKX_ROW_QUOTE_VOLUME as int]@),
        c.symbol == symbol,
        c.timeframe == timeframe,
        c.is_closed == (raw[OKX_ROW_CONFIRM as int]@ == "1"@),
{
}

} // verus!
