//! Bitget: raw REST and WebSocket payloads and their normalisation.
use vstd::prelude::*;

use crate::decimal::{decimal_or_zero, lemma_view_injective, Decimal};
use crate::normalize::{
    built_symbol, candle_prices, candle_times, candle_times_of, close_time_fits, i64_or_zero,
    levels_from_pairs, levels_of_pairs, optional_i64_or_zero, parse_i64_or_zero,
    parse_optional_i64_or_zero, symbol_for,
};
use crate::text::{eq_ignore_ascii_case, eq_ignore_ascii_case_spec, is_ascii_text, uppercase};
use crate::time::{millis_or_now, stamped};
use crate::timeframe::Timeframe;
use crate::types::{market_type_text, Candle, Exchange, MarketType, OrderBook, Symbol, Trade};

verus! {

/// The envelope of every REST response.
#[derive(Debug)]
pub struct BitgetResponse<T> {
    pub code: String,
    pub msg: Option<String>,
    pub data: T,
}

/// A kline: `[ts, open, high, low, close, volume, quoteVolume]`.
pub type BitgetKlineRaw = Vec<String>;

/// A REST order-book snapshot.
#[derive(Debug)]
pub struct BitgetOrderBookRaw {
    pub asks: Vec<[String; 2]>,
    pub bids: Vec<[String; 2]>,
    pub ts: Option<String>,
}

/// A REST trade.
#[derive(Debug)]
pub struct BitgetTradeRaw {
    pub trade_id: String,
    pub price: String,
    pub size: String,
    pub side: String,
    pub ts: String,
}

/// A futures ticker, as listed when fetching symbols.
#[derive(Debug)]
pub struct BitgetTicker {
    pub symbol: String,
    pub base_coin: Option<String>,
    pub quote_coin: Option<String>,
    pub last_pr: Option<String>,
}

/// A spot symbol.
#[derive(Debug)]
pub struct BitgetSpotSymbol {
    pub symbol: String,
    pub base_coin: String,
    pub quote_coin: String,
    pub status: String,
}

/// The channel argument of a WebSocket message.
#[derive(Debug)]
pub struct BitgetWsArg {
    pub inst_type: Option<String>,
    pub channel: String,
    pub inst_id: Option<String>,
}

/// A WebSocket trade.
#[derive(Debug)]
pub struct BitgetWsTrade {
    pub ts: String,
    pub px: String,
    pub sz: String,
    pub side: String,
}

/// A WebSocket depth update.
#[derive(Debug)]
pub struct BitgetWsDepth {
    pub asks: Vec<[String; 2]>,
    pub bids: Vec<[String; 2]>,
    pub ts: Option<String>,
}

/// The candle that a kline of at least seven fields gives, whose close time is
/// one timeframe after its open time.
pub open spec fn kline_candle(raw: Seq<String>, symbol: Symbol, timeframe: Timeframe, c: Candle) -> bool {
    &&& candle_times_of(raw[0]@, timeframe) == Some((c.open_time as int, c.close_time as int))
    &&& c.symbol == symbol
    &&& c.timeframe == timeframe
    &&& candle_prices(c, raw[1]@, raw[2]@, raw[3]@, raw[4]@, raw[5]@, raw[6]@)
    &&& c.trades_count == 0
    &&& c.is_closed
}

/// What a kline gives: `None` where it has fewer than seven fields, its time
/// is not an integer, or chrono refuses the open or close time; the candle
/// of its fields otherwise.
pub open spec fn kline_outcome(raw: Seq<String>, symbol: Symbol, timeframe: Timeframe, r: Option<Candle>) -> bool {
    &&& r is Some <==> raw.len() >= 7 && candle_times_of(raw[0]@, timeframe) is Some
    &&& r matches Some(c) ==> kline_candle(raw, symbol, timeframe, c)
}

/// A kline gives exactly one outcome, so the stream and the REST readings of
/// the same kline give the same candle (or both none).
pub proof fn lemma_kline_outcome_unique(
    raw: Seq<String>,
    symbol: Symbol,
    timeframe: Timeframe,
    a: Option<Candle>,
    b: Option<Candle>,
)
    requires
        kline_outcome(raw, symbol, timeframe, a),
        kline_outcome(raw, symbol, timeframe, b),
    ensures
        a == b,
{
    if let (Some(x), Some(y)) = (a, b) {
        lemma_view_injective(x.open, y.open);
        lemma_view_injective(x.high, y.high);
        lemma_view_injective(x.low, y.low);
        lemma_view_injective(x.close, y.close);
        lemma_view_injective(x.volume, y.volume);
        lemma_view_injective(x.quote_volume, y.quote_volume);
        assert(x == y);
    }
}

/// Turns a kline into a candle; `None` where it has fewer than seven fields,
/// its time is not an integer, or chrono refuses the open or close time.
pub fn normalize_kline(raw: &BitgetKlineRaw, symbol: &Symbol, timeframe: Timeframe) -> (r: Option<Candle>)
    requires
        raw.len() >= 7 ==> close_time_fits(raw@[0]@, timeframe),
    ensures
        kline_outcome(raw@, *symbol, timeframe, r),
{
    if raw.len() < 7 {
        return None;
    }
    let (open_time, close_time) = match candle_times(raw[0].as_str(), timeframe) {
        Some(t) => t,
        None => {
            return None;
        },
    };
    Some(
        Candle {
            symbol: symbol.duplicate(),
            timeframe,
            open_time,
            close_time,
            open: Decimal::parse_or_zero(raw[1].as_str()),
            high: Decimal::parse_or_zero(raw[2].as_str()),
            low: Decimal::parse_or_zero(raw[3].as_str()),
            close: Decimal::parse_or_zero(raw[4].as_str()),
            volume: Decimal::parse_or_zero(raw[5].as_str()),
            quote_volume: Decimal::parse_or_zero(raw[6].as_str()),
            trades_count: 0,
            is_closed: true,
        },
    )
}

/// Turns a WebSocket kline, which has the REST layout, into a candle: the
/// same outcome as `normalize_kline` (see `lemma_kline_outcome_unique`).
pub fn normalize_ws_kline(raw: &BitgetKlineRaw, symbol: &Symbol, timeframe: Timeframe) -> (r: Option<Candle>)
    requires
        raw.len() >= 7 ==> close_time_fits(raw@[0]@, timeframe),
    ensures
        kline_outcome(raw@, *symbol, timeframe, r),
{
    normalize_kline(raw, symbol, timeframe)
}

/// Turns a REST trade into a trade; a sell counts as buyer-maker.
pub fn normalize_trade(raw: &BitgetTradeRaw, symbol: &Symbol) -> (t: Trade)
    ensures
        t.symbol == *symbol,
        t.id == raw.trade_id,
        t.price@ == decimal_or_zero(raw.price@),
        t.quantity@ == decimal_or_zero(raw.size@),
        stamped(i64_or_zero(raw.ts@), t.timestamp as int),
        t.is_buyer_maker == eq_ignore_ascii_case_spec(raw.side@, "sell"@),
{
    let ts = parse_i64_or_zero(raw.ts.as_str());
    Trade {
        symbol: symbol.duplicate(),
        id: raw.trade_id.clone(),
        price: Decimal::parse_or_zero(raw.price.as_str()),
        quantity: Decimal::parse_or_zero(raw.size.as_str()),
        timestamp: millis_or_now(ts),
        is_buyer_maker: eq_ignore_ascii_case(raw.side.as_str(), "sell"),
    }
}

/// Turns a WebSocket trade into a trade with an empty id.
pub fn normalize_ws_trade(raw: &BitgetWsTrade, symbol: &Symbol) -> (t: Trade)
    ensures
        t.symbol == *symbol,
        t.id@ == Seq::<char>::empty(),
        t.price@ == decimal_or_zero(raw.px@),
        t.quantity@ == decimal_or_zero(raw.sz@),
        stamped(i64_or_zero(raw.ts@), t.timestamp as int),
        t.is_buyer_maker == eq_ignore_ascii_case_spec(raw.side@, "sell"@),
{
    let ts = parse_i64_or_zero(raw.ts.as_str());
    Trade {
        symbol: symbol.duplicate(),
        id: String::new(),
        price: Decimal::parse_or_zero(raw.px.as_str()),
        quantity: Decimal::parse_or_zero(raw.sz.as_str()),
        timestamp: millis_or_now(ts),
        is_buyer_maker: eq_ignore_ascii_case(raw.side.as_str(), "sell"),
    }
}

/// Turns a REST order-book snapshot into an order book with sequence zero.
pub fn normalize_depth(raw: &BitgetOrderBookRaw, symbol: &Symbol) -> (b: OrderBook)
    ensures
        b.symbol == *symbol,
        stamped(optional_i64_or_zero(raw.ts), b.timestamp as int),
        levels_of_pairs(raw.bids@, b.bids@),
        levels_of_pairs(raw.asks@, b.asks@),
        b.sequence == 0,
{
    let ts = parse_optional_i64_or_zero(&raw.ts);
    OrderBook {
        symbol: symbol.duplicate(),
        timestamp: millis_or_now(ts),
        bids: levels_from_pairs(&raw.bids),
        asks: levels_from_pairs(&raw.asks),
        sequence: 0,
    }
}

/// Turns a WebSocket depth update into an order book with sequence zero.
pub fn normalize_ws_depth(raw: &BitgetWsDepth, symbol: &Symbol) -> (b: OrderBook)
    ensures
        b.symbol == *symbol,
        stamped(optional_i64_or_zero(raw.ts), b.timestamp as int),
        levels_of_pairs(raw.bids@, b.bids@),
        levels_of_pairs(raw.asks@, b.asks@),
        b.sequence == 0,
{
    let ts = parse_optional_i64_or_zero(&raw.ts);
    OrderBook {
        symbol: symbol.duplicate(),
        timestamp: millis_or_now(ts),
        bids: levels_from_pairs(&raw.bids),
        asks: levels_from_pairs(&raw.asks),
        sequence: 0,
    }
}

/// A Bitget symbol with the base and quote assets in upper case.
pub fn build_symbol(raw: &str, base: &str, quote: &str, market_type: MarketType) -> (s: Symbol)
    ensures
        built_symbol(s, raw@, base@, quote@, market_type, Exchange::Bitget),
{
    symbol_for(raw, base, quote, market_type, Exchange::Bitget)
}

/// The product type that Bitget's REST API expects for a market type.
pub open spec fn product_type_text(m: MarketType) -> Seq<char> {
    match m {
        MarketType::Spot => "SPOT"@,
        MarketType::LinearPerpetual => "USDT-FUTURES"@,
        MarketType::InversePerpetual => "COIN-FUTURES"@,
        MarketType::Futures => "USDT-FUTURES"@,
    }
}

/// The product type of a market type (`SPOT`, `USDT-FUTURES`, `COIN-FUTURES`).
pub fn bitget_product_type(market_type: MarketType) -> (r: &'static str)
    ensures
        r@ == product_type_text(market_type),
{
    match market_type {
        MarketType::Spot => "SPOT",
        MarketType::LinearPerpetual => "USDT-FUTURES",
        MarketType::InversePerpetual => "COIN-FUTURES",
        MarketType::Futures => "USDT-FUTURES",
    }
}

/// The instrument type of a market type in WebSocket arguments; the same
/// names as the product type.
pub fn bitget_inst_type(market_type: MarketType) -> (r: &'static str)
    ensures
        r@ == product_type_text(market_type),
{
    match market_type {
        MarketType::Spot => "SPOT",
        MarketType::LinearPerpetual => "USDT-FUTURES",
        MarketType::InversePerpetual => "COIN-FUTURES",
        MarketType::Futures => "USDT-FUTURES",
    }
}

/// Spot is asked for under its name in upper case; every other market type
/// is a futures product (its name ends in `-FUTURES`), the inverse perpetual
/// a coin-margined one that differs from the USDT-margined linear one, under
/// which dated futures also go.
pub proof fn lemma_product_type_of_market(m: MarketType)
    ensures
        product_type_text(MarketType::Spot) == uppercase(market_type_text(MarketType::Spot)),
        m != MarketType::Spot ==> product_type_text(m).len() > 8 && product_type_text(m).subrange(
            product_type_text(m).len() - 8,
            product_type_text(m).len() as int,
        ) == "-FUTURES"@,
        product_type_text(MarketType::InversePerpetual) != product_type_text(MarketType::LinearPerpetual),
        product_type_text(MarketType::Futures) == product_type_text(MarketType::LinearPerpetual),
{
    reveal_strlit("spot");
    reveal_strlit("SPOT");
    reveal_strlit("USDT-FUTURES");
    reveal_strlit("COIN-FUTURES");
    reveal_strlit("-FUTURES");
    assert(is_ascii_text("spot"@));
    assert(uppercase("spot"@) =~= "SPOT"@);
    assert("USDT-FUTURES"@.subrange(4, 12) =~= "-FUTURES"@);
    assert("COIN-FUTURES"@.subrange(4, 12) =~= "-FUTURES"@);
    assert("USDT-FUTURES"@ != "COIN-FUTURES"@) by {
        assert("USDT-FUTURES"@[0] != "COIN-FUTURES"@[0]);
    }
}

/// Field of a Bitget kline: the opening time in milliseconds.
pub const BITGET_KLINE_TIME: usize = 0usize;

/// Field of a Bitget kline: the opening price.
pub const BITGET_KLINE_OPEN: usize = 1usize;

/// Field of a Bitget kline: the highest price.
pub const BITGET_KLINE_HIGH: usize = 2usize;

/// Field of a Bitget kline: the lowest price.
pub const BITGET_KLINE_LOW: usize = 3usize;

/// Field of a Bitget kline: the closing price.
pub const BITGET_KLINE_CLOSE: usize = 4usize;

/// Field of a Bitget kline: the volume in the base asset.
pub const BITGET_KLINE_VOLUME: usize = 5usize;

/// Field of a Bitget kline: the volume in the quote asset.
pub const BITGET_KLINE_QUOTE_VOLUME: usize = 6usize;

/// A Bitget kline gives the candle of its fields as Bitget lays them out:
/// time, open, high, low, close, volume, quote volume.
pub proof fn lemma_bitget_kline_row_layout(raw: Seq<String>, symbol: Symbol, timeframe: Timeframe, c: Candle)
    requires
        kline_candle(raw, symbol, timeframe, c),
    ensures
        c.open@ == decimal_or_zero(raw[BITGET_KLINE_OPEN as int]@),
        c.high@ == decimal_or_zero(raw[BITGET_KLINE_HIGH as int]@),
        c.low@ == decimal_or_zero(raw[BITGET_KLINE_LOW as int]@),
        c.close@ == decimal_or_zero(raw[BITGET_KLINE_CLOSE as int]@),
        c.volume@ == decimal_or_zero(raw[BITGET_KLINE_VOLUME as int]@),
        c.quote_volume@ == decimal_or_zero(raw[BITGET_KLINE_QUOTE_VOLUME as int]@),
        c.symbol == symbol,
        c.timeframe == timeframe,
{
}

} // verus!
