//! The engine's market and trading data: exchanges, symbols, candles, trades,
//! order books, simulated orders and positions, and copy-trading leaders.
use vstd::prelude::*;

use crate::decimal::{decimal_add, decimal_display, decimal_div, decimal_mul, decimal_sub, Decimal};
use crate::time::{chrono_millis_in_range, format_utc_datetime, utc_datetime_text};
use crate::error::CteError;
use crate::text::{concat, is_ascii_text, lowercase, str_eq, to_lowercase};
use crate::timeframe::{timeframe_text, Timeframe};

verus! {

// ---------------------------------------------------------------------------
// Exchange
// ---------------------------------------------------------------------------

/// A supported exchange.
#[derive(Debug, Clone, Copy, PartialEq, Eq, Hash, Structural)]
pub enum Exchange {
    Binance,
    Okx,
    Bybit,
    GateIo,
    Bitget,
}

/// The display name of an exchange.
pub open spec fn exchange_text(e: Exchange) -> Seq<char> {
    match e {
        Exchange::Binance => "binance"@,
        Exchange::Okx => "okx"@,
        Exchange::Bybit => "bybit"@,
        Exchange::GateIo => "gateio"@,
        Exchange::Bitget => "bitget"@,
    }
}

/// The exchange that a lower-cased name stands for.
pub open spec fn exchange_from_lowercase(t: Seq<char>) -> Option<Exchange> {
    if t == "binance"@ {
        Some(Exchange::Binance)
    } else if t == "okx"@ {
        Some(Exchange::Okx)
    } else if t == "bybit"@ {
        Some(Exchange::Bybit)
    } else if t == "gateio"@ || t == "gate.io"@ || t == "gate"@ {
        Some(Exchange::GateIo)
    } else if t == "bitget"@ {
        Some(Exchange::Bitget)
    } else {
        None
    }
}

impl Exchange {
    /// The display name (`binance`, `okx`, `bybit`, `gateio`, `bitget`).
    pub fn as_str(&self) -> (r: &'static str)
        ensures
            r@ == exchange_text(*self),
    {
        match self {
            Exchange::Binance => "binance",
            Exchange::Okx => "okx",
            Exchange::Bybit => "bybit",
            Exchange::GateIo => "gateio",
            Exchange::Bitget => "bitget",
        }
    }

    /// Reads an exchange name, ignoring case.
    pub fn parse(s: &str) -> (r: Result<Exchange, CteError>)
        ensures
            match exchange_from_lowercase(lowercase(s@)) {
                Some(e) => r == Ok::<Exchange, CteError>(e),
                None => r matches Err(CteError::Config(m)) && m@ == "Unknown exchange: "@ + s@,
            },
    {
        let lower = to_lowercase(s);
        let t = lower.as_str();
        if str_eq(t, "binance") {
            Ok(Exchange::Binance)
        } else if str_eq(t, "okx") {
            Ok(Exchange::Okx)
        } else if str_eq(t, "bybit") {
            Ok(Exchange::Bybit)
        } else if str_eq(t, "gateio") || str_eq(t, "gate.io") || str_eq(t, "gate") {
            Ok(Exchange::GateIo)
        } else if str_eq(t, "bitget") {
            Ok(Exchange::Bitget)
        } else {
            Err(CteError::Config(concat("Unknown exchange: ", s)))
        }
    }
}

// ---------------------------------------------------------------------------
// Market type
// ---------------------------------------------------------------------------

/// The kind of market a symbol trades on.
#[derive(Debug, Clone, Copy, PartialEq, Eq, Hash, Structural)]
pub enum MarketType {
    Spot,
    LinearPerpetual,
    InversePerpetual,
    Futures,
}

/// The display name of a market type.
pub open spec fn market_type_text(m: MarketType) -> Seq<char> {
    match m {
        MarketType::Spot => "spot"@,
        MarketType::LinearPerpetual => "linear"@,
        MarketType::InversePerpetual => "inverse"@,
        MarketType::Futures => "futures"@,
    }
}

/// The market type that a lower-cased name stands for.
pub open spec fn market_type_from_lowercase(t: Seq<char>) -> Option<MarketType> {
    if t == "spot"@ {
        Some(MarketType::Spot)
    } else if t == "linear"@ || t == "linear_perpetual"@ || t == "perp"@ || t == "swap"@ {
        Some(MarketType::LinearPerpetual)
    } else if t == "inverse"@ || t == "inverse_perpetual"@ {
        Some(MarketType::InversePerpetual)
    } else if t == "futures"@ {
        Some(MarketType::Futures)
    } else {
        None
    }
}

impl MarketType {
    /// The display name (`spot`, `linear`, `inverse`, `futures`).
    pub fn as_str(&self) -> (r: &'static str)
        ensures
            r@ == market_type_text(*self),
    {
        match self {
            MarketType::Spot => "spot",
            MarketType::LinearPerpetual => "linear",
            MarketType::InversePerpetual => "inverse",
            MarketType::Futures => "futures",
        }
    }

    /// Reads a market type name, ignoring case.
    pub fn parse(s: &str) -> (r: Result<MarketType, CteError>)
        ensures
            match market_type_from_lowercase(lowercase(s@)) {
                Some(m) => r == Ok::<MarketType, CteError>(m),
                None => r matches Err(CteError::Config(msg)) && msg@ == "Unknown market type: "@
                    + s@,
            },
    {
        let lower = to_lowercase(s);
        let t = lower.as_str();
        if str_eq(t, "spot") {
            Ok(MarketType::Spot)
        } else if str_eq(t, "linear") || str_eq(t, "linear_perpetual") || str_eq(t, "perp")
            || str_eq(t, "swap") {
            Ok(MarketType::LinearPerpetual)
        } else if str_eq(t, "inverse") || str_eq(t, "inverse_perpetual") {
            Ok(MarketType::InversePerpetual)
        } else if str_eq(t, "futures") {
            Ok(MarketType::Futures)
        } else {
            Err(CteError::Config(concat("Unknown market type: ", s)))
        }
    }
}

proof fn lemma_exchange_name_reads_back_binance()
    ensures
        exchange_from_lowercase("binance"@) == Some(Exchange::Binance),
{
    reveal_strlit("binance");
}

proof fn lemma_exchange_name_reads_back_okx()
    ensures
        exchange_from_lowercase("okx"@) == Some(Exchange::Okx),
{
    reveal_strlit("okx");
    reveal_strlit("binance");
    assert("okx"@ != "binance"@) by {
        assert("okx"@.len() != "binance"@.len());
    }
}

proof fn lemma_exchange_name_reads_back_bybit()
    ensures
        exchange_from_lowercase("bybit"@) == Some(Exchange::Bybit),
{
    reveal_strlit("bybit");
    reveal_strlit("binance");
    reveal_strlit("okx");
    assert("bybit"@ != "binance"@) by {
        assert("bybit"@.len() != "binance"@.len());
    }
    assert("bybit"@ != "okx"@) by {
        assert("bybit"@.len() != "okx"@.len());
    }
}

proof fn lemma_exchange_name_reads_back_gateio()
    ensures
        exchange_from_lowercase("gateio"@) == Some(Exchange::GateIo),
{
    reveal_strlit("gateio");
    reveal_strlit("binance");
    reveal_strlit("okx");
    reveal_strlit("bybit");
    assert("gateio"@ != "binance"@) by {
        assert("gateio"@.len() != "binance"@.len());
    }
    assert("gateio"@ != "okx"@) by {
        assert("gateio"@.len() != "okx"@.len());
    }
    assert("gateio"@ != "bybit"@) by {
        assert("gateio"@.len() != "bybit"@.len());
    }
}

proof fn lemma_exchange_name_reads_back_bitget()
    ensures
        exchange_from_lowercase("bitget"@) == Some(Exchange::Bitget),
{
    reveal_strlit("bitget");
    reveal_strlit("binance");
    reveal_strlit("okx");
    reveal_strlit("bybit");
    reveal_strlit("gateio");
    reveal_strlit("gate.io");
    reveal_strlit("gate");
    assert("bitget"@ != "binance"@) by {
        assert("bitget"@.len() != "binance"@.len());
    }
    assert("bitget"@ != "okx"@) by {
        assert("bitget"@.len() != "okx"@.len());
    }
    assert("bitget"@ != "bybit"@) by {
        assert("bitget"@.len() != "bybit"@.len());
    }
    assert("bitget"@ != "gateio"@) by {
        assert("bitget"@[0] != "gateio"@[0]);
    }
    assert("bitget"@ != "gate.io"@) by {
        assert("bitget"@.len() != "gate.io"@.len());
    }
    assert("bitget"@ != "gate"@) by {
        assert("bitget"@.len() != "gate"@.len());
    }
}

/// The display name of an exchange reads back as the same exchange.
pub proof fn lemma_exchange_name_round_trip(e: Exchange)
    ensures
        exchange_from_lowercase(lowercase(exchange_text(e))) == Some(e),
{
    reveal_strlit("binance");
    reveal_strlit("okx");
    reveal_strlit("bybit");
    reveal_strlit("gateio");
    reveal_strlit("bitget");
    let t = exchange_text(e);
    assert(is_ascii_text(t));
    assert(lowercase(t) =~= t);
    match e {
        Exchange::Binance => lemma_exchange_name_reads_back_binance(),
        Exchange::Okx => lemma_exchange_name_reads_back_okx(),
        Exchange::Bybit => lemma_exchange_name_reads_back_bybit(),
        Exchange::GateIo => lemma_exchange_name_reads_back_gateio(),
        Exchange::Bitget => lemma_exchange_name_reads_back_bitget(),
    }
}

proof fn lemma_market_name_reads_back_spot()
    ensures
        market_type_from_lowercase("spot"@) == Some(MarketType::Spot),
{
    reveal_strlit("spot");
}

proof fn lemma_market_name_reads_back_linearperpetual()
    ensures
        market_type_from_lowercase("linear"@) == Some(MarketType::LinearPerpetual),
{
    reveal_strlit("linear");
    reveal_strlit("spot");
    assert("linear"@ != "spot"@) by {
        assert("linear"@.len() != "spot"@.len());
    }
}

proof fn lemma_market_name_reads_back_inverseperpetual()
    ensures
        market_type_from_lowercase("inverse"@) == Some(MarketType::InversePerpetual),
{
    reveal_strlit("inverse");
    reveal_strlit("spot");
    reveal_strlit("linear");
    reveal_strlit("linear_perpetual");
    reveal_strlit("perp");
    reveal_strlit("swap");
    assert("inverse"@ != "spot"@) by {
        assert("inverse"@.len() != "spot"@.len());
    }
    assert("inverse"@ != "linear"@) by {
        assert("inverse"@.len() != "linear"@.len());
    }
    assert("inverse"@ != "linear_perpetual"@) by {
        assert("inverse"@.len() != "linear_perpetual"@.len());
    }
    assert("inverse"@ != "perp"@) by {
        assert("inverse"@.len() != "perp"@.len());
    }
    assert("inverse"@ != "swap"@) by {
        assert("inverse"@.len() != "swap"@.len());
    }
}

proof fn lemma_market_name_reads_back_futures()
    ensures
        market_type_from_lowercase("futures"@) == Some(MarketType::Futures),
{
    reveal_strlit("futures");
    reveal_strlit("spot");
    reveal_strlit("linear");
    reveal_strlit("linear_perpetual");
    reveal_strlit("perp");
    reveal_strlit("swap");
    reveal_strlit("inverse");
    reveal_strlit("inverse_perpetual");
    assert("futures"@ != "spot"@) by {
        assert("futures"@.len() != "spot"@.len());
    }
    assert("futures"@ != "linear"@) by {
        assert("futures"@.len() != "linear"@.len());
    }
    assert("futures"@ != "linear_perpetual"@) by {
        assert("futures"@.len() != "linear_perpetual"@.len());
    }
    assert("futures"@ != "perp"@) by {
        assert("futures"@.len() != "perp"@.len());
    }
    assert("futures"@ != "swap"@) by {
        assert("futures"@.len() != "swap"@.len());
    }
    assert("futures"@ != "inverse"@) by {
        assert("futures"@[0] != "inverse"@[0]);
    }
    assert("futures"@ != "inverse_perpetual"@) by {
        assert("futures"@.len() != "inverse_perpetual"@.len());
    }
}

/// The display name of a market type reads back as the same market type.
pub proof fn lemma_market_type_name_round_trip(m: MarketType)
    ensures
        market_type_from_lowercase(lowercase(market_type_text(m))) == Some(m),
{
    reveal_strlit("spot");
    reveal_strlit("linear");
    reveal_strlit("inverse");
    reveal_strlit("futures");
    let t = market_type_text(m);
    assert(is_ascii_text(t));
    assert(lowercase(t) =~= t);
    match m {
        MarketType::Spot => lemma_market_name_reads_back_spot(),
        MarketType::LinearPerpetual => lemma_market_name_reads_back_linearperpetual(),
        MarketType::InversePerpetual => lemma_market_name_reads_back_inverseperpetual(),
        MarketType::Futures => lemma_market_name_reads_back_futures(),
    }
}

// ---------------------------------------------------------------------------
// Symbol
// ---------------------------------------------------------------------------

/// A tradable instrument on one exchange.
#[derive(Debug)]
pub struct Symbol {
    pub base: String,
    pub quote: String,
    pub market_type: MarketType,
    pub exchange: Exchange,
    pub raw_symbol: String,
}

/// The display text of a symbol: `exchange:BASE/QUOTE (market)`.
pub open spec fn symbol_text(s: Symbol) -> Seq<char> {
    exchange_text(s.exchange) + ":"@ + s.base@ + "/"@ + s.quote@ + " ("@ + market_type_text(
        s.market_type,
    ) + ")"@
}

impl Symbol {
    /// A copy of the symbol.
    pub fn duplicate(&self) -> (r: Symbol)
        ensures
            r == *self,
    {
        Symbol {
            base: self.base.clone(),
            quote: self.quote.clone(),
            market_type: self.market_type,
            exchange: self.exchange,
            raw_symbol: self.raw_symbol.clone(),
        }
    }

    /// The display text: `exchange:BASE/QUOTE (market)`.
    pub fn to_display_string(&self) -> (r: String)
        ensures
            r@ == symbol_text(*self),
    {
        let mut out = String::from_str(self.exchange.as_str());
        out.append(":");
        out.append(self.base.as_str());
        out.append("/");
        out.append(self.quote.as_str());
        out.append(" (");
        out.append(self.market_type.as_str());
        out.append(")");
        out
    }
}

// ---------------------------------------------------------------------------
// Market data
// ---------------------------------------------------------------------------

/// One candle.  Times are milliseconds since the Unix epoch.
#[derive(Debug)]
pub struct Candle {
    pub symbol: Symbol,
    pub timeframe: Timeframe,
    pub open_time: i64,
    pub close_time: i64,
    pub open: Decimal,
    pub high: Decimal,
    pub low: Decimal,
    pub close: Decimal,
    pub volume: Decimal,
    pub quote_volume: Decimal,
    pub trades_count: u64,
    pub is_closed: bool,
}

/// The display text of a candle:
/// `[open time] timeframe O:open H:high L:low C:close V:volume`.
pub open spec fn candle_text(c: Candle) -> Seq<char> {
    "["@ + utc_datetime_text(c.open_time as int) + "] "@ + timeframe_text(c.timeframe) + " O:"@
        + decimal_display(c.open@) + " H:"@ + decimal_display(c.high@) + " L:"@ + decimal_display(
        c.low@,
    ) + " C:"@ + decimal_display(c.close@) + " V:"@ + decimal_display(c.volume@)
}

impl Candle {
    /// The display text of the candle; its open time is one chrono accepts.
    pub fn to_display_string(&self) -> (r: String)
        requires
            chrono_millis_in_range(self.open_time as int),
        ensures
            r@ == candle_text(*self),
    {
        let mut s = String::from_str("[");
        s.append(format_utc_datetime(self.open_time).as_str());
        s.append("] ");
        s.append(self.timeframe.as_str());
        s.append(" O:");
        s.append(self.open.to_text().as_str());
        s.append(" H:");
        s.append(self.high.to_text().as_str());
        s.append(" L:");
        s.append(self.low.to_text().as_str());
        s.append(" C:");
        s.append(self.close.to_text().as_str());
        s.append(" V:");
        s.append(self.volume.to_text().as_str());
        assert(s@ =~= candle_text(*self));
        s
    }
}

/// One public trade.
#[derive(Debug)]
pub struct Trade {
    pub symbol: Symbol,
    pub id: String,
    pub price: Decimal,
    pub quantity: Decimal,
    pub timestamp: i64,
    pub is_buyer_maker: bool,
}

/// One price level of an order book.
#[derive(Debug, Clone, Copy)]
pub struct OrderBookLevel {
    pub price: Decimal,
    pub quantity: Decimal,
}

/// An order book; the best levels come first.
#[derive(Debug)]
pub struct OrderBook {
    pub symbol: Symbol,
    pub timestamp: i64,
    pub bids: Vec<OrderBookLevel>,
    pub asks: Vec<OrderBookLevel>,
    pub sequence: u64,
}

impl OrderBook {
    /// Whether the spread (best ask minus best bid) can be computed without
    /// overflow, or the book lacks one side.
    pub open spec fn spread_defined(&self) -> bool {
        self.asks.len() > 0 && self.bids.len() > 0 ==> decimal_sub(
            self.asks@[0].price@,
            self.bids@[0].price@,
        ) is Some
    }

    /// The highest bid, if any.
    pub fn best_bid(&self) -> (r: Option<&OrderBookLevel>)
        ensures
            r == (if self.bids.len() > 0 {
                Some(&self.bids@[0])
            } else {
                None
            }),
    {
        if self.bids.len() > 0 {
            Some(&self.bids[0])
        } else {
            None
        }
    }

    /// The lowest ask, if any.
    pub fn best_ask(&self) -> (r: Option<&OrderBookLevel>)
        ensures
            r == (if self.asks.len() > 0 {
                Some(&self.asks@[0])
            } else {
                None
            }),
    {
        if self.asks.len() > 0 {
            Some(&self.asks[0])
        } else {
            None
        }
    }

    /// Best ask minus best bid; `None` when a side is empty.
    pub fn spread(&self) -> (r: Option<Decimal>)
        requires
            self.spread_defined(),
        ensures
            self.asks.len() > 0 && self.bids.len() > 0 ==> (r matches Some(d) && decimal_sub(
                self.asks@[0].price@,
                self.bids@[0].price@,
            ) == Some(d@)),
            !(self.asks.len() > 0 && self.bids.len() > 0) ==> r is None,
    {
        if self.asks.len() > 0 && self.bids.len() > 0 {
            match self.asks[0].price.checked_sub(&self.bids[0].price) {
                Some(d) => Some(d),
                None => None,
            }
        } else {
            None
        }
    }

    /// Whether the mid price (best ask plus best bid, halved) can be computed
    /// without overflow, or the book lacks one side.
    pub open spec fn mid_price_defined(&self) -> bool {
        self.asks.len() > 0 && self.bids.len() > 0 ==> match decimal_add(
            self.asks@[0].price@,
            self.bids@[0].price@,
        ) {
            Some(sum) => decimal_div(sum, (2int, 0nat)) is Some,
            None => false,
        }
    }

    /// `(best ask + best bid) / 2`; `None` when a side is empty.
    pub fn mid_price(&self) -> (r: Option<Decimal>)
        requires
            self.mid_price_defined(),
        ensures
            self.asks.len() > 0 && self.bids.len() > 0 ==> (r matches Some(d) && decimal_add(
                self.asks@[0].price@,
                self.bids@[0].price@,
            ) matches Some(sum) && decimal_div(sum, (2int, 0nat)) == Some(d@)),
            !(self.asks.len() > 0 && self.bids.len() > 0) ==> r is None,
    {
        if self.asks.len() > 0 && self.bids.len() > 0 {
            match self.asks[0].price.checked_add(&self.bids[0].price) {
                Some(sum) => sum.checked_div(&Decimal::two()),
                None => None,
            }
        } else {
            None
        }
    }

    /// The spread where it can be computed: `Some(spread())`, and `None` where
    /// the subtraction would overflow.
    pub fn checked_spread(&self) -> (r: Option<Option<Decimal>>)
        ensures
            r is Some <==> self.spread_defined(),
            r matches Some(inner) ==> (self.asks.len() > 0 && self.bids.len() > 0 ==> (
            inner matches Some(d) && decimal_sub(self.asks@[0].price@, self.bids@[0].price@)
                == Some(d@))) && (!(self.asks.len() > 0 && self.bids.len() > 0) ==> inner is None),
    {
        if self.asks.len() > 0 && self.bids.len() > 0 {
            if self.asks[0].price.checked_sub(&self.bids[0].price).is_none() {
                return None;
            }
        }
        Some(self.spread())
    }

    /// The mid price where it can be computed: `Some(mid_price())`, and `None`
    /// where the addition or the halving would overflow.
    pub fn checked_mid_price(&self) -> (r: Option<Option<Decimal>>)
        ensures
            r is Some <==> self.mid_price_defined(),
            r matches Some(inner) ==> (self.asks.len() > 0 && self.bids.len() > 0 ==> (
            inner matches Some(d) && decimal_add(self.asks@[0].price@, self.bids@[0].price@)
                matches Some(sum) && decimal_div(sum, (2int, 0nat)) == Some(d@))) && (!(
            self.asks.len() > 0 && self.bids.len() > 0) ==> inner is None),
    {
        if self.asks.len() > 0 && self.bids.len() > 0 {
            match self.asks[0].price.checked_add(&self.bids[0].price) {
                Some(sum) => {
                    if sum.checked_div(&Decimal::two()).is_none() {
                        return None;
                    }
                },
                None => {
                    return None;
                },
            }
        }
        Some(self.mid_price())
    }
}

// ---------------------------------------------------------------------------
// Orders and positions
// ---------------------------------------------------------------------------

/// The direction of a position.
#[derive(Debug, Clone, Copy, PartialEq, Eq, Hash, Structural)]
pub enum Side {
    Long,
    Short,
}

/// The display name of a side.
pub open spec fn side_text(s: Side) -> Seq<char> {
    match s {
        Side::Long => "LONG"@,
        Side::Short => "SHORT"@,
    }
}

impl Side {
    /// `LONG` or `SHORT`.
    pub fn as_str(&self) -> (r: &'static str)
        ensures
            r@ == side_text(*self),
    {
        match self {
            Side::Long => "LONG",
            Side::Short => "SHORT",
        }
    }
}

/// How an order is priced.
#[derive(Debug, Clone, Copy, PartialEq, Eq, Structural)]
pub enum OrderType {
    Market,
    Limit,
}

/// Where an order stands.
#[derive(Debug, Clone, Copy, PartialEq, Eq, Structural)]
pub enum OrderStatus {
    Pending,
    Filled,
    Cancelled,
}

/// A simulated order.  The id is the 128-bit value of a UUID.
#[derive(Debug)]
pub struct SimOrder {
    pub id: u128,
    pub symbol: Symbol,
    pub side: Side,
    pub order_type: OrderType,
    pub price: Option<Decimal>,
    pub quantity: Decimal,
    pub status: OrderStatus,
    pub created_at: i64,
    pub filled_at: Option<i64>,
}

/// A simulated position.  The id is the 128-bit value of a UUID.
#[derive(Debug)]
pub struct SimPosition {
    pub id: u128,
    pub symbol: Symbol,
    pub side: Side,
    pub entry_price: Decimal,
    pub quantity: Decimal,
    pub unrealized_pnl: Decimal,
    pub realized_pnl: Decimal,
    pub opened_at: i64,
    pub closed_at: Option<i64>,
    pub usd_size: Decimal,
}

/// The unrealised profit of a position at `price` and the size in dollars:
/// `(price - entry) * quantity` for a long, `-(price - entry) * quantity` for a
/// short, and `quantity * price`; `None` where an operation overflows.
pub open spec fn pnl_at(side: Side, entry: (int, nat), quantity: (int, nat), price: (int, nat)) -> Option<((int, nat), (int, nat))> {
    match decimal_sub(price, entry) {
        Some(diff) => {
            let signed = match side {
                Side::Long => diff,
                Side::Short => (-diff.0, diff.1),
            };
            match (decimal_mul(signed, quantity), decimal_mul(quantity, price)) {
                (Some(pnl), Some(size)) => Some((pnl, size)),
                _ => None,
            }
        },
        None => None,
    }
}

/// Revaluing a position at `price` sizes it at that price whatever its side:
/// the size in dollars is the quantity times the price, for a long and for a
/// short alike.  The profit is the price move times the quantity for a long,
/// and the move negated times the quantity for a short.
pub proof fn lemma_revaluation(entry: (int, nat), quantity: (int, nat), price: (int, nat))
    ensures
        pnl_at(Side::Long, entry, quantity, price) matches Some((_, size)) ==> decimal_mul(quantity, price)
            == Some(size),
        pnl_at(Side::Short, entry, quantity, price) matches Some((_, size)) ==> decimal_mul(quantity, price)
            == Some(size),
        pnl_at(Side::Long, entry, quantity, price) matches Some((pnl, _)) ==> (decimal_sub(price, entry) matches Some(d)
            && decimal_mul(d, quantity) == Some(pnl)),
        pnl_at(Side::Short, entry, quantity, price) matches Some((pnl, _)) ==> (decimal_sub(price, entry) matches Some(d)
            && decimal_mul((-d.0, d.1), quantity) == Some(pnl)),
{
}

/// The return of a position in percent:
/// `unrealized / (entry * quantity) * 100`, zero when the entry price or the
/// entry value is zero; `None` where an operation overflows.
pub open spec fn pnl_percent_of(entry: (int, nat), quantity: (int, nat), unrealized: (int, nat)) -> Option<(int, nat)> {
    if entry.0 == 0 {
        Some((0, 0))
    } else {
        match decimal_mul(entry, quantity) {
            Some(value) => if value.0 == 0 {
                Some((0, 0))
            } else {
                match decimal_div(unrealized, value) {
                    Some(ratio) => decimal_mul(ratio, (100, 0)),
                    None => None,
                }
            },
            None => None,
        }
    }
}

/// The return in percent is zero for a position with no entry price or no
/// entry value, and otherwise the profit over the entry value (entry price
/// times quantity), times one hundred.
pub proof fn lemma_return_in_percent(entry: (int, nat), quantity: (int, nat), unrealized: (int, nat))
    ensures
        entry.0 == 0 ==> pnl_percent_of(entry, quantity, unrealized) == Some((0int, 0nat)),
        decimal_mul(entry, quantity) matches Some(v) ==> (v.0 == 0 ==> pnl_percent_of(entry, quantity, unrealized)
            == Some((0int, 0nat))),
        entry.0 != 0 ==> (decimal_mul(entry, quantity) matches Some(v) ==> (v.0 != 0 ==> pnl_percent_of(
            entry,
            quantity,
            unrealized,
        ) == match decimal_div(unrealized, v) {
            Some(ratio) => decimal_mul(ratio, (100int, 0nat)),
            None => None,
        })),
{
}

impl SimPosition {
    /// Revalues the position at `current_price`: sets the unrealised profit and
    /// the size in dollars, and leaves every other field as it was.
    pub fn update_pnl(&mut self, current_price: Decimal)
        requires
            pnl_at(old(self).side, old(self).entry_price@, old(self).quantity@, current_price@) is Some,
        ensures
            pnl_at(old(self).side, old(self).entry_price@, old(self).quantity@, current_price@)
                == Some((final(self).unrealized_pnl@, final(self).usd_size@)),
            final(self).id == old(self).id,
            final(self).symbol == old(self).symbol,
            final(self).side == old(self).side,
            final(self).entry_price == old(self).entry_price,
            final(self).quantity == old(self).quantity,
            final(self).realized_pnl == old(self).realized_pnl,
            final(self).opened_at == old(self).opened_at,
            final(self).closed_at == old(self).closed_at,
    {
        let diff = current_price.checked_sub(&self.entry_price).unwrap();
        let signed = match self.side {
            Side::Long => diff,
            Side::Short => diff.neg(),
        };
        let pnl = signed.checked_mul(&self.quantity).unwrap();
        let size = self.quantity.checked_mul(&current_price).unwrap();
        self.unrealized_pnl = pnl;
        self.usd_size = size;
    }

    /// Revalues the position where that does not overflow, and says whether it
    /// did; where it would overflow the position is left unchanged.
    pub fn try_update_pnl(&mut self, current_price: Decimal) -> (r: bool)
        ensures
            r == (pnl_at(old(self).side, old(self).entry_price@, old(self).quantity@, current_price@) is Some),
            r ==> pnl_at(old(self).side, old(self).entry_price@, old(self).quantity@, current_price@)
                == Some((final(self).unrealized_pnl@, final(self).usd_size@)),
            !r ==> *final(self) == *old(self),
            final(self).id == old(self).id,
            final(self).symbol == old(self).symbol,
            final(self).side == old(self).side,
            final(self).entry_price == old(self).entry_price,
            final(self).quantity == old(self).quantity,
            final(self).realized_pnl == old(self).realized_pnl,
            final(self).opened_at == old(self).opened_at,
            final(self).closed_at == old(self).closed_at,
    {
        let diff = match current_price.checked_sub(&self.entry_price) {
            Some(d) => d,
            None => {
                return false;
            },
        };
        let signed = match self.side {
            Side::Long => diff,
            Side::Short => diff.neg(),
        };
        if signed.checked_mul(&self.quantity).is_none() {
            return false;
        }
        if self.quantity.checked_mul(&current_price).is_none() {
            return false;
        }
        self.update_pnl(current_price);
        true
    }

    /// The unrealised return in percent of the entry value.
    pub fn pnl_percent(&self) -> (r: Decimal)
        requires
            pnl_percent_of(self.entry_price@, self.quantity@, self.unrealized_pnl@) is Some,
        ensures
            pnl_percent_of(self.entry_price@, self.quantity@, self.unrealized_pnl@) == Some(r@),
    {
        if self.entry_price.is_zero() {
            return Decimal::zero();
        }
        let entry_value = self.entry_price.checked_mul(&self.quantity).unwrap();
        if entry_value.is_zero() {
            return Decimal::zero();
        }
        let ratio = self.unrealized_pnl.checked_div(&entry_value).unwrap();
        ratio.checked_mul(&Decimal::one_hundred()).unwrap()
    }

    /// The unrealised return in percent where it can be computed, `None` where
    /// an operation would overflow.
    pub fn checked_pnl_percent(&self) -> (r: Option<Decimal>)
        ensures
            match pnl_percent_of(self.entry_price@, self.quantity@, self.unrealized_pnl@) {
                Some(v) => r matches Some(d) && d@ == v,
                None => r is None,
            },
    {
        if !self.entry_price.is_zero() {
            match self.entry_price.checked_mul(&self.quantity) {
                Some(entry_value) => {
                    if !entry_value.is_zero() {
                        match self.unrealized_pnl.checked_div(&entry_value) {
                            Some(ratio) => {
                                if ratio.checked_mul(&Decimal::one_hundred()).is_none() {
                                    return None;
                                }
                            },
                            None => {
                                return None;
                            },
                        }
                    }
                },
                None => {
                    return None;
                },
            }
        }
        Some(self.pnl_percent())
    }
}

// ---------------------------------------------------------------------------
// Copy trading
// ---------------------------------------------------------------------------

/// A copy-trading leader as published by an exchange.
#[derive(Debug)]
pub struct LeadTrader {
    pub id: String,
    pub nickname: String,
    pub exchange: Exchange,
    pub roi_percent: Decimal,
    pub pnl_usd: Decimal,
    pub win_rate: Decimal,
    pub followers: u64,
    pub total_trades: u64,
    pub current_positions: Vec<TraderPosition>,
    pub fetched_at: i64,
}

/// One open position of a copy-trading leader.
#[derive(Debug)]
pub struct TraderPosition {
    pub symbol: String,
    pub side: Side,
    pub entry_price: Decimal,
    pub mark_price: Decimal,
    pub size_usd: Decimal,
    pub pnl_percent: Decimal,
}

// ---------------------------------------------------------------------------
// Events and signals
// ---------------------------------------------------------------------------

/// An update from a market-data stream.
#[derive(Debug)]
pub enum MarketEvent {
    CandleUpdate(Candle),
    TradeUpdate(Trade),
    OrderBookUpdate(OrderBook),
}

/// An instruction produced by a strategy.
#[derive(Debug)]
pub enum TradingSignal {
    OpenLong { symbol: Symbol, size_usd: Decimal, reason: String },
    OpenShort { symbol: Symbol, size_usd: Decimal, reason: String },
    CloseLong { symbol: Symbol, reason: String },
    CloseShort { symbol: Symbol, reason: String },
}

/// A trading strategy, implemented by the users of the library: it reads
/// market data and answers with the signals it wants traded.
pub trait Strategy {
    /// The strategy's name.
    fn name(&self) -> &str;

    /// The signals a new candle gives.
    fn on_candle(&mut self, candle: &Candle) -> Vec<TradingSignal>;

    /// The signals a new public trade gives.
    fn on_trade(&mut self, trade: &Trade) -> Vec<TradingSignal>;

    /// The signals a new order book gives.
    fn on_orderbook(&mut self, book: &OrderBook) -> Vec<TradingSignal>;

    /// Forgets everything seen so far.
    fn reset(&mut self);
}

} // verus!
