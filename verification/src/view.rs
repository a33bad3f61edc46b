//! What the dashboard keeps of the market data stream for its selected
//! symbol: rolling windows of candles and trades, the latest order book and a
//! log, and the small decisions its panels make.
use vstd::prelude::*;

use std::collections::VecDeque;

use crate::decimal::Decimal;
use crate::text::{concat, decimal_text, i64_to_string, signed_decimal_text, str_eq, u64_to_string};
use crate::time::{chrono_millis_in_range, now_millis};
use crate::types::{
    side_text, Candle, Exchange, MarketEvent, MarketType, OrderBook, OrderType,
    Side, Symbol, Trade,
};

verus! {

/// The most candles the dashboard keeps.
pub const MAX_CANDLES: usize = 500usize;

/// The most recent trades the dashboard keeps.
pub const MAX_RECENT_TRADES: usize = 100usize;

/// The most log messages the dashboard keeps.
pub const MAX_LOG_MESSAGES: usize = 200usize;

/// The last `n` elements of `s` (all of them when there are fewer).
pub open spec fn last_n<T>(s: Seq<T>, n: nat) -> Seq<T> {
    if s.len() > n {
        s.subrange(s.len() - n, s.len() as int)
    } else {
        s
    }
}

/// A rolling window of at most `cap` elements after `x` arrives.
pub open spec fn rolled<T>(s: Seq<T>, x: T, cap: nat) -> Seq<T> {
    last_n(s.push(x), cap)
}

/// A rolling window after the elements of `xs` arrive one by one.
pub open spec fn rolled_all<T>(s: Seq<T>, xs: Seq<T>, cap: nat) -> Seq<T>
    decreases xs.len(),
{
    if xs.len() == 0 {
        s
    } else {
        rolled(rolled_all(s, xs.drop_last(), cap), xs.last(), cap)
    }
}

/// A rolling window holds the latest `cap` of all that arrived, in arrival
/// order: feeding `xs` one by one into a window of at most `cap` elements
/// leaves the last `cap` elements of the window followed by `xs`.
pub proof fn lemma_rolling_window_keeps_latest<T>(s: Seq<T>, xs: Seq<T>, cap: nat)
    requires
        s.len() <= cap,
    ensures
        rolled_all(s, xs, cap) == last_n(s + xs, cap),
        rolled_all(s, xs, cap).len() <= cap,
    decreases xs.len(),
{
    if xs.len() == 0 {
        assert(s + xs =~= s);
    } else {
        let prev = xs.drop_last();
        lemma_rolling_window_keeps_latest(s, prev, cap);
        let a = s + prev;
        let x = xs.last();
        assert(s + xs =~= a.push(x));
        let w = last_n(a, cap);
        assert(last_n(w.push(x), cap) =~= last_n(a.push(x), cap));
    }
}

/// Pushes `x` at the back of `v` and drops elements from the front until at
/// most `cap` remain.
fn push_rolling<T>(v: &mut VecDeque<T>, x: T, cap: usize)
    ensures
        final(v)@ == rolled(old(v)@, x, cap as nat),
{
    let ghost t = old(v)@.push(x);
    v.push_back(x);
    while v.len() > cap
        invariant
            t.len() == old(v)@.len() + 1,
            v@.len() <= t.len(),
            v@.len() >= (if t.len() > cap { cap as int } else { t.len() as int }),
            v@ == t.subrange(t.len() - v@.len(), t.len() as int),
        decreases v@.len(),
    {
        let ghost before = v@;
        let _ = v.pop_front();
        assert(v@ =~= t.subrange(t.len() - v@.len(), t.len() as int));
    }
    assert(v@ =~= last_n(t, cap as nat));
}

/// The symbol of the dashboard's empty order book: quoted in USDT, linear
/// perpetual, on the primary exchange, with no base and no raw name.
pub open spec fn placeholder_symbol(s: Symbol, exchange: Exchange) -> bool {
    &&& s.base@.len() == 0
    &&& s.quote@ == "USDT"@
    &&& s.market_type == MarketType::LinearPerpetual
    &&& s.exchange == exchange
    &&& s.raw_symbol@.len() == 0
}

/// The market data of the selected symbol.
#[derive(Debug)]
pub struct MarketView {
    pub selected_symbol: String,
    pub candles: VecDeque<Candle>,
    pub recent_trades: VecDeque<Trade>,
    pub orderbook: OrderBook,
    pub log_messages: VecDeque<String>,
}

impl MarketView {
    /// An empty view of `symbol`, whose order book is empty and stamped with
    /// the current time.
    pub fn new(primary_exchange: Exchange, symbol: String) -> (r: MarketView)
        ensures
            r.selected_symbol == symbol,
            r.candles@.len() == 0,
            r.recent_trades@.len() == 0,
            r.log_messages@.len() == 0,
            placeholder_symbol(r.orderbook.symbol, primary_exchange),
            chrono_millis_in_range(r.orderbook.timestamp as int),
            r.orderbook.bids@.len() == 0,
            r.orderbook.asks@.len() == 0,
            r.orderbook.sequence == 0,
    {
        MarketView {
            selected_symbol: symbol,
            candles: VecDeque::new(),
            recent_trades: VecDeque::new(),
            orderbook: OrderBook {
                symbol: Symbol {
                    base: String::new(),
                    quote: String::from_str("USDT"),
                    market_type: MarketType::LinearPerpetual,
                    exchange: primary_exchange,
                    raw_symbol: String::new(),
                },
                timestamp: now_millis(),
                bids: Vec::new(),
                asks: Vec::new(),
                sequence: 0,
            },
            log_messages: VecDeque::new(),
        }
    }

    /// Takes one stream event.  Updates of another symbol are ignored; a
    /// candle joins the candle window, a trade the trade window, and an order
    /// book replaces the one shown.  Says whether a candle was taken.
    pub fn apply_event(&mut self, event: MarketEvent) -> (counted: bool)
        ensures
            final(self).selected_symbol == old(self).selected_symbol,
            final(self).log_messages == old(self).log_messages,
            match event {
                MarketEvent::CandleUpdate(c) => {
                    &&& counted == (c.symbol.raw_symbol@ == old(self).selected_symbol@)
                    &&& final(self).candles@ == (if counted {
                        rolled(old(self).candles@, c, MAX_CANDLES as nat)
                    } else {
                        old(self).candles@
                    })
                    &&& final(self).recent_trades@ == old(self).recent_trades@
                    &&& final(self).orderbook == old(self).orderbook
                },
                MarketEvent::TradeUpdate(t) => {
                    &&& !counted
                    &&& final(self).candles@ == old(self).candles@
                    &&& final(self).recent_trades@ == (if t.symbol.raw_symbol@
                        == old(self).selected_symbol@ {
                        rolled(old(self).recent_trades@, t, MAX_RECENT_TRADES as nat)
                    } else {
                        old(self).recent_trades@
                    })
                    &&& final(self).orderbook == old(self).orderbook
                },
                MarketEvent::OrderBookUpdate(b) => {
                    &&& !counted
                    &&& final(self).candles@ == old(self).candles@
                    &&& final(self).recent_trades@ == old(self).recent_trades@
                    &&& final(self).orderbook == (if b.symbol.raw_symbol@
                        == old(self).selected_symbol@ {
                        b
                    } else {
                        old(self).orderbook
                    })
                },
            },
    {
        match event {
            MarketEvent::CandleUpdate(c) => {
                if str_eq(c.symbol.raw_symbol.as_str(), self.selected_symbol.as_str()) {
                    push_rolling(&mut self.candles, c, MAX_CANDLES);
                    true
                } else {
                    false
                }
            },
            MarketEvent::TradeUpdate(t) => {
                if str_eq(t.symbol.raw_symbol.as_str(), self.selected_symbol.as_str()) {
                    push_rolling(&mut self.recent_trades, t, MAX_RECENT_TRADES);
                }
                false
            },
            MarketEvent::OrderBookUpdate(b) => {
                if str_eq(b.symbol.raw_symbol.as_str(), self.selected_symbol.as_str()) {
                    self.orderbook = b;
                }
                false
            },
        }
    }

    /// Takes a batch of stream events in order and, where candles were taken,
    /// logs how many (`clock` is the time of day shown in the message).
    /// Returns the number of candles taken.
    pub fn drain_events(&mut self, events: Vec<MarketEvent>, clock: &str) -> (count: u64)
        ensures
            final(self).selected_symbol == old(self).selected_symbol,
            count as nat == taken_candles(events@, old(self).selected_symbol@).len(),
            final(self).candles@ == rolled_all(
                old(self).candles@,
                taken_candles(events@, old(self).selected_symbol@),
                MAX_CANDLES as nat,
            ),
            final(self).recent_trades@ == rolled_all(
                old(self).recent_trades@,
                taken_trades(events@, old(self).selected_symbol@),
                MAX_RECENT_TRADES as nat,
            ),
            final(self).orderbook == shown_book(
                events@,
                old(self).selected_symbol@,
                old(self).orderbook,
            ),
            count == 0 ==> final(self).log_messages == old(self).log_messages,
            count > 0 ==> final(self).log_messages@.len() > 0 && final(self).log_messages@
                == rolled(
                old(self).log_messages@,
                final(self).log_messages@.last(),
                MAX_LOG_MESSAGES as nat,
            ) && final(self).log_messages@.last()@ == candle_log_text(
                clock@,
                count as nat,
                old(self).selected_symbol@,
            ),
    {
        let ghost es = events@;
        let ghost sym = self.selected_symbol@;
        let ghost c0 = self.candles@;
        let ghost t0 = self.recent_trades@;
        let ghost b0 = self.orderbook;
        let ghost logs = self.log_messages;
        let ghost name = self.selected_symbol;
        let mut events = events;
        let mut count: u64 = 0;
        let mut i: usize = 0;
        let n = events.len();
        while i < n
            invariant
                n == es.len(),
                i <= n,
                events@ == es.subrange(i as int, n as int),
                self.selected_symbol == name,
                sym == name@,
                self.log_messages == logs,
                count as nat == taken_candles(es.subrange(0, i as int), sym).len(),
                count <= i,
                self.candles@ == rolled_all(c0, taken_candles(es.subrange(0, i as int), sym), MAX_CANDLES as nat),
                self.recent_trades@ == rolled_all(t0, taken_trades(es.subrange(0, i as int), sym), MAX_RECENT_TRADES as nat),
                self.orderbook == shown_book(es.subrange(0, i as int), sym, b0),
            decreases n - i,
        {
            let ghost pre = es.subrange(0, i as int);
            let ghost next = es.subrange(0, i + 1);
            proof {
                assert(next.drop_last() =~= pre);
                assert(next.last() == es[i as int]);
                assert(events@[0] == es[i as int]);
            }
            let e = events.remove(0);
            proof {
                assert(events@ =~= es.subrange(i + 1, n as int));
                let tc = taken_candles(pre, sym);
                let tt = taken_trades(pre, sym);
                assert forall|c: Candle| #[trigger] tc.push(c).drop_last() == tc by {
                    assert(tc.push(c).drop_last() =~= tc);
                }
                assert forall|t: Trade| #[trigger] tt.push(t).drop_last() == tt by {
                    assert(tt.push(t).drop_last() =~= tt);
                }
            }
            if self.apply_event(e) {
                count = count + 1;
            }
            i = i + 1;
        }
        proof {
            assert(es.subrange(0, n as int) =~= es);
        }
        if count > 0 {
            let message = candle_log_message(clock, count, self.selected_symbol.as_str());
            self.push_log(message);
        }
        count
    }

    /// Adds a message to the log, dropping the oldest beyond the limit.
    pub fn push_log(&mut self, message: String)
        ensures
            final(self).log_messages@ == rolled(
                old(self).log_messages@,
                message,
                MAX_LOG_MESSAGES as nat,
            ),
            final(self).selected_symbol == old(self).selected_symbol,
            final(self).candles == old(self).candles,
            final(self).recent_trades == old(self).recent_trades,
            final(self).orderbook == old(self).orderbook,
    {
        push_rolling(&mut self.log_messages, message, MAX_LOG_MESSAGES);
    }
}

/// The candles of `symbol` among the events, in order.
pub open spec fn taken_candles(es: Seq<MarketEvent>, symbol: Seq<char>) -> Seq<Candle>
    decreases es.len(),
{
    if es.len() == 0 {
        Seq::empty()
    } else {
        let prev = taken_candles(es.drop_last(), symbol);
        match es.last() {
            MarketEvent::CandleUpdate(c) => if c.symbol.raw_symbol@ == symbol {
                prev.push(c)
            } else {
                prev
            },
            _ => prev,
        }
    }
}

/// The trades of `symbol` among the events, in order.
pub open spec fn taken_trades(es: Seq<MarketEvent>, symbol: Seq<char>) -> Seq<Trade>
    decreases es.len(),
{
    if es.len() == 0 {
        Seq::empty()
    } else {
        let prev = taken_trades(es.drop_last(), symbol);
        match es.last() {
            MarketEvent::TradeUpdate(t) => if t.symbol.raw_symbol@ == symbol {
                prev.push(t)
            } else {
                prev
            },
            _ => prev,
        }
    }
}

/// The order book shown after the events: the last one of `symbol` among
/// them, else `current`.
pub open spec fn shown_book(es: Seq<MarketEvent>, symbol: Seq<char>, current: OrderBook) -> OrderBook
    decreases es.len(),
{
    if es.len() == 0 {
        current
    } else {
        match es.last() {
            MarketEvent::OrderBookUpdate(b) => if b.symbol.raw_symbol@ == symbol {
                b
            } else {
                shown_book(es.drop_last(), symbol, current)
            },
            _ => shown_book(es.drop_last(), symbol, current),
        }
    }
}

/// The log line for candles taken in one pass:
/// `[clock] Received n candle update(s) for symbol`.
pub open spec fn candle_log_text(clock: Seq<char>, n: nat, symbol: Seq<char>) -> Seq<char> {
    "["@ + clock + "] Received "@ + decimal_text(n) + " candle update(s) for "@ + symbol
}

/// The log line for candles taken in one pass.
pub fn candle_log_message(clock: &str, count: u64, symbol: &str) -> (r: String)
    ensures
        r@ == candle_log_text(clock@, count as nat, symbol@),
{
    let mut s = concat("[", clock);
    s.append("] Received ");
    s.append(u64_to_string(count).as_str());
    s.append(" candle update(s) for ");
    s.append(symbol);
    assert(s@ =~= candle_log_text(clock@, count as nat, symbol@));
    s
}


/// A command from the dashboard to the trading engine.
#[derive(Debug)]
pub enum GuiCommand {
    ManualOrder {
        symbol: String,
        side: Side,
        order_type: OrderType,
        size_usd: Decimal,
        price: Option<Decimal>,
    },
    ClosePosition { position_id: u128 },
}

/// The price a market order refers to: the best ask for a long, the best bid
/// for a short, where the book has one.
pub open spec fn reference_price(book: OrderBook, side: Side) -> Option<Decimal> {
    match side {
        Side::Long => if book.asks@.len() > 0 {
            Some(book.asks@[0].price)
        } else {
            None
        },
        Side::Short => if book.bids@.len() > 0 {
            Some(book.bids@[0].price)
        } else {
            None
        },
    }
}

/// The price a market order refers to.
pub fn market_reference_price(book: &OrderBook, side: Side) -> (r: Option<Decimal>)
    ensures
        r == reference_price(*book, side),
{
    match side {
        Side::Long => match book.best_ask() {
            Some(l) => Some(l.price),
            None => None,
        },
        Side::Short => match book.best_bid() {
            Some(l) => Some(l.price),
            None => None,
        },
    }
}

/// The command the order form sends: none for a size that is not positive;
/// a limit order carries the price typed in, a market order the reference
/// price of the book.
pub fn manual_order_command(
    book: &OrderBook,
    symbol: String,
    side: Side,
    order_type: OrderType,
    size_usd: Decimal,
    limit_price: Option<Decimal>,
) -> (r: Option<GuiCommand>)
    ensures
        !crate::decimal::value_lt((0int, 0nat), size_usd@) ==> r is None,
        crate::decimal::value_lt((0int, 0nat), size_usd@) ==> r == Some(
            GuiCommand::ManualOrder {
                symbol,
                side,
                order_type,
                size_usd,
                price: if order_type == OrderType::Limit {
                    limit_price
                } else {
                    reference_price(*book, side)
                },
            },
        ),
{
    if !Decimal::zero().lt(&size_usd) {
        return None;
    }
    let price = match order_type {
        OrderType::Limit => limit_price,
        OrderType::Market => market_reference_price(book, side),
    };
    Some(GuiCommand::ManualOrder { symbol, side, order_type, size_usd, price })
}

/// The log line for a submitted order:
/// `[clock] Order submitted: SIDE symbol $size MARKET` or `... LIMIT @ price`.
pub open spec fn order_log_text(
    clock: Seq<char>,
    side: Side,
    symbol: Seq<char>,
    size: Seq<char>,
    order_type: OrderType,
    price: Seq<char>,
) -> Seq<char> {
    "["@ + clock + "] Order submitted: "@ + side_text(side) + " "@ + symbol + " $"@ + size + " "@
        + match order_type {
        OrderType::Market => "MARKET"@,
        OrderType::Limit => "LIMIT @ "@ + price,
    }
}

/// The log line for a submitted order; `size` and `price` are the texts shown.
pub fn order_submitted_message(
    clock: &str,
    side: Side,
    symbol: &str,
    size: &str,
    order_type: OrderType,
    price: &str,
) -> (r: String)
    ensures
        r@ == order_log_text(clock@, side, symbol@, size@, order_type, price@),
{
    let mut s = concat("[", clock);
    s.append("] Order submitted: ");
    s.append(side.as_str());
    s.append(" ");
    s.append(symbol);
    s.append(" $");
    s.append(size);
    s.append(" ");
    match order_type {
        OrderType::Market => s.append("MARKET"),
        OrderType::Limit => {
            s.append("LIMIT @ ");
            s.append(price);
        },
    }
    assert(s@ =~= order_log_text(clock@, side, symbol@, size@, order_type, price@));
    s
}

/// The side a trade is shown with: the taker's, so a buyer-maker trade is a sell.
pub fn trade_side_text(is_buyer_maker: bool) -> (r: &'static str)
    ensures
        r@ == (if is_buyer_maker {
            "SELL"@
        } else {
            "BUY"@
        }),
{
    if is_buyer_maker {
        "SELL"
    } else {
        "BUY"
    }
}

/// `a / b` rounded toward zero, as integer division in Rust does.
pub open spec fn div_toward_zero(a: int, b: int) -> int {
    if a >= 0 {
        a / b
    } else {
        -((-a) / b)
    }
}

/// How long a position has been open, as the positions table shows it:
/// `Hh Mm` from one hour on, `Mm` below (whole hours and minutes, rounded
/// toward zero).
pub open spec fn age_text(age_ms: int) -> Seq<char> {
    let minutes = div_toward_zero(age_ms, 60000);
    let hours = div_toward_zero(age_ms, 3600000);
    if hours > 0 {
        decimal_text(hours as nat) + "h "@ + decimal_text((minutes % 60) as nat) + "m"@
    } else {
        signed_decimal_text(minutes) + "m"@
    }
}

/// How long a position has been open, from its age in milliseconds.
pub fn position_age_text(age_ms: i64) -> (r: String)
    ensures
        r@ == age_text(age_ms as int),
{
    let magnitude: u64 = if age_ms >= 0 {
        age_ms as u64
    } else {
        (0i128 - age_ms as i128) as u64
    };
    let minutes_mag: u64 = magnitude / 60000;
    let hours_mag: u64 = magnitude / 3600000;
    if age_ms >= 0 && hours_mag > 0 {
        let mut s = u64_to_string(hours_mag);
        s.append("h ");
        s.append(u64_to_string(minutes_mag % 60).as_str());
        s.append("m");
        assert(s@ =~= age_text(age_ms as int));
        s
    } else {
        let minutes: i64 = if age_ms >= 0 {
            minutes_mag as i64
        } else {
            0 - (minutes_mag as i64)
        };
        let mut s = i64_to_string(minutes);
        s.append("m");
        assert(s@ =~= age_text(age_ms as int));
        s
    }
}

} // verus!
