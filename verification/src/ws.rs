//! WebSocket streams: the reconnection rules that every stream follows, the
//! stream names and subscription keys of each exchange, and which messages a
//! subscription keeps.
use vstd::prelude::*;

use crate::text::{concat, lowercase, starts_with, str_eq, to_lowercase};
use crate::timeframe::{binance_interval, bybit_interval, timeframe_text, Timeframe};
use crate::types::{MarketType, Symbol};

verus! {

// ---------------------------------------------------------------------------
// Reconnection
// ---------------------------------------------------------------------------

/// The longest wait between two connection attempts, in seconds.
pub const MAX_BACKOFF_SECS: u64 = 60u64;

/// What happened on a stream since the last step.
#[derive(Debug, Clone, Copy, PartialEq, Eq, Structural)]
pub enum WsEvent {
    /// The connection was opened.
    Connected,
    /// Opening the connection failed.
    ConnectFailed,
    /// The subscribe message could not be sent on a fresh connection.
    SubscribeFailed,
    /// A text message arrived.
    Text,
    /// A ping arrived.
    Ping,
    /// Another kind of message arrived.
    Other,
    /// The server closed the stream, or the stream ended.
    Closed,
    /// Reading from the stream failed.
    ReadError,
    /// The wait before the next attempt is over.
    Slept,
    /// The stream was cancelled.
    Cancelled,
}

/// What the stream task is to do next.
#[derive(Debug, Clone, Copy, PartialEq, Eq, Structural)]
pub enum WsAction {
    /// Open a connection (and send the subscribe message, where there is one).
    Connect,
    /// Read the next message.
    Read,
    /// Hand the text message to the subscription's handler, then read on.
    HandleText,
    /// Answer the ping with a pong carrying the same data, then read on.
    SendPong,
    /// Wait this many seconds, then report `Slept`.
    Sleep(u64),
    /// Stop for good.
    Stop,
}

/// The reconnection state of one stream: the wait before the next attempt.
#[derive(Debug, Clone, Copy, PartialEq, Eq, Structural)]
pub struct Reconnect {
    pub backoff: u64,
}

/// The wait that follows `b`: doubled, at most sixty seconds.
pub open spec fn next_backoff_secs(b: int) -> int {
    if 2 * b < MAX_BACKOFF_SECS {
        2 * b
    } else {
        MAX_BACKOFF_SECS as int
    }
}

/// The action that follows an event, and the wait after it.
pub open spec fn reconnect_step(backoff: int, event: WsEvent) -> (int, WsAction) {
    match event {
        WsEvent::Connected => (1, WsAction::Read),
        WsEvent::SubscribeFailed => (backoff, WsAction::Connect),
        WsEvent::Text => (backoff, WsAction::HandleText),
        WsEvent::Ping => (backoff, WsAction::SendPong),
        WsEvent::Other => (backoff, WsAction::Read),
        WsEvent::ConnectFailed | WsEvent::Closed | WsEvent::ReadError => (
            next_backoff_secs(backoff),
            WsAction::Sleep(backoff as u64),
        ),
        WsEvent::Slept => (backoff, WsAction::Connect),
        WsEvent::Cancelled => (backoff, WsAction::Stop),
    }
}

impl Reconnect {
    /// The state is valid: the wait is between one and sixty seconds.
    pub open spec fn valid(&self) -> bool {
        1 <= self.backoff <= MAX_BACKOFF_SECS
    }

    /// A fresh stream: one second of wait, and a connection to open.
    pub fn start() -> (r: (Reconnect, WsAction))
        ensures
            r.0.valid(),
            r.0.backoff == 1,
            r.1 == WsAction::Connect,
    {
        (Reconnect { backoff: 1 }, WsAction::Connect)
    }

    /// Moves on after an event: a successful connection resets the wait to one
    /// second; a failed connection, a closed stream or a read error waits the
    /// current time and doubles it up to sixty seconds; a failed subscription
    /// reconnects at once; cancelling stops the stream.
    pub fn step(&mut self, event: WsEvent) -> (action: WsAction)
        requires
            old(self).valid(),
        ensures
            final(self).valid(),
            reconnect_step(old(self).backoff as int, event) == (final(self).backoff as int, action),
    {
        match event {
            WsEvent::Connected => {
                self.backoff = 1;
                WsAction::Read
            },
            WsEvent::SubscribeFailed => WsAction::Connect,
            WsEvent::Text => WsAction::HandleText,
            WsEvent::Ping => WsAction::SendPong,
            WsEvent::Other => WsAction::Read,
            WsEvent::ConnectFailed | WsEvent::Closed | WsEvent::ReadError => {
                let wait = self.backoff;
                self.backoff = if wait * 2 < MAX_BACKOFF_SECS {
                    wait * 2
                } else {
                    MAX_BACKOFF_SECS
                };
                WsAction::Sleep(wait)
            },
            WsEvent::Slept => WsAction::Connect,
            WsEvent::Cancelled => WsAction::Stop,
        }
    }
}

/// The wait after `n` failures in a row, starting from one second.
pub open spec fn backoff_after_failures(n: nat) -> int
    decreases n,
{
    if n == 0 {
        1
    } else {
        next_backoff_secs(backoff_after_failures((n - 1) as nat))
    }
}

/// The waits never leave the range from one to sixty seconds, and after `n`
/// failures in a row from a fresh connection the wait is `min(2^n, 60)`.
pub proof fn lemma_backoff_after_failures(n: nat)
    ensures
        1 <= backoff_after_failures(n) <= MAX_BACKOFF_SECS,
        backoff_after_failures(n) == (if n < 6 {
            vstd::arithmetic::power2::pow2(n) as int
        } else {
            MAX_BACKOFF_SECS as int
        }),
    decreases n,
{
    vstd::arithmetic::power2::lemma2_to64();
    if n > 0 {
        lemma_backoff_after_failures((n - 1) as nat);
    }
}

/// Whether an event ends a connection attempt or a connection: the
/// connection failed, the stream closed or reading failed.
pub open spec fn is_failure(e: WsEvent) -> bool {
    e == WsEvent::ConnectFailed || e == WsEvent::Closed || e == WsEvent::ReadError
}

/// The wait held after a stream that started fresh has seen `events` in order.
pub open spec fn trace_backoff(events: Seq<WsEvent>) -> int
    decreases events.len(),
{
    if events.len() == 0 {
        1
    } else {
        reconnect_step(trace_backoff(events.drop_last()), events.last()).0
    }
}

/// The number of failures since the last successful connection (or since the
/// start, where there was none).
pub open spec fn failures_since_connect(events: Seq<WsEvent>) -> nat
    decreases events.len(),
{
    if events.len() == 0 {
        0
    } else if events.last() == WsEvent::Connected {
        0
    } else if is_failure(events.last()) {
        failures_since_connect(events.drop_last()) + 1
    } else {
        failures_since_connect(events.drop_last())
    }
}

/// Over any run of events from a fresh stream: the wait held is the one that
/// the failures since the last successful connection give (1, 2, 4, ..., 60
/// seconds, see `lemma_backoff_after_failures`); the next failure makes the
/// stream sleep exactly that long before it connects again; a text message
/// is handed on, a ping answered; and cancelling stops the stream whatever
/// came before.
pub proof fn lemma_reconnect_trace(events: Seq<WsEvent>)
    ensures
        trace_backoff(events) == backoff_after_failures(failures_since_connect(events)),
        forall|e: WsEvent|
            is_failure(e) ==> #[trigger] reconnect_step(trace_backoff(events), e) == (
                backoff_after_failures(failures_since_connect(events) + 1),
                WsAction::Sleep(backoff_after_failures(failures_since_connect(events)) as u64),
            ),
        reconnect_step(trace_backoff(events), WsEvent::Slept).1 == WsAction::Connect,
        reconnect_step(trace_backoff(events), WsEvent::Connected) == (1int, WsAction::Read),
        reconnect_step(trace_backoff(events), WsEvent::Text).1 == WsAction::HandleText,
        reconnect_step(trace_backoff(events), WsEvent::Ping).1 == WsAction::SendPong,
        reconnect_step(trace_backoff(events), WsEvent::Cancelled).1 == WsAction::Stop,
    decreases events.len(),
{
    if events.len() > 0 {
        lemma_reconnect_trace(events.drop_last());
    }
    lemma_backoff_after_failures(failures_since_connect(events));
}

// ---------------------------------------------------------------------------
// Binance streams
// ---------------------------------------------------------------------------

/// The Binance stream base for a market type: the spot base for spot, the
/// futures base otherwise.
pub fn binance_ws_base<'a>(spot_base: &'a str, futures_base: &'a str, market_type: MarketType) -> (r: &'a str)
    ensures
        r@ == (if market_type == MarketType::Spot {
            spot_base@
        } else {
            futures_base@
        }),
{
    match market_type {
        MarketType::Spot => spot_base,
        _ => futures_base,
    }
}

/// The kline stream of a symbol: `{symbol in lower case}@kline_{interval}`.
pub fn binance_kline_stream(symbol: &Symbol, timeframe: Timeframe) -> (r: String)
    ensures
        r@ == lowercase(symbol.raw_symbol@) + "@kline_"@ + binance_interval(timeframe),
{
    let lower = to_lowercase(symbol.raw_symbol.as_str());
    let mut out = concat(lower.as_str(), "@kline_");
    out.append(timeframe.to_binance_str());
    out
}

/// The aggregated-trade stream of a symbol: `{symbol in lower case}@aggTrade`.
pub fn binance_trade_stream(symbol: &Symbol) -> (r: String)
    ensures
        r@ == lowercase(symbol.raw_symbol@) + "@aggTrade"@,
{
    let lower = to_lowercase(symbol.raw_symbol.as_str());
    concat(lower.as_str(), "@aggTrade")
}

/// The depth stream of a symbol: twenty levels every 100 ms.
pub fn binance_depth_stream(symbol: &Symbol) -> (r: String)
    ensures
        r@ == lowercase(symbol.raw_symbol@) + "@depth20@100ms"@,
{
    let lower = to_lowercase(symbol.raw_symbol.as_str());
    concat(lower.as_str(), "@depth20@100ms")
}

/// The URL of a stream: `{base}/{stream}`.
pub fn stream_url(base: &str, stream: &str) -> (r: String)
    ensures
        r@ == base@ + "/"@ + stream@,
{
    let mut out = concat(base, "/");
    out.append(stream);
    out
}

// ---------------------------------------------------------------------------
// Subscription keys, shared by every exchange
// ---------------------------------------------------------------------------

/// The key of a candle subscription: `candle:{raw symbol}:{timeframe}`.
pub fn candle_key(symbol: &Symbol, timeframe: Timeframe) -> (r: String)
    ensures
        r@ == "candle:"@ + symbol.raw_symbol@ + ":"@ + timeframe_text(timeframe),
{
    let mut out = concat("candle:", symbol.raw_symbol.as_str());
    out.append(":");
    out.append(timeframe.as_str());
    out
}

/// The key of a trade subscription: `trade:{raw symbol}`.
pub fn trade_key(symbol: &Symbol) -> (r: String)
    ensures
        r@ == "trade:"@ + symbol.raw_symbol@,
{
    concat("trade:", symbol.raw_symbol.as_str())
}

/// The key of an order-book subscription: `depth:{raw symbol}`.
pub fn depth_key(symbol: &Symbol) -> (r: String)
    ensures
        r@ == "depth:"@ + symbol.raw_symbol@,
{
    concat("depth:", symbol.raw_symbol.as_str())
}

// ---------------------------------------------------------------------------
// Bybit topics
// ---------------------------------------------------------------------------

/// The Bybit stream URL for a market type: the spot URL for spot, the linear
/// URL otherwise.
pub fn bybit_ws_url<'a>(linear_url: &'a str, spot_url: &'a str, market_type: MarketType) -> (r: &'a str)
    ensures
        r@ == (if market_type == MarketType::Spot {
            spot_url@
        } else {
            linear_url@
        }),
{
    match market_type {
        MarketType::Spot => spot_url,
        _ => linear_url,
    }
}

/// The kline topic: `kline.{interval}.{raw symbol}`.
pub fn bybit_kline_topic(symbol: &Symbol, timeframe: Timeframe) -> (r: String)
    ensures
        r@ == "kline."@ + bybit_interval(timeframe) + "."@ + symbol.raw_symbol@,
{
    let mut out = concat("kline.", timeframe.to_bybit_str());
    out.append(".");
    out.append(symbol.raw_symbol.as_str());
    out
}

/// The public trade topic: `publicTrade.{raw symbol}`.
pub fn bybit_trade_topic(symbol: &Symbol) -> (r: String)
    ensures
        r@ == "publicTrade."@ + symbol.raw_symbol@,
{
    concat("publicTrade.", symbol.raw_symbol.as_str())
}

/// The order-book topic, fifty levels: `orderbook.50.{raw symbol}`.
pub fn bybit_orderbook_topic(symbol: &Symbol) -> (r: String)
    ensures
        r@ == "orderbook.50."@ + symbol.raw_symbol@,
{
    concat("orderbook.50.", symbol.raw_symbol.as_str())
}

/// Whether `s` begins with `prefix`.
pub open spec fn has_prefix(s: Seq<char>, prefix: Seq<char>) -> bool {
    prefix.len() <= s.len() && s.subrange(0, prefix.len() as int) == prefix
}

/// The kinds of Bybit stream.
#[derive(Debug, Clone, Copy, PartialEq, Eq, Structural)]
pub enum BybitStream {
    Kline,
    Trade,
    OrderBook,
}

/// The topic prefix that a Bybit stream's messages carry.
pub open spec fn bybit_topic_prefix(stream: BybitStream) -> Seq<char> {
    match stream {
        BybitStream::Kline => "kline."@,
        BybitStream::Trade => "publicTrade."@,
        BybitStream::OrderBook => "orderbook."@,
    }
}

/// Whether a message with this topic (if any) belongs to the stream: it has
/// a topic that begins with the stream's prefix.
pub fn bybit_message_wanted(stream: BybitStream, topic: &Option<String>) -> (r: bool)
    ensures
        r == (topic matches Some(t) && has_prefix(t@, bybit_topic_prefix(stream))),
{
    match topic {
        Some(t) => {
            let prefix = match stream {
                BybitStream::Kline => "kline.",
                BybitStream::Trade => "publicTrade.",
                BybitStream::OrderBook => "orderbook.",
            };
            starts_with(t.as_str(), prefix)
        },
        None => false,
    }
}

// ---------------------------------------------------------------------------
// gate.io channels
// ---------------------------------------------------------------------------

/// The kinds of gate.io stream.
#[derive(Debug, Clone, Copy, PartialEq, Eq, Structural)]
pub enum GateStream {
    Candles,
    Trades,
    OrderBook,
}

/// The channel a gate.io stream subscribes to.
pub open spec fn gate_channel_text(stream: GateStream) -> Seq<char> {
    match stream {
        GateStream::Candles => "spot.candlesticks"@,
        GateStream::Trades => "spot.trades"@,
        GateStream::OrderBook => "spot.order_book_update"@,
    }
}

/// The channel that a gate.io stream subscribes to.
pub fn gate_channel(stream: GateStream) -> (r: &'static str)
    ensures
        r@ == gate_channel_text(stream),
{
    match stream {
        GateStream::Candles => "spot.candlesticks",
        GateStream::Trades => "spot.trades",
        GateStream::OrderBook => "spot.order_book_update",
    }
}

/// Whether `s` holds `part` somewhere.
pub open spec fn has_infix(s: Seq<char>, part: Seq<char>) -> bool {
    exists|i: int| 0 <= i <= s.len() - part.len() && #[trigger] s.subrange(i, i + part.len()) == part
}

/// Whether `s` holds `part` somewhere.
pub fn contains_str(s: &str, part: &str) -> (r: bool)
    ensures
        r == has_infix(s@, part@),
{
    let n = s.unicode_len();
    let m = part.unicode_len();
    if m > n {
        proof {
            assert forall|i: int| 0 <= i <= n - m implies #[trigger] s@.subrange(i, i + m) != part@ by {}
        }
        return false;
    }
    let mut i: usize = 0;
    while i <= n - m
        invariant
            m <= n,
            n == s@.len(),
            m == part@.len(),
            forall|k: int| 0 <= k < i ==> #[trigger] s@.subrange(k, k + m) != part@,
        decreases n - m + 1 - i,
    {
        let mut j: usize = 0;
        let mut same = true;
        while j < m
            invariant
                m <= n,
                i <= n - m,
                n == s@.len(),
                m == part@.len(),
                j <= m,
                same == (forall|k: int| 0 <= k < j ==> s@[i + k] == part@[k]),
            decreases m - j,
        {
            if s.get_char(i + j) != part.get_char(j) {
                same = false;
            }
            j = j + 1;
        }
        if same {
            assert(s@.subrange(i as int, i + m) =~= part@);
            return true;
        }
        proof {
            let k0 = choose|k: int| 0 <= k < m && s@[i + k] != part@[k];
            assert(s@.subrange(i as int, i + m)[k0] != part@[k0]);
        }
        i = i + 1;
    }
    false
}

/// Whether a gate.io message belongs to the stream: an `update` event on the
/// stream's channel (for the order book, any channel that mentions
/// `order_book`).
pub open spec fn gate_message_wanted_spec(stream: GateStream, channel: Option<String>, event: Option<String>) -> bool {
    &&& channel matches Some(c) && (match stream {
        GateStream::OrderBook => has_infix(c@, "order_book"@),
        _ => c@ == gate_channel_text(stream),
    })
    &&& event matches Some(e) && e@ == "update"@
}

/// Whether a gate.io message belongs to the stream.
pub fn gate_message_wanted(stream: GateStream, channel: &Option<String>, event: &Option<String>) -> (r: bool)
    ensures
        r == gate_message_wanted_spec(stream, *channel, *event),
{
    let channel_ok = match channel {
        Some(c) => match stream {
            GateStream::OrderBook => contains_str(c.as_str(), "order_book"),
            _ => str_eq(c.as_str(), gate_channel(stream)),
        },
        None => false,
    };
    let event_ok = match event {
        Some(e) => str_eq(e.as_str(), "update"),
        None => false,
    };
    channel_ok && event_ok
}

} // verus!
