//! The decisions of the command-line tool: how names are shortened in tables,
//! which source a scrape reads, the backtest period and return, and the
//! texts that several commands build from their arguments.
use vstd::prelude::*;

use crate::config::{endpoint_or, ExchangeConfig, ExchangeRegistry};
use crate::decimal::{decimal_div, decimal_mul, decimal_sub, value_lt, Decimal};
use crate::text::{concat, lowercase, str_eq, to_lowercase};
use crate::types::{Candle, Exchange, MarketType, Symbol};

verus! {

// ---------------------------------------------------------------------------
// Shortening names
// ---------------------------------------------------------------------------

/// The number of bytes UTF-8 takes for a character.
pub open spec fn char_utf8_len(c: char) -> nat {
    if (c as u32) < 0x80 {
        1
    } else if (c as u32) < 0x800 {
        2
    } else if (c as u32) < 0x10000 {
        3
    } else {
        4
    }
}

/// The number of bytes UTF-8 takes for a text.
pub open spec fn utf8_len(s: Seq<char>) -> nat
    decreases s.len(),
{
    if s.len() == 0 {
        0
    } else {
        utf8_len(s.drop_last()) + char_utf8_len(s.last())
    }
}

/// Byte offset `b` of a text falls between two characters (or at an end).
pub open spec fn is_char_boundary(s: Seq<char>, b: int) -> bool {
    exists|k: int| 0 <= k <= s.len() && utf8_len(#[trigger] s.subrange(0, k)) == b
}

/// `max - 3`, or zero where `max` is smaller.
pub open spec fn room_for(max: int) -> int {
    if max >= 3 {
        max - 3
    } else {
        0
    }
}

/// The shortened text is the characters that fill the first `max - 3`
/// bytes followed by `...`, where the text has more than `max` bytes.
pub open spec fn truncated(s: Seq<char>, max: int, r: Seq<char>) -> bool {
    if utf8_len(s) > max {
        exists|k: int|
            0 <= k <= s.len() && utf8_len(#[trigger] s.subrange(0, k)) == room_for(max) && r
                == s.subrange(0, k) + "..."@
    } else {
        r == s
    }
}

/// The bytes of two texts put together add up.
proof fn lemma_utf8_len_concat(a: Seq<char>, b: Seq<char>)
    ensures
        utf8_len(a + b) == utf8_len(a) + utf8_len(b),
    decreases b.len(),
{
    if b.len() == 0 {
        assert(a + b =~= a);
    } else {
        assert((a + b).drop_last() =~= a + b.drop_last());
        lemma_utf8_len_concat(a, b.drop_last());
    }
}

/// A longer prefix takes more bytes.
proof fn lemma_prefix_bytes_grow(s: Seq<char>, j: int, k: int)
    requires
        0 <= j < k <= s.len(),
    ensures
        utf8_len(s.subrange(0, j)) < utf8_len(s.subrange(0, k)),
    decreases k - j,
{
    assert(s.subrange(0, k).drop_last() =~= s.subrange(0, k - 1));
    if j < k - 1 {
        lemma_prefix_bytes_grow(s, j, k - 1);
    }
}

fn utf8_width(c: char) -> (r: u32)
    ensures
        r as nat == char_utf8_len(c),
{
    let v = c as u32;
    if v < 0x80 {
        1
    } else if v < 0x800 {
        2
    } else if v < 0x10000 {
        3
    } else {
        4
    }
}

/// Shortens a name to `max` bytes for a table column: a longer name keeps the
/// characters of its first `max - 3` bytes (none when `max` is below 3) and
/// ends with `...`.  The cut must fall between two characters.
pub fn truncate_str(s: &str, max: usize) -> (r: String)
    requires
        utf8_len(s@) > max ==> is_char_boundary(s@, room_for(max as int)),
    ensures
        truncated(s@, max as int, r@),
        max >= 3 ==> utf8_len(r@) <= max,
{
    let n = s.unicode_len();
    let room: u128 = if max >= 3 {
        (max - 3) as u128
    } else {
        0
    };
    let mut bytes: u128 = 0;
    let mut cut: Option<usize> = None;
    let mut i: usize = 0;
    while i < n && bytes <= max as u128
        invariant
            i <= n,
            n == s@.len(),
            room as int == room_for(max as int),
            bytes as int == utf8_len(s@.subrange(0, i as int)),
            bytes <= max as u128 + 4,
            forall|j: int| 0 <= j < i ==> utf8_len(#[trigger] s@.subrange(0, j)) <= max,
            match cut {
                Some(k) => k <= i && utf8_len(s@.subrange(0, k as int)) == room,
                None => forall|j: int| 0 <= j < i ==> utf8_len(#[trigger] s@.subrange(0, j)) != room,
            },
        decreases n - i,
    {
        if bytes == room && cut.is_none() {
            cut = Some(i);
        }
        let c = s.get_char(i);
        proof {
            assert(s@.subrange(0, i + 1).drop_last() =~= s@.subrange(0, i as int));
        }
        bytes = bytes + utf8_width(c) as u128;
        i = i + 1;
    }
    if bytes == room && cut.is_none() {
        cut = Some(i);
    }
    if bytes <= max as u128 {
        proof {
            assert(s@.subrange(0, n as int) =~= s@);
        }
        return String::from_str(s);
    }
    proof {
        // The text is longer than `max` bytes.
        if i < n {
            lemma_prefix_bytes_grow(s@, i as int, n as int);
        }
        assert(s@.subrange(0, n as int) =~= s@);
        assert(utf8_len(s@) > max);
        // The only prefix of `room` bytes is one already seen.
        let k = choose|k: int| 0 <= k <= s@.len() && utf8_len(#[trigger] s@.subrange(0, k)) == room;
        if cut is None {
            if k > i {
                lemma_prefix_bytes_grow(s@, i as int, k);
            }
            assert(false);
        }
    }
    let k = cut.unwrap();
    let mut out = String::from_str(s.substring_char(0, k));
    out.append("...");
    proof {
        assert(out@ =~= s@.subrange(0, k as int) + "..."@);
        reveal_strlit("...");
        lemma_utf8_len_concat(s@.subrange(0, k as int), "..."@);
        let dots = "..."@;
        assert(dots.drop_last().drop_last().drop_last() =~= Seq::<char>::empty());
        reveal_with_fuel(utf8_len, 4);
        assert(utf8_len(dots) == 3);
    }
    out
}

// ---------------------------------------------------------------------------
// Logging
// ---------------------------------------------------------------------------

/// The log level a verbosity count selects: `info`, `debug` once, `trace`
/// from twice on.
pub open spec fn level_text(verbosity: u8) -> Seq<char> {
    if verbosity == 0 {
        "info"@
    } else if verbosity == 1 {
        "debug"@
    } else {
        "trace"@
    }
}

/// The log filter used when the environment sets none: the selected level,
/// with the HTTP and WebSocket libraries kept at `warn`.
pub fn default_log_filter(verbosity: u8) -> (r: String)
    ensures
        r@ == level_text(verbosity) + ",hyper=warn,reqwest=warn,tungstenite=warn"@,
{
    let level = if verbosity == 0 {
        "info"
    } else if verbosity == 1 {
        "debug"
    } else {
        "trace"
    };
    concat(level, ",hyper=warn,reqwest=warn,tungstenite=warn")
}

// ---------------------------------------------------------------------------
// Scraping
// ---------------------------------------------------------------------------

/// Where a scrape reads its leaders.
#[derive(Debug, Clone, Copy, PartialEq, Eq, Structural)]
pub enum ScrapeSource {
    Okx,
    Bybit,
    Binance,
}

/// The source a lower-cased name stands for.
pub open spec fn source_of(t: Seq<char>) -> Option<ScrapeSource> {
    if t == "okx"@ {
        Some(ScrapeSource::Okx)
    } else if t == "bybit"@ {
        Some(ScrapeSource::Bybit)
    } else if t == "binance"@ {
        Some(ScrapeSource::Binance)
    } else {
        None
    }
}

/// Reads a scrape source, ignoring case; the error names the accepted ones.
pub fn scrape_source(source: &str) -> (r: Result<ScrapeSource, String>)
    ensures
        match source_of(lowercase(source@)) {
            Some(s) => r == Ok::<ScrapeSource, String>(s),
            None => r matches Err(m) && m@ == "Unknown source: "@ + source@
                + ". Use: okx, bybit, binance"@,
        },
{
    let lower = to_lowercase(source);
    if str_eq(lower.as_str(), "okx") {
        Ok(ScrapeSource::Okx)
    } else if str_eq(lower.as_str(), "bybit") {
        Ok(ScrapeSource::Bybit)
    } else if str_eq(lower.as_str(), "binance") {
        Ok(ScrapeSource::Binance)
    } else {
        let mut m = concat("Unknown source: ", source);
        m.append(". Use: okx, bybit, binance");
        Err(m)
    }
}

/// The base URL a Bybit scrape uses: the REST endpoint of the `bybit`
/// section where there is one and it sets it, the public API otherwise.
pub fn bybit_scrape_base(section: Option<&ExchangeConfig>) -> (r: String)
    ensures
        r@ == match section {
            Some(c) => endpoint_or(c.rest, "https://api.bybit.com"@),
            None => "https://api.bybit.com"@,
        },
{
    match section {
        Some(c) => match &c.rest {
            Some(u) => u.clone(),
            None => String::from_str("https://api.bybit.com"),
        },
        None => String::from_str("https://api.bybit.com"),
    }
}

// ---------------------------------------------------------------------------
// Commands on one symbol
// ---------------------------------------------------------------------------

/// The symbol a command works on: only its raw name, market and exchange.
pub fn command_symbol(raw: &str, market_type: MarketType, exchange: Exchange) -> (r: Symbol)
    ensures
        r.base@.len() == 0,
        r.quote@.len() == 0,
        r.market_type == market_type,
        r.exchange == exchange,
        r.raw_symbol@ == raw@,
{
    Symbol {
        base: String::new(),
        quote: String::new(),
        market_type,
        exchange,
        raw_symbol: String::from_str(raw),
    }
}

/// The message of a command whose exchange has no connector.
pub fn not_configured_message(exchange: Exchange, with_disabled: bool) -> (r: String)
    ensures
        r@ == "Exchange "@ + crate::types::exchange_text(exchange) + (if with_disabled {
            " not configured or disabled"@
        } else {
            " not configured"@
        }),
{
    let mut m = concat("Exchange ", exchange.as_str());
    if with_disabled {
        m.append(" not configured or disabled");
    } else {
        m.append(" not configured");
    }
    m
}

/// The exchange a simulation streams from: Binance where it has a connector,
/// else OKX where it has one.
pub fn simulation_exchange<C>(registry: &ExchangeRegistry<C>) -> (r: Option<Exchange>)
    ensures
        registry.slot(Exchange::Binance) is Some ==> r == Some(Exchange::Binance),
        registry.slot(Exchange::Binance) is None && registry.slot(Exchange::Okx) is Some ==> r
            == Some(Exchange::Okx),
        registry.slot(Exchange::Binance) is None && registry.slot(Exchange::Okx) is None ==> r
            is None,
{
    if registry.get(Exchange::Binance).is_some() {
        Some(Exchange::Binance)
    } else if registry.get(Exchange::Okx).is_some() {
        Some(Exchange::Okx)
    } else {
        None
    }
}

// ---------------------------------------------------------------------------
// Backtests
// ---------------------------------------------------------------------------

/// What `chrono::NaiveDate::parse_from_str(s, "%Y-%m-%d")` makes of a text:
/// the day's distance from 1970-01-01 in days, or `None` where it refuses it.
pub uninterp spec fn calendar_day(s: Seq<char>) -> Option<int>;

/// The message of the error that chrono gives for a text it refuses as a
/// `%Y-%m-%d` date.
pub uninterp spec fn calendar_day_error(s: Seq<char>) -> Seq<char>;

/// Calls `chrono::NaiveDate::parse_from_str` with `%Y-%m-%d`; the day (as
/// days since 1970-01-01) is named by `calendar_day` and the error's message
/// by `calendar_day_error`.  chrono's dates lie within about 262,000 years
/// of 1970, so the day count is within a hundred million.
#[verifier::external_body]
fn parse_calendar_day(s: &str) -> (r: Result<i64, String>)
    ensures
        match calendar_day(s@) {
            Some(d) => r == Ok::<i64, String>(d as i64) && -100_000_000 <= d <= 100_000_000,
            None => r matches Err(m) && m@ == calendar_day_error(s@),
        },
{
    match chrono::NaiveDate::parse_from_str(s, "%Y-%m-%d") {
        Ok(d) => Ok(d.signed_duration_since(chrono::NaiveDate::default()).num_days()),
        Err(e) => Err(e.to_string()),
    }
}

/// The period a backtest covers in milliseconds: from the start of the first
/// day to the last second of the last day.
pub open spec fn period_of(start_day: int, end_day: int) -> (int, int) {
    (start_day * 86400000, end_day * 86400000 + 86399000)
}

/// The period of a backtest from its two `%Y-%m-%d` dates; an unreadable
/// date is an error naming it.
pub fn backtest_period(start: &str, end: &str) -> (r: Result<(i64, i64), String>)
    ensures
        match (calendar_day(start@), calendar_day(end@)) {
            (Some(s), Some(e)) => r matches Ok(p) && (p.0 as int, p.1 as int) == period_of(s, e),
            (None, _) => r matches Err(m) && m@ == "Invalid start date: "@ + calendar_day_error(
                start@,
            ),
            (Some(_), None) => r matches Err(m) && m@ == "Invalid end date: "@
                + calendar_day_error(end@),
        },
{
    let s = match parse_calendar_day(start) {
        Ok(d) => d,
        Err(e) => {
            return Err(concat("Invalid start date: ", e.as_str()));
        },
    };
    let e = match parse_calendar_day(end) {
        Ok(d) => d,
        Err(m) => {
            return Err(concat("Invalid end date: ", m.as_str()));
        },
    };
    Ok((s * 86400000, e * 86400000 + 86399000))
}

/// How many candles, from the first, open no later than `end_ms`: a backtest
/// stops at the first candle that opens after its period.
pub fn candles_within(candles: &Vec<Candle>, end_ms: i64) -> (r: usize)
    ensures
        r <= candles@.len(),
        forall|k: int| 0 <= k < r ==> (#[trigger] candles@[k]).open_time <= end_ms,
        r < candles@.len() ==> candles@[r as int].open_time > end_ms,
{
    let mut i: usize = 0;
    while i < candles.len()
        invariant
            i <= candles@.len(),
            forall|k: int| 0 <= k < i ==> (#[trigger] candles@[k]).open_time <= end_ms,
        decreases candles.len() - i,
    {
        if candles[i].open_time > end_ms {
            return i;
        }
        i = i + 1;
    }
    i
}

/// The return of a backtest in percent: `(equity - capital) / capital * 100`
/// where the capital is positive, zero otherwise; `None` where an operation
/// overflows.
pub open spec fn roi_of(equity: (int, nat), capital: (int, nat)) -> Option<(int, nat)> {
    if value_lt((0, 0), capital) {
        match decimal_sub(equity, capital) {
            Some(gain) => match decimal_div(gain, capital) {
                Some(ratio) => decimal_mul(ratio, (100, 0)),
                None => None,
            },
            None => None,
        }
    } else {
        Some((0, 0))
    }
}

/// The return of a backtest in percent.
pub fn backtest_roi(equity: Decimal, capital: Decimal) -> (r: Decimal)
    requires
        roi_of(equity@, capital@) is Some,
    ensures
        roi_of(equity@, capital@) == Some(r@),
{
    match checked_backtest_roi(equity, capital) {
        Some(v) => v,
        None => Decimal::zero(),
    }
}

/// The return of a backtest in percent, `None` where an operation overflows.
pub fn checked_backtest_roi(equity: Decimal, capital: Decimal) -> (r: Option<Decimal>)
    ensures
        match roi_of(equity@, capital@) {
            Some(v) => r matches Some(d) && d@ == v,
            None => r is None,
        },
{
    if Decimal::zero().lt(&capital) {
        let gain = match equity.checked_sub(&capital) {
            Some(g) => g,
            None => {
                return None;
            },
        };
        let ratio = match gain.checked_div(&capital) {
            Some(q) => q,
            None => {
                return None;
            },
        };
        ratio.checked_mul(&Decimal::one_hundred())
    } else {
        Some(Decimal::zero())
    }
}

/// A capital read from its text, `default` where the text is not a decimal.
pub fn capital_or(text: &str, default: Decimal) -> (r: Decimal)
    ensures
        r@ == match crate::decimal::decimal_from_str(text@) {
            Some(v) => v,
            None => default@,
        },
{
    match Decimal::parse(text) {
        Some(d) => d,
        None => default,
    }
}

} // verus!
