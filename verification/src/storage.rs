//! The SQLite stores of candles and positions: the rows they write, how a row
//! read back becomes a value, the candle query, and the realised-profit sum.
//!
//! The database itself is reached outside the library; here are the values
//! that go into its statements and what is made of the columns that come back.
use vstd::prelude::*;

use crate::decimal::{decimal_add, decimal_display, decimal_from_str, decimal_or_zero, Decimal};
use crate::text::{decimal_text, lowercase, str_eq, u64_to_string};
use crate::time::{chrono_millis_in_range, millis_in_range, millis_or_now, stamped};
use crate::timeframe::{timeframe_from_lowercase, timeframe_text, Timeframe};
use crate::types::{
    exchange_from_lowercase, exchange_text, side_text, Candle, Exchange, MarketType, Side,
    SimPosition, Symbol,
};

verus! {

// ---------------------------------------------------------------------------
// Candles
// ---------------------------------------------------------------------------

/// The columns of a stored candle, in table order.
#[derive(Debug)]
pub struct CandleRow {
    pub exchange: String,
    pub symbol: String,
    pub timeframe: String,
    pub open_time: i64,
    pub close_time: i64,
    pub open: String,
    pub high: String,
    pub low: String,
    pub close: String,
    pub volume: String,
    pub quote_volume: String,
    pub trades_count: i64,
}

/// The row that stores a candle: names and decimals as text (each text
/// parses back to its number), times in milliseconds, the trade count as a
/// signed integer.
pub open spec fn candle_row_of(c: Candle, row: CandleRow) -> bool {
    &&& row.exchange@ == exchange_text(c.symbol.exchange)
    &&& row.symbol@ == c.symbol.raw_symbol@
    &&& row.timeframe@ == timeframe_text(c.timeframe)
    &&& row.open_time == c.open_time
    &&& row.close_time == c.close_time
    &&& row.open@ == decimal_display(c.open@)
    &&& decimal_from_str(row.open@) == Some(c.open@)
    &&& row.high@ == decimal_display(c.high@)
    &&& decimal_from_str(row.high@) == Some(c.high@)
    &&& row.low@ == decimal_display(c.low@)
    &&& decimal_from_str(row.low@) == Some(c.low@)
    &&& row.close@ == decimal_display(c.close@)
    &&& decimal_from_str(row.close@) == Some(c.close@)
    &&& row.volume@ == decimal_display(c.volume@)
    &&& decimal_from_str(row.volume@) == Some(c.volume@)
    &&& row.quote_volume@ == decimal_display(c.quote_volume@)
    &&& decimal_from_str(row.quote_volume@) == Some(c.quote_volume@)
    &&& row.trades_count == c.trades_count as i64
}

/// The row that stores a candle.
pub fn candle_to_row(c: &Candle) -> (row: CandleRow)
    ensures
        candle_row_of(*c, row),
{
    CandleRow {
        exchange: String::from_str(c.symbol.exchange.as_str()),
        symbol: c.symbol.raw_symbol.clone(),
        timeframe: String::from_str(c.timeframe.as_str()),
        open_time: c.open_time,
        close_time: c.close_time,
        open: c.open.to_text(),
        high: c.high.to_text(),
        low: c.low.to_text(),
        close: c.close.to_text(),
        volume: c.volume.to_text(),
        quote_volume: c.quote_volume.to_text(),
        trades_count: c.trades_count as i64,
    }
}

/// The timeframe a stored name denotes, one minute where it denotes none.
pub open spec fn stored_timeframe(name: Seq<char>) -> Timeframe {
    match timeframe_from_lowercase(lowercase(name)) {
        Some(tf) => tf,
        None => Timeframe::M1,
    }
}

/// The candle read back from a row of the given exchange: the symbol keeps
/// only its raw name (linear perpetual, no base or quote), an unknown
/// timeframe is one minute, a time chrono refuses is the current time, a text
/// that is not a decimal is zero, and the candle is closed.
pub open spec fn candle_of_row(exchange: Exchange, row: CandleRow, c: Candle) -> bool {
    &&& c.symbol.base@.len() == 0
    &&& c.symbol.quote@.len() == 0
    &&& c.symbol.market_type == MarketType::LinearPerpetual
    &&& c.symbol.exchange == exchange
    &&& c.symbol.raw_symbol@ == row.symbol@
    &&& c.timeframe == stored_timeframe(row.timeframe@)
    &&& stamped(row.open_time as int, c.open_time as int)
    &&& stamped(row.close_time as int, c.close_time as int)
    &&& c.open@ == decimal_or_zero(row.open@)
    &&& c.high@ == decimal_or_zero(row.high@)
    &&& c.low@ == decimal_or_zero(row.low@)
    &&& c.close@ == decimal_or_zero(row.close@)
    &&& c.volume@ == decimal_or_zero(row.volume@)
    &&& c.quote_volume@ == decimal_or_zero(row.quote_volume@)
    &&& c.trades_count == row.trades_count as u64
    &&& c.is_closed
}

/// The candle read back from a row of the given exchange.
pub fn candle_from_row(exchange: Exchange, row: &CandleRow) -> (c: Candle)
    ensures
        candle_of_row(exchange, *row, c),
{
    let timeframe = match Timeframe::parse(row.timeframe.as_str()) {
        Ok(tf) => tf,
        Err(_) => Timeframe::M1,
    };
    Candle {
        symbol: Symbol {
            base: String::new(),
            quote: String::new(),
            market_type: MarketType::LinearPerpetual,
            exchange,
            raw_symbol: row.symbol.clone(),
        },
        timeframe,
        open_time: millis_or_now(row.open_time),
        close_time: millis_or_now(row.close_time),
        open: Decimal::parse_or_zero(row.open.as_str()),
        high: Decimal::parse_or_zero(row.high.as_str()),
        low: Decimal::parse_or_zero(row.low.as_str()),
        close: Decimal::parse_or_zero(row.close.as_str()),
        volume: Decimal::parse_or_zero(row.volume.as_str()),
        quote_volume: Decimal::parse_or_zero(row.quote_volume.as_str()),
        trades_count: row.trades_count as u64,
        is_closed: true,
    }
}

/// The candle query: the candles of one exchange, symbol and timeframe
/// (`?1`, `?2`, `?3`), from `?4` where a start is given, up to `?5` where an
/// end is given, oldest first, and at most `limit` of them where one is given.
pub open spec fn candle_query_text(has_start: bool, has_end: bool, limit: Option<u32>) -> Seq<char> {
    "SELECT exchange, symbol, timeframe, open_time, close_time, open, high, low, close, volume, quote_volume, trades_count\n             FROM candles WHERE exchange = ?1 AND symbol = ?2 AND timeframe = ?3"@
        + (if has_start {
        " AND open_time >= ?4"@
    } else {
        Seq::empty()
    }) + (if has_end {
        " AND open_time <= ?5"@
    } else {
        Seq::empty()
    }) + " ORDER BY open_time ASC"@ + match limit {
        Some(l) => " LIMIT "@ + decimal_text(l as nat),
        None => Seq::empty(),
    }
}

/// The text of the candle query.
pub fn candle_query_sql(has_start: bool, has_end: bool, limit: Option<u32>) -> (r: String)
    ensures
        r@ == candle_query_text(has_start, has_end, limit),
{
    let mut sql = String::from_str(
        "SELECT exchange, symbol, timeframe, open_time, close_time, open, high, low, close, volume, quote_volume, trades_count\n             FROM candles WHERE exchange = ?1 AND symbol = ?2 AND timeframe = ?3",
    );
    if has_start {
        sql.append(" AND open_time >= ?4");
    }
    if has_end {
        sql.append(" AND open_time <= ?5");
    }
    sql.append(" ORDER BY open_time ASC");
    if let Some(l) = limit {
        sql.append(" LIMIT ");
        sql.append(u64_to_string(l as u64).as_str());
    }
    assert(sql@ =~= candle_query_text(has_start, has_end, limit));
    sql
}

/// The five values bound to the candle query: the exchange and timeframe
/// names, the symbol, the start (0 where none is given) and the end
/// (`i64::MAX` where none is given).
pub fn candle_query_params(exchange: Exchange, symbol_raw: &str, timeframe: Timeframe, start: Option<i64>, end: Option<i64>) -> (r: (String, String, String, i64, i64))
    ensures
        r.0@ == exchange_text(exchange),
        r.1@ == symbol_raw@,
        r.2@ == timeframe_text(timeframe),
        r.3 == match start {
            Some(s) => s,
            None => 0,
        },
        r.4 == match end {
            Some(e) => e,
            None => i64::MAX,
        },
{
    let start_ms = match start {
        Some(s) => s,
        None => 0,
    };
    let end_ms = match end {
        Some(e) => e,
        None => i64::MAX,
    };
    (
        String::from_str(exchange.as_str()),
        String::from_str(symbol_raw),
        String::from_str(timeframe.as_str()),
        start_ms,
        end_ms,
    )
}

// ---------------------------------------------------------------------------
// Positions
// ---------------------------------------------------------------------------

/// The columns of a stored position, in table order.
#[derive(Debug)]
pub struct PositionRow {
    pub id: String,
    pub exchange: String,
    pub symbol: String,
    pub side: String,
    pub entry_price: String,
    pub quantity: String,
    pub unrealized_pnl: String,
    pub realized_pnl: String,
    pub opened_at: i64,
    pub closed_at: Option<i64>,
    pub usd_size: String,
}

/// A lower-case hexadecimal digit.
pub open spec fn hex_digit(d: nat) -> char {
    if d < 10 {
        ((d + 48) as u32) as char
    } else {
        ((d + 87) as u32) as char
    }
}

/// The last `n` hexadecimal digits of `v`, most significant first.
pub open spec fn hex_digits(v: nat, n: nat) -> Seq<char>
    decreases n,
{
    if n == 0 {
        Seq::empty()
    } else {
        hex_digits(v / 16, (n - 1) as nat).push(hex_digit(v % 16))
    }
}

/// The hyphenated lower-case text of a UUID held as its 128-bit value:
/// 8, 4, 4, 4 and 12 hexadecimal digits.
pub open spec fn uuid_text(id: u128) -> Seq<char> {
    let h = hex_digits(id as nat, 32);
    h.subrange(0, 8) + "-"@ + h.subrange(8, 12) + "-"@ + h.subrange(12, 16) + "-"@ + h.subrange(
        16,
        20,
    ) + "-"@ + h.subrange(20, 32)
}

/// Calls `uuid::Uuid::from_u128` and `to_string`, which prints the hyphenated
/// lower-case form; `Uuid::parse_str` reads that form back as the same id.
#[verifier::external_body]
fn uuid_to_string(id: u128) -> (r: String)
    ensures
        r@ == uuid_text(id),
        uuid_from_str(r@) == Some(id),
{
    uuid::Uuid::from_u128(id).to_string()
}

/// What `uuid::Uuid::parse_str` makes of a text, as the 128-bit value, or
/// `None` where it refuses the text.
pub uninterp spec fn uuid_from_str(s: Seq<char>) -> Option<u128>;

/// Calls `uuid::Uuid::parse_str`; the result is named by `uuid_from_str`.
#[verifier::external_body]
fn uuid_parse(s: &str) -> (r: Option<u128>)
    ensures
        r == uuid_from_str(s@),
{
    match uuid::Uuid::parse_str(s) {
        Ok(u) => Some(u.as_u128()),
        Err(_) => None,
    }
}

/// Calls `uuid::Uuid::new_v4`: a random identifier, of which nothing is stated.
#[verifier::external_body]
pub(crate) fn uuid_random() -> (r: u128) {
    uuid::Uuid::new_v4().as_u128()
}

/// The row that stores a position; its id text reads back as the id.
pub open spec fn position_row_of(p: SimPosition, row: PositionRow) -> bool {
    &&& row.id@ == uuid_text(p.id)
    &&& uuid_from_str(row.id@) == Some(p.id)
    &&& row.exchange@ == exchange_text(p.symbol.exchange)
    &&& row.symbol@ == p.symbol.raw_symbol@
    &&& row.side@ == side_text(p.side)
    &&& row.entry_price@ == decimal_display(p.entry_price@)
    &&& decimal_from_str(row.entry_price@) == Some(p.entry_price@)
    &&& row.quantity@ == decimal_display(p.quantity@)
    &&& decimal_from_str(row.quantity@) == Some(p.quantity@)
    &&& row.unrealized_pnl@ == decimal_display(p.unrealized_pnl@)
    &&& decimal_from_str(row.unrealized_pnl@) == Some(p.unrealized_pnl@)
    &&& row.realized_pnl@ == decimal_display(p.realized_pnl@)
    &&& decimal_from_str(row.realized_pnl@) == Some(p.realized_pnl@)
    &&& row.opened_at == p.opened_at
    &&& row.closed_at == p.closed_at
    &&& row.usd_size@ == decimal_display(p.usd_size@)
    &&& decimal_from_str(row.usd_size@) == Some(p.usd_size@)
}

/// The row that stores a position.
pub fn position_to_row(p: &SimPosition) -> (row: PositionRow)
    ensures
        position_row_of(*p, row),
{
    PositionRow {
        id: uuid_to_string(p.id),
        exchange: String::from_str(p.symbol.exchange.as_str()),
        symbol: p.symbol.raw_symbol.clone(),
        side: String::from_str(p.side.as_str()),
        entry_price: p.entry_price.to_text(),
        quantity: p.quantity.to_text(),
        unrealized_pnl: p.unrealized_pnl.to_text(),
        realized_pnl: p.realized_pnl.to_text(),
        opened_at: p.opened_at,
        closed_at: p.closed_at,
        usd_size: p.usd_size.to_text(),
    }
}

/// The exchange a stored name denotes, Binance where it denotes none.
pub open spec fn stored_exchange(name: Seq<char>) -> Exchange {
    match exchange_from_lowercase(lowercase(name)) {
        Some(e) => e,
        None => Exchange::Binance,
    }
}

/// The position read back from a row: an id that does not parse is replaced
/// by a fresh one, an unknown exchange is Binance, any side but `LONG` is
/// short, the symbol keeps only its raw name, a text that is not a decimal is
/// zero, an opening time chrono refuses is the current time and a closing time
/// it refuses is dropped.
pub open spec fn position_of_row(row: PositionRow, p: SimPosition) -> bool {
    &&& uuid_from_str(row.id@) matches Some(id) ==> p.id == id
    &&& p.symbol.base@.len() == 0
    &&& p.symbol.quote@.len() == 0
    &&& p.symbol.market_type == MarketType::LinearPerpetual
    &&& p.symbol.exchange == stored_exchange(row.exchange@)
    &&& p.symbol.raw_symbol@ == row.symbol@
    &&& p.side == (if row.side@ == "LONG"@ {
        Side::Long
    } else {
        Side::Short
    })
    &&& p.entry_price@ == decimal_or_zero(row.entry_price@)
    &&& p.quantity@ == decimal_or_zero(row.quantity@)
    &&& p.unrealized_pnl@ == decimal_or_zero(row.unrealized_pnl@)
    &&& p.realized_pnl@ == decimal_or_zero(row.realized_pnl@)
    &&& stamped(row.opened_at as int, p.opened_at as int)
    &&& p.closed_at == match row.closed_at {
        Some(ms) => if chrono_millis_in_range(ms as int) {
            Some(ms)
        } else {
            None
        },
        None => None,
    }
    &&& p.usd_size@ == decimal_or_zero(row.usd_size@)
}

/// The position read back from a row.
pub fn position_from_row(row: &PositionRow) -> (p: SimPosition)
    ensures
        position_of_row(*row, p),
{
    let id = match uuid_parse(row.id.as_str()) {
        Some(u) => u,
        None => uuid_random(),
    };
    let exchange = match Exchange::parse(row.exchange.as_str()) {
        Ok(e) => e,
        Err(_) => Exchange::Binance,
    };
    let side = if str_eq(row.side.as_str(), "LONG") {
        Side::Long
    } else {
        Side::Short
    };
    let closed_at = match row.closed_at {
        Some(ms) => if millis_in_range(ms) {
            Some(ms)
        } else {
            None
        },
        None => None,
    };
    SimPosition {
        id,
        symbol: Symbol {
            base: String::new(),
            quote: String::new(),
            market_type: MarketType::LinearPerpetual,
            exchange,
            raw_symbol: row.symbol.clone(),
        },
        side,
        entry_price: Decimal::parse_or_zero(row.entry_price.as_str()),
        quantity: Decimal::parse_or_zero(row.quantity.as_str()),
        unrealized_pnl: Decimal::parse_or_zero(row.unrealized_pnl.as_str()),
        realized_pnl: Decimal::parse_or_zero(row.realized_pnl.as_str()),
        opened_at: millis_or_now(row.opened_at),
        closed_at,
        usd_size: Decimal::parse_or_zero(row.usd_size.as_str()),
    }
}

/// A candle written to a row and read back keeps its exchange, raw symbol,
/// times, prices, volumes, trade count and timeframe, except that a monthly
/// candle reads back as a one-minute one.
pub proof fn lemma_candle_row_round_trip(c: Candle, row: CandleRow, back: Candle)
    requires
        candle_row_of(c, row),
        candle_of_row(c.symbol.exchange, row, back),
        chrono_millis_in_range(c.open_time as int),
        chrono_millis_in_range(c.close_time as int),
        c.trades_count <= i64::MAX,
    ensures
        back.symbol.exchange == c.symbol.exchange,
        back.symbol.raw_symbol@ == c.symbol.raw_symbol@,
        back.open_time == c.open_time,
        back.close_time == c.close_time,
        back.trades_count == c.trades_count,
        c.timeframe != Timeframe::MN1 ==> back.timeframe == c.timeframe,
        c.timeframe == Timeframe::MN1 ==> back.timeframe == Timeframe::M1,
        back.open@ == c.open@,
        back.high@ == c.high@,
        back.low@ == c.low@,
        back.close@ == c.close@,
        back.volume@ == c.volume@,
        back.quote_volume@ == c.quote_volume@,
        back.is_closed,
{
    crate::timeframe::lemma_timeframe_name_round_trip(c.timeframe);
}

/// A position written to a row and read back keeps its id, exchange, raw
/// symbol, side, prices, quantity, profits, size and opening and closing
/// times.
pub proof fn lemma_position_row_round_trip(p: SimPosition, row: PositionRow, back: SimPosition)
    requires
        position_row_of(p, row),
        position_of_row(row, back),
        chrono_millis_in_range(p.opened_at as int),
        p.closed_at matches Some(t) ==> chrono_millis_in_range(t as int),
    ensures
        back.id == p.id,
        back.symbol.exchange == p.symbol.exchange,
        back.symbol.raw_symbol@ == p.symbol.raw_symbol@,
        back.side == p.side,
        back.opened_at == p.opened_at,
        back.closed_at == p.closed_at,
        back.entry_price@ == p.entry_price@,
        back.quantity@ == p.quantity@,
        back.unrealized_pnl@ == p.unrealized_pnl@,
        back.realized_pnl@ == p.realized_pnl@,
        back.usd_size@ == p.usd_size@,
{
    crate::types::lemma_exchange_name_round_trip(p.symbol.exchange);
    reveal_strlit("LONG");
    reveal_strlit("SHORT");
    if p.side == Side::Short {
        assert("SHORT"@ != "LONG"@) by {
            assert("SHORT"@.len() != "LONG"@.len());
        }
    }
}

/// The sum of the realised profits stored as texts, zero onwards and in
/// order, a text that is not a decimal counting as zero; `None` where an
/// addition overflows.
pub open spec fn realized_sum(texts: Seq<String>) -> Option<(int, nat)>
    decreases texts.len(),
{
    if texts.len() == 0 {
        Some((0, 0))
    } else {
        match realized_sum(texts.drop_last()) {
            Some(total) => decimal_add(total, decimal_or_zero(texts.last()@)),
            None => None,
        }
    }
}

/// The sum of the realised profits of closed positions, read as texts.
pub fn total_realized_pnl(texts: &Vec<String>) -> (r: Decimal)
    requires
        realized_sum(texts@) is Some,
    ensures
        realized_sum(texts@) == Some(r@),
{
    match checked_total_realized_pnl(texts) {
        Some(t) => t,
        None => Decimal::zero(),
    }
}

/// The sum of the realised profits where no addition overflows, `None`
/// otherwise.
pub fn checked_total_realized_pnl(texts: &Vec<String>) -> (r: Option<Decimal>)
    ensures
        match realized_sum(texts@) {
            Some(v) => r matches Some(d) && d@ == v,
            None => r is None,
        },
{
    let mut total = Decimal::zero();
    let mut i: usize = 0;
    while i < texts.len()
        invariant
            i <= texts.len(),
            realized_sum(texts@.subrange(0, i as int)) == Some(total@),
        decreases texts.len() - i,
    {
        proof {
            assert(texts@.subrange(0, i + 1).drop_last() =~= texts@.subrange(0, i as int));
        }
        let value = Decimal::parse_or_zero(texts[i].as_str());
        match total.checked_add(&value) {
            Some(t) => {
                total = t;
            },
            None => {
                proof {
                    lemma_realized_sum_stays_none(texts@, i as int + 1);
                }
                return None;
            },
        }
        i = i + 1;
    }
    assert(texts@.subrange(0, texts.len() as int) =~= texts@);
    Some(total)
}

/// Once a prefix overflows, every longer prefix does.
proof fn lemma_realized_sum_stays_none(texts: Seq<String>, k: int)
    requires
        0 <= k <= texts.len(),
        realized_sum(texts.subrange(0, k)) is None,
    ensures
        realized_sum(texts) is None,
    decreases texts.len() - k,
{
    if k < texts.len() {
        assert(texts.subrange(0, k + 1).drop_last() =~= texts.subrange(0, k));
        lemma_realized_sum_stays_none(texts, k + 1);
    } else {
        assert(texts.subrange(0, k) =~= texts);
    }
}

} // verus!
