//! How a trading session reads its arguments: comma-separated symbols and
//! exchanges, the timeframe, and the symbols it streams.
use vstd::prelude::*;

use crate::text::{lowercase, push_char, to_uppercase, uppercase};
use crate::timeframe::{timeframe_from_lowercase, Timeframe};
use crate::decimal::{decimal_div, Decimal};
use crate::storage::uuid_random;
use crate::time::{chrono_millis_in_range, now_millis};
use crate::types::{
    exchange_from_lowercase, Exchange, MarketType, OrderStatus, OrderType, Side, SimOrder, Symbol,
};

verus! {

// ---------------------------------------------------------------------------
// Splitting and trimming
// ---------------------------------------------------------------------------

/// The pieces of a text between the occurrences of `c`, as `str::split`
/// gives them: one more piece than there are separators.
pub open spec fn pieces(s: Seq<char>, c: char) -> Seq<Seq<char>>
    decreases s.len(),
{
    if s.len() == 0 {
        seq![Seq::empty()]
    } else {
        let p = pieces(s.drop_last(), c);
        if s.last() == c {
            p.push(Seq::empty())
        } else {
            p.update(p.len() - 1, p.last().push(s.last()))
        }
    }
}

proof fn lemma_pieces_nonempty(s: Seq<char>, c: char)
    ensures
        pieces(s, c).len() >= 1,
    decreases s.len(),
{
    if s.len() > 0 {
        lemma_pieces_nonempty(s.drop_last(), c);
    }
}

/// The texts of a list of strings.
pub open spec fn texts(v: Seq<String>) -> Seq<Seq<char>> {
    v.map_values(|t: String| t@)
}

/// Splits a text at every `c`.
pub fn split_char(s: &str, c: char) -> (r: Vec<String>)
    ensures
        texts(r@) == pieces(s@, c),
{
    let n = s.unicode_len();
    let mut done: Vec<String> = Vec::new();
    let mut current = String::new();
    let mut i: usize = 0;
    while i < n
        invariant
            i <= n,
            n == s@.len(),
            texts(done@).push(current@) == pieces(s@.subrange(0, i as int), c),
        decreases n - i,
    {
        let ch = s.get_char(i);
        proof {
            let pre = s@.subrange(0, i as int);
            assert(s@.subrange(0, i + 1).drop_last() =~= pre);
            assert(s@.subrange(0, i + 1).last() == ch);
            lemma_pieces_nonempty(pre, c);
        }
        let ghost before_done = done@;
        let ghost before_current = current@;
        if ch == c {
            let finished = current;
            done.push(finished);
            current = String::new();
            proof {
                assert(texts(done@) =~= texts(before_done).push(before_current));
                assert(texts(done@).push(current@) =~= pieces(s@.subrange(0, i + 1), c));
            }
        } else {
            push_char(&mut current, ch);
            proof {
                assert(texts(done@).push(current@) =~= pieces(s@.subrange(0, i + 1), c));
            }
        }
        i = i + 1;
    }
    done.push(current);
    proof {
        assert(s@.subrange(0, n as int) =~= s@);
        assert(texts(done@) =~= texts(done@.drop_last()).push(done@.last()@));
    }
    done
}

/// Whether a character has the Unicode `White_Space` property.
pub uninterp spec fn white_space(c: char) -> bool;

/// Calls `char::is_whitespace`, whose answer is named by `white_space`.
#[verifier::external_body]
fn is_white_space(c: char) -> (r: bool)
    ensures
        r == white_space(c),
{
    c.is_whitespace()
}

/// A text without its leading white space.
pub open spec fn trim_start(s: Seq<char>) -> Seq<char>
    decreases s.len(),
{
    if s.len() > 0 && white_space(s[0]) {
        trim_start(s.subrange(1, s.len() as int))
    } else {
        s
    }
}

/// A text without its trailing white space.
pub open spec fn trim_end(s: Seq<char>) -> Seq<char>
    decreases s.len(),
{
    if s.len() > 0 && white_space(s.last()) {
        trim_end(s.drop_last())
    } else {
        s
    }
}

/// A text without its leading and trailing white space (`str::trim`).
pub open spec fn trimmed(s: Seq<char>) -> Seq<char> {
    trim_end(trim_start(s))
}

proof fn lemma_trim_start_at(s: Seq<char>, i: int)
    requires
        0 <= i <= s.len(),
        forall|j: int| 0 <= j < i ==> white_space(#[trigger] s[j]),
        i < s.len() ==> !white_space(s[i]),
    ensures
        trim_start(s) == s.subrange(i, s.len() as int),
    decreases i,
{
    if i == 0 {
        assert(s.subrange(0, s.len() as int) =~= s);
    } else {
        let t = s.subrange(1, s.len() as int);
        assert forall|j: int| 0 <= j < i - 1 implies white_space(#[trigger] t[j]) by {
            assert(t[j] == s[j + 1]);
        }
        lemma_trim_start_at(t, i - 1);
        assert(t.subrange(i - 1, t.len() as int) =~= s.subrange(i, s.len() as int));
    }
}

proof fn lemma_trim_end_at(s: Seq<char>, k: int)
    requires
        0 <= k <= s.len(),
        forall|j: int| k <= j < s.len() ==> white_space(#[trigger] s[j]),
        k > 0 ==> !white_space(s[k - 1]),
    ensures
        trim_end(s) == s.subrange(0, k),
    decreases s.len() - k,
{
    if k == s.len() {
        assert(s.subrange(0, k) =~= s);
    } else {
        let t = s.drop_last();
        lemma_trim_end_at(t, k);
        assert(t.subrange(0, k) =~= s.subrange(0, k));
    }
}

/// A text without its leading and trailing white space.
pub fn trim(s: &str) -> (r: String)
    ensures
        r@ == trimmed(s@),
{
    let n = s.unicode_len();
    let mut i: usize = 0;
    while i < n && is_white_space(s.get_char(i))
        invariant
            i <= n,
            n == s@.len(),
            forall|j: int| 0 <= j < i ==> white_space(#[trigger] s@[j]),
        decreases n - i,
    {
        i = i + 1;
    }
    proof {
        lemma_trim_start_at(s@, i as int);
    }
    let ghost t = s@.subrange(i as int, n as int);
    let mut k: usize = n;
    while k > i && is_white_space(s.get_char(k - 1))
        invariant
            i <= k <= n,
            n == s@.len(),
            t == s@.subrange(i as int, n as int),
            forall|j: int| k <= j < n ==> white_space(#[trigger] s@[j]),
        decreases k - i,
    {
        k = k - 1;
    }
    proof {
        assert forall|j: int| k - i <= j < t.len() implies white_space(#[trigger] t[j]) by {
            assert(t[j] == s@[j + i]);
        }
        if k > i {
            assert(t[k - i - 1] == s@[k - 1]);
        }
        lemma_trim_end_at(t, k - i);
        assert(t.subrange(0, k - i) =~= s@.subrange(i as int, k as int));
    }
    String::from_str(s.substring_char(i, k))
}

// ---------------------------------------------------------------------------
// Session arguments
// ---------------------------------------------------------------------------

/// The symbols of a comma-separated list: each piece trimmed and upper-cased,
/// empty ones dropped.
pub open spec fn symbol_list(s: Seq<char>) -> Seq<Seq<char>> {
    pieces(s, ',').map_values(|p: Seq<char>| uppercase(trimmed(p))).filter(
        |t: Seq<char>| t.len() > 0,
    )
}

/// Reads a comma-separated list of symbols.
pub fn parse_symbol_list(s: &str) -> (r: Vec<String>)
    ensures
        texts(r@) == symbol_list(s@),
{
    let parts = split_char(s, ',');
    let ghost mapped = pieces(s@, ',').map_values(|p: Seq<char>| uppercase(trimmed(p)));
    let ghost keep = |t: Seq<char>| t.len() > 0;
    let mut out: Vec<String> = Vec::new();
    let mut i: usize = 0;
    while i < parts.len()
        invariant
            i <= parts.len(),
            texts(parts@) == pieces(s@, ','),
            mapped == pieces(s@, ',').map_values(|p: Seq<char>| uppercase(trimmed(p))),
            keep == (|t: Seq<char>| t.len() > 0),
            texts(out@) == mapped.subrange(0, i as int).filter(keep),
        decreases parts.len() - i,
    {
        proof {
            crate::rest::lemma_filter_prefix(mapped, i as int, keep);
            assert(texts(parts@)[i as int] == parts@[i as int]@);
        }
        let t = trim(parts[i].as_str());
        let u = to_uppercase(t.as_str());
        let ghost before = out@;
        if u.unicode_len() > 0 {
            out.push(u);
            proof {
                assert(texts(out@) =~= texts(before).push(u@));
            }
        }
        i = i + 1;
    }
    proof {
        assert(mapped.subrange(0, parts.len() as int) =~= mapped);
    }
    out
}

/// The exchange a piece of an exchange list names, if any.
pub open spec fn listed_exchange(p: Seq<char>) -> Option<Exchange> {
    exchange_from_lowercase(lowercase(trimmed(p)))
}

/// The exchanges of a comma-separated list, in order; pieces that name no
/// exchange are dropped.
pub open spec fn exchange_list(s: Seq<char>) -> Seq<Exchange> {
    pieces(s, ',').filter(|p: Seq<char>| listed_exchange(p) is Some).map_values(
        |p: Seq<char>| listed_exchange(p)->0,
    )
}

/// Reads a comma-separated list of exchanges.
pub fn parse_exchange_list(s: &str) -> (r: Vec<Exchange>)
    ensures
        r@ == exchange_list(s@),
{
    let parts = split_char(s, ',');
    let ghost all = pieces(s@, ',');
    let ghost keep = |p: Seq<char>| listed_exchange(p) is Some;
    let mut out: Vec<Exchange> = Vec::new();
    let mut i: usize = 0;
    while i < parts.len()
        invariant
            i <= parts.len(),
            texts(parts@) == all,
            all == pieces(s@, ','),
            keep == (|p: Seq<char>| listed_exchange(p) is Some),
            out@ == all.subrange(0, i as int).filter(keep).map_values(
                |p: Seq<char>| listed_exchange(p)->0,
            ),
        decreases parts.len() - i,
    {
        proof {
            crate::rest::lemma_filter_prefix(all, i as int, keep);
            assert(texts(parts@)[i as int] == parts@[i as int]@);
        }
        let t = trim(parts[i].as_str());
        let ghost before = out@;
        match Exchange::parse(t.as_str()) {
            Ok(e) => {
                out.push(e);
                proof {
                    let f = all.subrange(0, i as int).filter(keep);
                    assert(f.push(all[i as int]).map_values(|p: Seq<char>| listed_exchange(p)->0)
                        =~= f.map_values(|p: Seq<char>| listed_exchange(p)->0).push(e));
                }
            },
            Err(_) => {},
        }
        i = i + 1;
    }
    proof {
        assert(all.subrange(0, parts.len() as int) =~= all);
    }
    out
}

/// The timeframe a session is given, `default` where the text names none.
pub fn timeframe_or(s: &str, default: Timeframe) -> (r: Timeframe)
    ensures
        r == match timeframe_from_lowercase(lowercase(s@)) {
            Some(tf) => tf,
            None => default,
        },
{
    match Timeframe::parse(s) {
        Ok(tf) => tf,
        Err(_) => default,
    }
}

/// The first symbol of a list, `BTCUSDT` where the list is empty.
pub fn primary_symbol(symbols: &Vec<String>) -> (r: String)
    ensures
        r@ == (if symbols@.len() > 0 {
            symbols@[0]@
        } else {
            "BTCUSDT"@
        }),
{
    if symbols.len() > 0 {
        symbols[0].clone()
    } else {
        String::from_str("BTCUSDT")
    }
}

/// The first exchange of a list, Binance where the list is empty.
pub fn primary_exchange(exchanges: &Vec<Exchange>) -> (r: Exchange)
    ensures
        r == (if exchanges@.len() > 0 {
            exchanges@[0]
        } else {
            Exchange::Binance
        }),
{
    if exchanges.len() > 0 {
        exchanges[0]
    } else {
        Exchange::Binance
    }
}

/// The first piece of a comma-separated list, as a simulation takes it (the
/// text up to the first comma, which may be empty).
pub fn first_listed(s: &str) -> (r: String)
    ensures
        r@ == pieces(s@, ',')[0],
{
    let parts = split_char(s, ',');
    proof {
        lemma_pieces_nonempty(s@, ',');
        assert(texts(parts@)[0] == parts@[0]@);
    }
    parts[0].clone()
}

/// Every occurrence of `from`, left to right and without overlap, replaced
/// by `to` (`str::replace`).
pub open spec fn replace_all(s: Seq<char>, from: Seq<char>, to: Seq<char>) -> Seq<char>
    recommends
        from.len() > 0,
    decreases s.len(),
    when from.len() > 0
{
    if s.len() < from.len() {
        s
    } else if s.subrange(0, from.len() as int) == from {
        to + replace_all(s.subrange(from.len() as int, s.len() as int), from, to)
    } else {
        seq![s[0]] + replace_all(s.subrange(1, s.len() as int), from, to)
    }
}

/// Calls `str::replace`, which replaces every non-overlapping occurrence of
/// `from`, left to right, by `to`.
#[verifier::external_body]
fn replace_text(s: &str, from: &str, to: &str) -> (r: String)
    requires
        from@.len() > 0,
    ensures
        r@ == replace_all(s@, from@, to@),
{
    s.replace(from, to)
}

/// The USDT-margined perpetual a session streams for a listed symbol: the
/// base is the symbol without `USDT`.
pub fn stream_symbol(raw: &str, exchange: Exchange) -> (r: Symbol)
    ensures
        r.base@ == replace_all(raw@, "USDT"@, ""@),
        r.quote@ == "USDT"@,
        r.market_type == MarketType::LinearPerpetual,
        r.exchange == exchange,
        r.raw_symbol@ == raw@,
{
    proof {
        reveal_strlit("USDT");
    }
    Symbol {
        base: replace_text(raw, "USDT", ""),
        quote: String::from_str("USDT"),
        market_type: MarketType::LinearPerpetual,
        exchange,
        raw_symbol: String::from_str(raw),
    }
}

/// The price a manual market order fills at: the reference price sent with
/// it, where there is one and it is not zero.
pub fn market_fill_price(price: Option<Decimal>) -> (r: Option<Decimal>)
    ensures
        r == (match price {
            Some(p) => if p@.0 != 0 {
                Some(p)
            } else {
                None
            },
            None => None,
        }),
{
    match price {
        Some(p) => if !p.is_zero() {
            Some(p)
        } else {
            None
        },
        None => None,
    }
}

/// The simulated limit order a manual order makes: a fresh id, the size in
/// dollars divided by the limit price as quantity, pending, created now.
pub open spec fn limit_order_of(symbol: Symbol, side: Side, size_usd: Decimal, limit_price: Decimal, o: SimOrder) -> bool {
    &&& o.symbol == symbol
    &&& o.side == side
    &&& o.order_type == OrderType::Limit
    &&& o.price == Some(limit_price)
    &&& decimal_div(size_usd@, limit_price@) == Some(o.quantity@)
    &&& o.status == OrderStatus::Pending
    &&& chrono_millis_in_range(o.created_at as int)
    &&& o.filled_at is None
}

/// The simulated limit order a manual order makes.
pub fn manual_limit_order(symbol: Symbol, side: Side, size_usd: Decimal, limit_price: Decimal) -> (r: SimOrder)
    requires
        decimal_div(size_usd@, limit_price@) is Some,
    ensures
        limit_order_of(symbol, side, size_usd, limit_price, r),
{
    let quantity = match size_usd.checked_div(&limit_price) {
        Some(q) => q,
        None => Decimal::zero(),
    };
    SimOrder {
        id: uuid_random(),
        symbol,
        side,
        order_type: OrderType::Limit,
        price: Some(limit_price),
        quantity,
        status: OrderStatus::Pending,
        created_at: now_millis(),
        filled_at: None,
    }
}

/// The simulated limit order where the quantity can be computed, `None`
/// where the division fails (a zero price, or an overflow).
pub fn checked_manual_limit_order(symbol: Symbol, side: Side, size_usd: Decimal, limit_price: Decimal) -> (r: Option<SimOrder>)
    ensures
        r is Some <==> decimal_div(size_usd@, limit_price@) is Some,
        r matches Some(o) ==> limit_order_of(symbol, side, size_usd, limit_price, o),
{
    if size_usd.checked_div(&limit_price).is_none() {
        return None;
    }
    Some(manual_limit_order(symbol, side, size_usd, limit_price))
}

} // verus!
