//! Candle intervals and their names on each exchange.
use vstd::prelude::*;

use crate::error::CteError;
use crate::text::{ascii_lower, concat, is_ascii_text, lowercase, str_eq, to_lowercase};

verus! {

/// The length of a candle.
#[derive(Debug, Clone, Copy, PartialEq, Eq, Hash, Structural)]
pub enum Timeframe {
    S1,
    S10,
    M1,
    M3,
    M5,
    M15,
    M30,
    H1,
    H2,
    H4,
    H6,
    H8,
    H12,
    D1,
    D3,
    W1,
    MN1,
}

/// The length of a candle in seconds.
pub open spec fn timeframe_seconds(tf: Timeframe) -> nat {
    match tf {
        Timeframe::S1 => 1,
        Timeframe::S10 => 10,
        Timeframe::M1 => 60,
        Timeframe::M3 => 180,
        Timeframe::M5 => 300,
        Timeframe::M15 => 900,
        Timeframe::M30 => 1800,
        Timeframe::H1 => 3600,
        Timeframe::H2 => 7200,
        Timeframe::H4 => 14400,
        Timeframe::H6 => 21600,
        Timeframe::H8 => 28800,
        Timeframe::H12 => 43200,
        Timeframe::D1 => 86400,
        Timeframe::D3 => 259200,
        Timeframe::W1 => 604800,
        Timeframe::MN1 => 2592000,
    }
}

/// The interval name that Binance uses for a timeframe.
pub open spec fn binance_interval(tf: Timeframe) -> Seq<char> {
    match tf {
        Timeframe::S1 => "1s"@,
        Timeframe::S10 => "1m"@,
        Timeframe::M1 => "1m"@,
        Timeframe::M3 => "3m"@,
        Timeframe::M5 => "5m"@,
        Timeframe::M15 => "15m"@,
        Timeframe::M30 => "30m"@,
        Timeframe::H1 => "1h"@,
        Timeframe::H2 => "2h"@,
        Timeframe::H4 => "4h"@,
        Timeframe::H6 => "6h"@,
        Timeframe::H8 => "8h"@,
        Timeframe::H12 => "12h"@,
        Timeframe::D1 => "1d"@,
        Timeframe::D3 => "3d"@,
        Timeframe::W1 => "1w"@,
        Timeframe::MN1 => "1M"@,
    }
}

/// The bar name that OKX uses for a timeframe.
pub open spec fn okx_bar(tf: Timeframe) -> Seq<char> {
    match tf {
        Timeframe::S1 => "1m"@,
        Timeframe::S10 => "1m"@,
        Timeframe::M1 => "1m"@,
        Timeframe::M3 => "3m"@,
        Timeframe::M5 => "5m"@,
        Timeframe::M15 => "15m"@,
        Timeframe::M30 => "30m"@,
        Timeframe::H1 => "1H"@,
        Timeframe::H2 => "2H"@,
        Timeframe::H4 => "4H"@,
        Timeframe::H6 => "6H"@,
        Timeframe::H8 => "6H"@,
        Timeframe::H12 => "12H"@,
        Timeframe::D1 => "1D"@,
        Timeframe::D3 => "3D"@,
        Timeframe::W1 => "1W"@,
        Timeframe::MN1 => "1M"@,
    }
}

/// The interval name that Bybit uses for a timeframe.
pub open spec fn bybit_interval(tf: Timeframe) -> Seq<char> {
    match tf {
        Timeframe::S1 => "1"@,
        Timeframe::S10 => "1"@,
        Timeframe::M1 => "1"@,
        Timeframe::M3 => "3"@,
        Timeframe::M5 => "5"@,
        Timeframe::M15 => "15"@,
        Timeframe::M30 => "30"@,
        Timeframe::H1 => "60"@,
        Timeframe::H2 => "120"@,
        Timeframe::H4 => "240"@,
        Timeframe::H6 => "360"@,
        Timeframe::H8 => "720"@,
        Timeframe::H12 => "720"@,
        Timeframe::D1 => "D"@,
        Timeframe::D3 => "D"@,
        Timeframe::W1 => "W"@,
        Timeframe::MN1 => "M"@,
    }
}

/// The interval name that gate.io uses for a timeframe.
pub open spec fn gateio_interval(tf: Timeframe) -> Seq<char> {
    match tf {
        Timeframe::S1 => "10s"@,
        Timeframe::S10 => "10s"@,
        Timeframe::M1 => "1m"@,
        Timeframe::M3 => "5m"@,
        Timeframe::M5 => "5m"@,
        Timeframe::M15 => "15m"@,
        Timeframe::M30 => "30m"@,
        Timeframe::H1 => "1h"@,
        Timeframe::H2 => "4h"@,
        Timeframe::H4 => "4h"@,
        Timeframe::H6 => "8h"@,
        Timeframe::H8 => "8h"@,
        Timeframe::H12 => "1d"@,
        Timeframe::D1 => "1d"@,
        Timeframe::D3 => "7d"@,
        Timeframe::W1 => "7d"@,
        Timeframe::MN1 => "30d"@,
    }
}

/// The granularity name that Bitget uses for a timeframe.
pub open spec fn bitget_granularity(tf: Timeframe) -> Seq<char> {
    match tf {
        Timeframe::S1 => "1m"@,
        Timeframe::S10 => "1m"@,
        Timeframe::M1 => "1m"@,
        Timeframe::M3 => "3m"@,
        Timeframe::M5 => "5m"@,
        Timeframe::M15 => "15m"@,
        Timeframe::M30 => "30m"@,
        Timeframe::H1 => "1H"@,
        Timeframe::H2 => "2H"@,
        Timeframe::H4 => "4H"@,
        Timeframe::H6 => "6H"@,
        Timeframe::H8 => "12H"@,
        Timeframe::H12 => "12H"@,
        Timeframe::D1 => "1D"@,
        Timeframe::D3 => "3D"@,
        Timeframe::W1 => "1W"@,
        Timeframe::MN1 => "1M"@,
    }
}

/// The display name of a timeframe.
pub open spec fn timeframe_text(tf: Timeframe) -> Seq<char> {
    match tf {
        Timeframe::S1 => "1s"@,
        Timeframe::S10 => "10s"@,
        Timeframe::M1 => "1m"@,
        Timeframe::M3 => "3m"@,
        Timeframe::M5 => "5m"@,
        Timeframe::M15 => "15m"@,
        Timeframe::M30 => "30m"@,
        Timeframe::H1 => "1h"@,
        Timeframe::H2 => "2h"@,
        Timeframe::H4 => "4h"@,
        Timeframe::H6 => "6h"@,
        Timeframe::H8 => "8h"@,
        Timeframe::H12 => "12h"@,
        Timeframe::D1 => "1d"@,
        Timeframe::D3 => "3d"@,
        Timeframe::W1 => "1w"@,
        Timeframe::MN1 => "1M"@,
    }
}

/// The timeframe that a lower-cased name stands for.
pub open spec fn timeframe_from_lowercase(t: Seq<char>) -> Option<Timeframe> {
    if t == "1s"@ || t == "s1"@ {
        Some(Timeframe::S1)
    } else if t == "10s"@ || t == "s10"@ {
        Some(Timeframe::S10)
    } else if t == "1m"@ || t == "m1"@ {
        Some(Timeframe::M1)
    } else if t == "3m"@ || t == "m3"@ {
        Some(Timeframe::M3)
    } else if t == "5m"@ || t == "m5"@ {
        Some(Timeframe::M5)
    } else if t == "15m"@ || t == "m15"@ {
        Some(Timeframe::M15)
    } else if t == "30m"@ || t == "m30"@ {
        Some(Timeframe::M30)
    } else if t == "1h"@ || t == "h1"@ {
        Some(Timeframe::H1)
    } else if t == "2h"@ || t == "h2"@ {
        Some(Timeframe::H2)
    } else if t == "4h"@ || t == "h4"@ {
        Some(Timeframe::H4)
    } else if t == "6h"@ || t == "h6"@ {
        Some(Timeframe::H6)
    } else if t == "8h"@ || t == "h8"@ {
        Some(Timeframe::H8)
    } else if t == "12h"@ || t == "h12"@ {
        Some(Timeframe::H12)
    } else if t == "1d"@ || t == "d1"@ {
        Some(Timeframe::D1)
    } else if t == "3d"@ || t == "d3"@ {
        Some(Timeframe::D3)
    } else if t == "1w"@ || t == "w1"@ {
        Some(Timeframe::W1)
    } else if t == "1mn"@ || t == "mn1"@ || t == "1m_month"@ || t == "month"@ {
        Some(Timeframe::MN1)
    } else {
        None
    }
}

/// The message of the error that an unknown timeframe name gives.
pub open spec fn unknown_timeframe_message(s: Seq<char>) -> Seq<char> {
    "Unknown timeframe: "@ + s + ". Valid: 1s,10s,1m,3m,5m,15m,30m,1h,2h,4h,6h,8h,12h,1d,3d,1w,1M"@
}

impl Timeframe {
    /// The length of a candle in seconds.
    pub fn to_seconds(&self) -> (r: u64)
        ensures
            r as nat == timeframe_seconds(*self),
    {
        match self {
            Timeframe::S1 => 1,
            Timeframe::S10 => 10,
            Timeframe::M1 => 60,
            Timeframe::M3 => 180,
            Timeframe::M5 => 300,
            Timeframe::M15 => 900,
            Timeframe::M30 => 1800,
            Timeframe::H1 => 3600,
            Timeframe::H2 => 7200,
            Timeframe::H4 => 14400,
            Timeframe::H6 => 21600,
            Timeframe::H8 => 28800,
            Timeframe::H12 => 43200,
            Timeframe::D1 => 86400,
            Timeframe::D3 => 259200,
            Timeframe::W1 => 604800,
            Timeframe::MN1 => 2592000,
        }
    }

    /// The Binance interval name.
    pub fn to_binance_str(&self) -> (r: &'static str)
        ensures
            r@ == binance_interval(*self),
    {
        match self {
            Timeframe::S1 => "1s",
            Timeframe::S10 => "1m",
            Timeframe::M1 => "1m",
            Timeframe::M3 => "3m",
            Timeframe::M5 => "5m",
            Timeframe::M15 => "15m",
            Timeframe::M30 => "30m",
            Timeframe::H1 => "1h",
            Timeframe::H2 => "2h",
            Timeframe::H4 => "4h",
            Timeframe::H6 => "6h",
            Timeframe::H8 => "8h",
            Timeframe::H12 => "12h",
            Timeframe::D1 => "1d",
            Timeframe::D3 => "3d",
            Timeframe::W1 => "1w",
            Timeframe::MN1 => "1M",
        }
    }

    /// The OKX bar name.
    pub fn to_okx_str(&self) -> (r: &'static str)
        ensures
            r@ == okx_bar(*self),
    {
        match self {
            Timeframe::S1 => "1m",
            Timeframe::S10 => "1m",
            Timeframe::M1 => "1m",
            Timeframe::M3 => "3m",
            Timeframe::M5 => "5m",
            Timeframe::M15 => "15m",
            Timeframe::M30 => "30m",
            Timeframe::H1 => "1H",
            Timeframe::H2 => "2H",
            Timeframe::H4 => "4H",
            Timeframe::H6 => "6H",
            Timeframe::H8 => "6H",
            Timeframe::H12 => "12H",
            Timeframe::D1 => "1D",
            Timeframe::D3 => "3D",
            Timeframe::W1 => "1W",
            Timeframe::MN1 => "1M",
        }
    }

    /// The Bybit interval name.
    pub fn to_bybit_str(&self) -> (r: &'static str)
        ensures
            r@ == bybit_interval(*self),
    {
        match self {
            Timeframe::S1 => "1",
            Timeframe::S10 => "1",
            Timeframe::M1 => "1",
            Timeframe::M3 => "3",
            Timeframe::M5 => "5",
            Timeframe::M15 => "15",
            Timeframe::M30 => "30",
            Timeframe::H1 => "60",
            Timeframe::H2 => "120",
            Timeframe::H4 => "240",
            Timeframe::H6 => "360",
            Timeframe::H8 => "720",
            Timeframe::H12 => "720",
            Timeframe::D1 => "D",
            Timeframe::D3 => "D",
            Timeframe::W1 => "W",
            Timeframe::MN1 => "M",
        }
    }

    /// The interval name of gate.io.
    pub fn to_gateio_str(&self) -> (r: &'static str)
        ensures
            r@ == gateio_interval(*self),
    {
        match self {
            Timeframe::S1 => "10s",
            Timeframe::S10 => "10s",
            Timeframe::M1 => "1m",
            Timeframe::M3 => "5m",
            Timeframe::M5 => "5m",
            Timeframe::M15 => "15m",
            Timeframe::M30 => "30m",
            Timeframe::H1 => "1h",
            Timeframe::H2 => "4h",
            Timeframe::H4 => "4h",
            Timeframe::H6 => "8h",
            Timeframe::H8 => "8h",
            Timeframe::H12 => "1d",
            Timeframe::D1 => "1d",
            Timeframe::D3 => "7d",
            Timeframe::W1 => "7d",
            Timeframe::MN1 => "30d",
        }
    }

    /// The Bitget granularity name.
    pub fn to_bitget_str(&self) -> (r: &'static str)
        ensures
            r@ == bitget_granularity(*self),
    {
        match self {
            Timeframe::S1 => "1m",
            Timeframe::S10 => "1m",
            Timeframe::M1 => "1m",
            Timeframe::M3 => "3m",
            Timeframe::M5 => "5m",
            Timeframe::M15 => "15m",
            Timeframe::M30 => "30m",
            Timeframe::H1 => "1H",
            Timeframe::H2 => "2H",
            Timeframe::H4 => "4H",
            Timeframe::H6 => "6H",
            Timeframe::H8 => "12H",
            Timeframe::H12 => "12H",
            Timeframe::D1 => "1D",
            Timeframe::D3 => "3D",
            Timeframe::W1 => "1W",
            Timeframe::MN1 => "1M",
        }
    }

    /// The display name (`1s`, `1h`, `1M`, ...).
    pub fn as_str(&self) -> (r: &'static str)
        ensures
            r@ == timeframe_text(*self),
    {
        match self {
            Timeframe::S1 => "1s",
            Timeframe::S10 => "10s",
            Timeframe::M1 => "1m",
            Timeframe::M3 => "3m",
            Timeframe::M5 => "5m",
            Timeframe::M15 => "15m",
            Timeframe::M30 => "30m",
            Timeframe::H1 => "1h",
            Timeframe::H2 => "2h",
            Timeframe::H4 => "4h",
            Timeframe::H6 => "6h",
            Timeframe::H8 => "8h",
            Timeframe::H12 => "12h",
            Timeframe::D1 => "1d",
            Timeframe::D3 => "3d",
            Timeframe::W1 => "1w",
            Timeframe::MN1 => "1M",
        }
    }

    /// Reads a timeframe name, ignoring case (`1h`, `H1`, `1mn`, `month`, ...).
    pub fn parse(s: &str) -> (r: Result<Timeframe, CteError>)
        ensures
            match timeframe_from_lowercase(lowercase(s@)) {
                Some(tf) => r == Ok::<Timeframe, CteError>(tf),
                None => r matches Err(CteError::Config(m)) && m@ == unknown_timeframe_message(s@),
            },
    {
        let lower = to_lowercase(s);
        let t = lower.as_str();
        if str_eq(t, "1s") || str_eq(t, "s1") {
            return Ok(Timeframe::S1);
        }
        if str_eq(t, "10s") || str_eq(t, "s10") {
            return Ok(Timeframe::S10);
        }
        if str_eq(t, "1m") || str_eq(t, "m1") {
            return Ok(Timeframe::M1);
        }
        if str_eq(t, "3m") || str_eq(t, "m3") {
            return Ok(Timeframe::M3);
        }
        if str_eq(t, "5m") || str_eq(t, "m5") {
            return Ok(Timeframe::M5);
        }
        if str_eq(t, "15m") || str_eq(t, "m15") {
            return Ok(Timeframe::M15);
        }
        if str_eq(t, "30m") || str_eq(t, "m30") {
            return Ok(Timeframe::M30);
        }
        if str_eq(t, "1h") || str_eq(t, "h1") {
            return Ok(Timeframe::H1);
        }
        if str_eq(t, "2h") || str_eq(t, "h2") {
            return Ok(Timeframe::H2);
        }
        if str_eq(t, "4h") || str_eq(t, "h4") {
            return Ok(Timeframe::H4);
        }
        if str_eq(t, "6h") || str_eq(t, "h6") {
            return Ok(Timeframe::H6);
        }
        if str_eq(t, "8h") || str_eq(t, "h8") {
            return Ok(Timeframe::H8);
        }
        if str_eq(t, "12h") || str_eq(t, "h12") {
            return Ok(Timeframe::H12);
        }
        if str_eq(t, "1d") || str_eq(t, "d1") {
            return Ok(Timeframe::D1);
        }
        if str_eq(t, "3d") || str_eq(t, "d3") {
            return Ok(Timeframe::D3);
        }
        if str_eq(t, "1w") || str_eq(t, "w1") {
            return Ok(Timeframe::W1);
        }
        if str_eq(t, "1mn") || str_eq(t, "mn1") || str_eq(t, "1m_month") || str_eq(t, "month") {
            return Ok(Timeframe::MN1);
        }
        let head = concat("Unknown timeframe: ", s);
        let msg = concat(
            head.as_str(),
            ". Valid: 1s,10s,1m,3m,5m,15m,30m,1h,2h,4h,6h,8h,12h,1d,3d,1w,1M",
        );
        Err(CteError::Config(msg))
    }
}


/// A mark on a character, used only to bring it into a proof.
#[verifier::opaque]
spec fn seen(c: char) -> bool {
    true
}

/// Brings the length and the first three characters of a text into a proof.
proof fn lemma_see_chars(s: Seq<char>)
    ensures
        seen(s[0]),
        seen(s[1]),
        seen(s[2]),
        s.len() >= 0,
{
    reveal(seen);
}

/// The name of every timeframe but the month reads back as the timeframe:
/// it differs, in length or in a character, from every name tried before it.
proof fn lemma_name_reads_back(tf: Timeframe)
    requires
        tf != Timeframe::MN1,
    ensures
        timeframe_from_lowercase(timeframe_text(tf)) == Some(tf),
{
    reveal_strlit("1s");
    reveal_strlit("s1");
    reveal_strlit("10s");
    reveal_strlit("s10");
    reveal_strlit("1m");
    reveal_strlit("m1");
    reveal_strlit("3m");
    reveal_strlit("m3");
    reveal_strlit("5m");
    reveal_strlit("m5");
    reveal_strlit("15m");
    reveal_strlit("m15");
    reveal_strlit("30m");
    reveal_strlit("m30");
    reveal_strlit("1h");
    reveal_strlit("h1");
    reveal_strlit("2h");
    reveal_strlit("h2");
    reveal_strlit("4h");
    reveal_strlit("h4");
    reveal_strlit("6h");
    reveal_strlit("h6");
    reveal_strlit("8h");
    reveal_strlit("h8");
    reveal_strlit("12h");
    reveal_strlit("h12");
    reveal_strlit("1d");
    reveal_strlit("d1");
    reveal_strlit("3d");
    reveal_strlit("d3");
    reveal_strlit("1w");
    reveal_strlit("w1");
    reveal_strlit("1mn");
    reveal_strlit("mn1");
    reveal_strlit("1m_month");
    reveal_strlit("month");
    lemma_see_chars("1s"@);
    lemma_see_chars("s1"@);
    lemma_see_chars("10s"@);
    lemma_see_chars("s10"@);
    lemma_see_chars("1m"@);
    lemma_see_chars("m1"@);
    lemma_see_chars("3m"@);
    lemma_see_chars("m3"@);
    lemma_see_chars("5m"@);
    lemma_see_chars("m5"@);
    lemma_see_chars("15m"@);
    lemma_see_chars("m15"@);
    lemma_see_chars("30m"@);
    lemma_see_chars("m30"@);
    lemma_see_chars("1h"@);
    lemma_see_chars("h1"@);
    lemma_see_chars("2h"@);
    lemma_see_chars("h2"@);
    lemma_see_chars("4h"@);
    lemma_see_chars("h4"@);
    lemma_see_chars("6h"@);
    lemma_see_chars("h6"@);
    lemma_see_chars("8h"@);
    lemma_see_chars("h8"@);
    lemma_see_chars("12h"@);
    lemma_see_chars("h12"@);
    lemma_see_chars("1d"@);
    lemma_see_chars("d1"@);
    lemma_see_chars("3d"@);
    lemma_see_chars("d3"@);
    lemma_see_chars("1w"@);
    lemma_see_chars("w1"@);
    lemma_see_chars("1mn"@);
    lemma_see_chars("mn1"@);
    lemma_see_chars("1m_month"@);
    lemma_see_chars("month"@);
}

/// The display name of a timeframe reads back as the same timeframe, except
/// for the month: its name `1M` reads back as one minute, because names are
/// read ignoring case.
pub proof fn lemma_timeframe_name_round_trip(tf: Timeframe)
    ensures
        tf != Timeframe::MN1 ==> timeframe_from_lowercase(lowercase(timeframe_text(tf))) == Some(tf),
        timeframe_from_lowercase(lowercase(timeframe_text(Timeframe::MN1))) == Some(Timeframe::M1),
{
    reveal_strlit("1s");
    reveal_strlit("10s");
    reveal_strlit("1m");
    reveal_strlit("3m");
    reveal_strlit("5m");
    reveal_strlit("15m");
    reveal_strlit("30m");
    reveal_strlit("1h");
    reveal_strlit("2h");
    reveal_strlit("4h");
    reveal_strlit("6h");
    reveal_strlit("8h");
    reveal_strlit("12h");
    reveal_strlit("1d");
    reveal_strlit("3d");
    reveal_strlit("1w");
    reveal_strlit("1M");
    let t = timeframe_text(tf);
    assert(is_ascii_text(t));
    assert(lowercase(t) =~= t.map_values(|c: char| ascii_lower(c)));
    let m = timeframe_text(Timeframe::MN1);
    assert(is_ascii_text(m));
    assert(lowercase(m) =~= "1m"@);
    lemma_name_reads_back(Timeframe::M1);
    if tf != Timeframe::MN1 {
        assert(lowercase(t) =~= t);
    }
    if tf != Timeframe::MN1 {
        lemma_name_reads_back(tf);
    }
}

// ---------------------------------------------------------------------------
// What the names say of the lengths
// ---------------------------------------------------------------------------

/// The number that a text of decimal digits writes.
pub open spec fn digits_value(s: Seq<char>) -> int
    decreases s.len(),
{
    if s.len() == 0 {
        0
    } else {
        digits_value(s.drop_last()) * 10 + (s.last() as int - '0' as int)
    }
}

/// The seconds in one unit of an interval name: `s` a second, `m` a minute,
/// `h`/`H` an hour, `d`/`D` a day, `w`/`W` a week, `M` a month of thirty days.
pub open spec fn unit_seconds(c: char) -> int {
    if c == 's' {
        1
    } else if c == 'm' {
        60
    } else if c == 'h' || c == 'H' {
        3600
    } else if c == 'd' || c == 'D' {
        86400
    } else if c == 'w' || c == 'W' {
        604800
    } else if c == 'M' {
        2592000
    } else {
        0
    }
}

/// The span in seconds that an interval name such as `4h` or `15m` states:
/// its count times its unit.
pub open spec fn name_span(name: Seq<char>) -> int {
    digits_value(name.drop_last()) * unit_seconds(name.last())
}

/// The span in seconds of a Bybit interval name: a bare number counts
/// minutes, `D`, `W` and `M` are a day, a week and a month.
pub open spec fn bybit_span(name: Seq<char>) -> int {
    if name == "D"@ || name == "W"@ || name == "M"@ {
        unit_seconds(name[0])
    } else {
        digits_value(name) * 60
    }
}

/// The length of every timeframe is the span its display name states:
/// `n s` is n seconds, `n m` n minutes, `n h` n hours, `n d` n days, `1w` a
/// week and `1M` thirty days (so four hours are 4 * 3600 seconds).
pub proof fn lemma_seconds_match_name(tf: Timeframe)
    ensures
        timeframe_seconds(tf) == name_span(timeframe_text(tf)),
{
    reveal_with_fuel(digits_value, 3);
    match tf {
        Timeframe::S1 => {
            reveal_strlit("1s");
            assert("1s"@.drop_last() =~= seq!['1']);
            assert("1s"@.last() == 's');
        },
        Timeframe::S10 => {
            reveal_strlit("10s");
            assert("10s"@.drop_last() =~= seq!['1', '0']);
            assert("10s"@.last() == 's');
        },
        Timeframe::M1 => {
            reveal_strlit("1m");
            assert("1m"@.drop_last() =~= seq!['1']);
            assert("1m"@.last() == 'm');
        },
        Timeframe::M3 => {
            reveal_strlit("3m");
            assert("3m"@.drop_last() =~= seq!['3']);
            assert("3m"@.last() == 'm');
        },
        Timeframe::M5 => {
            reveal_strlit("5m");
            assert("5m"@.drop_last() =~= seq!['5']);
            assert("5m"@.last() == 'm');
        },
        Timeframe::M15 => {
            reveal_strlit("15m");
            assert("15m"@.drop_last() =~= seq!['1', '5']);
            assert("15m"@.last() == 'm');
        },
        Timeframe::M30 => {
            reveal_strlit("30m");
            assert("30m"@.drop_last() =~= seq!['3', '0']);
            assert("30m"@.last() == 'm');
        },
        Timeframe::H1 => {
            reveal_strlit("1h");
            assert("1h"@.drop_last() =~= seq!['1']);
            assert("1h"@.last() == 'h');
        },
        Timeframe::H2 => {
            reveal_strlit("2h");
            assert("2h"@.drop_last() =~= seq!['2']);
            assert("2h"@.last() == 'h');
        },
        Timeframe::H4 => {
            reveal_strlit("4h");
            assert("4h"@.drop_last() =~= seq!['4']);
            assert("4h"@.last() == 'h');
        },
        Timeframe::H6 => {
            reveal_strlit("6h");
            assert("6h"@.drop_last() =~= seq!['6']);
            assert("6h"@.last() == 'h');
        },
        Timeframe::H8 => {
            reveal_strlit("8h");
            assert("8h"@.drop_last() =~= seq!['8']);
            assert("8h"@.last() == 'h');
        },
        Timeframe::H12 => {
            reveal_strlit("12h");
            assert("12h"@.drop_last() =~= seq!['1', '2']);
            assert("12h"@.last() == 'h');
        },
        Timeframe::D1 => {
            reveal_strlit("1d");
            assert("1d"@.drop_last() =~= seq!['1']);
            assert("1d"@.last() == 'd');
        },
        Timeframe::D3 => {
            reveal_strlit("3d");
            assert("3d"@.drop_last() =~= seq!['3']);
            assert("3d"@.last() == 'd');
        },
        Timeframe::W1 => {
            reveal_strlit("1w");
            assert("1w"@.drop_last() =~= seq!['1']);
            assert("1w"@.last() == 'w');
        },
        Timeframe::MN1 => {
            reveal_strlit("1M");
            assert("1M"@.drop_last() =~= seq!['1']);
            assert("1M"@.last() == 'M');
        },
    }
}

/// The Binance interval of a timeframe states the timeframe's own length,
/// except where Binance offers no such interval and a neighbouring one is
/// asked for instead: `S10` gets 60 s.
pub proof fn lemma_binance_interval_span(tf: Timeframe)
    ensures
        name_span(binance_interval(tf)) == (if tf == Timeframe::S10 {
            60
        } else {
            timeframe_seconds(tf) as int
        }),
{
    reveal_with_fuel(digits_value, 4);
    match tf {
        Timeframe::S1 => {
            reveal_strlit("1s");
            assert("1s"@.drop_last() =~= seq!['1']);
            assert("1s"@.last() == 's');
        },
        Timeframe::S10 => {
            reveal_strlit("1m");
            assert("1m"@.drop_last() =~= seq!['1']);
            assert("1m"@.last() == 'm');
        },
        Timeframe::M1 => {
            reveal_strlit("1m");
            assert("1m"@.drop_last() =~= seq!['1']);
            assert("1m"@.last() == 'm');
        },
        Timeframe::M3 => {
            reveal_strlit("3m");
            assert("3m"@.drop_last() =~= seq!['3']);
            assert("3m"@.last() == 'm');
        },
        Timeframe::M5 => {
            reveal_strlit("5m");
            assert("5m"@.drop_last() =~= seq!['5']);
            assert("5m"@.last() == 'm');
        },
        Timeframe::M15 => {
            reveal_strlit("15m");
            assert("15m"@.drop_last() =~= seq!['1', '5']);
            assert("15m"@.last() == 'm');
        },
        Timeframe::M30 => {
            reveal_strlit("30m");
            assert("30m"@.drop_last() =~= seq!['3', '0']);
            assert("30m"@.last() == 'm');
        },
        Timeframe::H1 => {
            reveal_strlit("1h");
            assert("1h"@.drop_last() =~= seq!['1']);
            assert("1h"@.last() == 'h');
        },
        Timeframe::H2 => {
            reveal_strlit("2h");
            assert("2h"@.drop_last() =~= seq!['2']);
            assert("2h"@.last() == 'h');
        },
        Timeframe::H4 => {
            reveal_strlit("4h");
            assert("4h"@.drop_last() =~= seq!['4']);
            assert("4h"@.last() == 'h');
        },
        Timeframe::H6 => {
            reveal_strlit("6h");
            assert("6h"@.drop_last() =~= seq!['6']);
            assert("6h"@.last() == 'h');
        },
        Timeframe::H8 => {
            reveal_strlit("8h");
            assert("8h"@.drop_last() =~= seq!['8']);
            assert("8h"@.last() == 'h');
        },
        Timeframe::H12 => {
            reveal_strlit("12h");
            assert("12h"@.drop_last() =~= seq!['1', '2']);
            assert("12h"@.last() == 'h');
        },
        Timeframe::D1 => {
            reveal_strlit("1d");
            assert("1d"@.drop_last() =~= seq!['1']);
            assert("1d"@.last() == 'd');
        },
        Timeframe::D3 => {
            reveal_strlit("3d");
            assert("3d"@.drop_last() =~= seq!['3']);
            assert("3d"@.last() == 'd');
        },
        Timeframe::W1 => {
            reveal_strlit("1w");
            assert("1w"@.drop_last() =~= seq!['1']);
            assert("1w"@.last() == 'w');
        },
        Timeframe::MN1 => {
            reveal_strlit("1M");
            assert("1M"@.drop_last() =~= seq!['1']);
            assert("1M"@.last() == 'M');
        },
    }
}

/// The OKX interval of a timeframe states the timeframe's own length,
/// except where OKX offers no such interval and a neighbouring one is
/// asked for instead: `S1` gets 60 s, `S10` gets 60 s, `H8` gets 21600 s.
pub proof fn lemma_okx_interval_span(tf: Timeframe)
    ensures
        name_span(okx_bar(tf)) == (if tf == Timeframe::S1 {
            60
        } else if tf == Timeframe::S10 {
            60
        } else if tf == Timeframe::H8 {
            21600
        } else {
            timeframe_seconds(tf) as int
        }),
{
    reveal_with_fuel(digits_value, 4);
    match tf {
        Timeframe::S1 => {
            reveal_strlit("1m");
            assert("1m"@.drop_last() =~= seq!['1']);
            assert("1m"@.last() == 'm');
        },
        Timeframe::S10 => {
            reveal_strlit("1m");
            assert("1m"@.drop_last() =~= seq!['1']);
            assert("1m"@.last() == 'm');
        },
        Timeframe::M1 => {
            reveal_strlit("1m");
            assert("1m"@.drop_last() =~= seq!['1']);
            assert("1m"@.last() == 'm');
        },
        Timeframe::M3 => {
            reveal_strlit("3m");
            assert("3m"@.drop_last() =~= seq!['3']);
            assert("3m"@.last() == 'm');
        },
        Timeframe::M5 => {
            reveal_strlit("5m");
            assert("5m"@.drop_last() =~= seq!['5']);
            assert("5m"@.last() == 'm');
        },
        Timeframe::M15 => {
            reveal_strlit("15m");
            assert("15m"@.drop_last() =~= seq!['1', '5']);
            assert("15m"@.last() == 'm');
        },
        Timeframe::M30 => {
            reveal_strlit("30m");
            assert("30m"@.drop_last() =~= seq!['3', '0']);
            assert("30m"@.last() == 'm');
        },
        Timeframe::H1 => {
            reveal_strlit("1H");
            assert("1H"@.drop_last() =~= seq!['1']);
            assert("1H"@.last() == 'H');
        },
        Timeframe::H2 => {
            reveal_strlit("2H");
            assert("2H"@.drop_last() =~= seq!['2']);
            assert("2H"@.last() == 'H');
        },
        Timeframe::H4 => {
            reveal_strlit("4H");
            assert("4H"@.drop_last() =~= seq!['4']);
            assert("4H"@.last() == 'H');
        },
        Timeframe::H6 => {
            reveal_strlit("6H");
            assert("6H"@.drop_last() =~= seq!['6']);
            assert("6H"@.last() == 'H');
        },
        Timeframe::H8 => {
            reveal_strlit("6H");
            assert("6H"@.drop_last() =~= seq!['6']);
            assert("6H"@.last() == 'H');
        },
        Timeframe::H12 => {
            reveal_strlit("12H");
            assert("12H"@.drop_last() =~= seq!['1', '2']);
            assert("12H"@.last() == 'H');
        },
        Timeframe::D1 => {
            reveal_strlit("1D");
            assert("1D"@.drop_last() =~= seq!['1']);
            assert("1D"@.last() == 'D');
        },
        Timeframe::D3 => {
            reveal_strlit("3D");
            assert("3D"@.drop_last() =~= seq!['3']);
            assert("3D"@.last() == 'D');
        },
        Timeframe::W1 => {
            reveal_strlit("1W");
            assert("1W"@.drop_last() =~= seq!['1']);
            assert("1W"@.last() == 'W');
        },
        Timeframe::MN1 => {
            reveal_strlit("1M");
            assert("1M"@.drop_last() =~= seq!['1']);
            assert("1M"@.last() == 'M');
        },
    }
}

/// The Bitget interval of a timeframe states the timeframe's own length,
/// except where Bitget offers no such interval and a neighbouring one is
/// asked for instead: `S1` gets 60 s, `S10` gets 60 s, `H8` gets 43200 s.
pub proof fn lemma_bitget_interval_span(tf: Timeframe)
    ensures
        name_span(bitget_granularity(tf)) == (if tf == Timeframe::S1 {
            60
        } else if tf == Timeframe::S10 {
            60
        } else if tf == Timeframe::H8 {
            43200
        } else {
            timeframe_seconds(tf) as int
        }),
{
    reveal_with_fuel(digits_value, 4);
    match tf {
        Timeframe::S1 => {
            reveal_strlit("1m");
            assert("1m"@.drop_last() =~= seq!['1']);
            assert("1m"@.last() == 'm');
        },
        Timeframe::S10 => {
            reveal_strlit("1m");
            assert("1m"@.drop_last() =~= seq!['1']);
            assert("1m"@.last() == 'm');
        },
        Timeframe::M1 => {
            reveal_strlit("1m");
            assert("1m"@.drop_last() =~= seq!['1']);
            assert("1m"@.last() == 'm');
        },
        Timeframe::M3 => {
            reveal_strlit("3m");
            assert("3m"@.drop_last() =~= seq!['3']);
            assert("3m"@.last() == 'm');
        },
        Timeframe::M5 => {
            reveal_strlit("5m");
            assert("5m"@.drop_last() =~= seq!['5']);
            assert("5m"@.last() == 'm');
        },
        Timeframe::M15 => {
            reveal_strlit("15m");
            assert("15m"@.drop_last() =~= seq!['1', '5']);
            assert("15m"@.last() == 'm');
        },
        Timeframe::M30 => {
            reveal_strlit("30m");
            assert("30m"@.drop_last() =~= seq!['3', '0']);
            assert("30m"@.last() == 'm');
        },
        Timeframe::H1 => {
            reveal_strlit("1H");
            assert("1H"@.drop_last() =~= seq!['1']);
            assert("1H"@.last() == 'H');
        },
        Timeframe::H2 => {
            reveal_strlit("2H");
            assert("2H"@.drop_last() =~= seq!['2']);
            assert("2H"@.last() == 'H');
        },
        Timeframe::H4 => {
            reveal_strlit("4H");
            assert("4H"@.drop_last() =~= seq!['4']);
            assert("4H"@.last() == 'H');
        },
        Timeframe::H6 => {
            reveal_strlit("6H");
            assert("6H"@.drop_last() =~= seq!['6']);
            assert("6H"@.last() == 'H');
        },
        Timeframe::H8 => {
            reveal_strlit("12H");
            assert("12H"@.drop_last() =~= seq!['1', '2']);
            assert("12H"@.last() == 'H');
        },
        Timeframe::H12 => {
            reveal_strlit("12H");
            assert("12H"@.drop_last() =~= seq!['1', '2']);
            assert("12H"@.last() == 'H');
        },
        Timeframe::D1 => {
            reveal_strlit("1D");
            assert("1D"@.drop_last() =~= seq!['1']);
            assert("1D"@.last() == 'D');
        },
        Timeframe::D3 => {
            reveal_strlit("3D");
            assert("3D"@.drop_last() =~= seq!['3']);
            assert("3D"@.last() == 'D');
        },
        Timeframe::W1 => {
            reveal_strlit("1W");
            assert("1W"@.drop_last() =~= seq!['1']);
            assert("1W"@.last() == 'W');
        },
        Timeframe::MN1 => {
            reveal_strlit("1M");
            assert("1M"@.drop_last() =~= seq!['1']);
            assert("1M"@.last() == 'M');
        },
    }
}

/// A timeframe's interval on gate.io states the timeframe's own length,
/// except where gate.io offers no such interval and a neighbouring one is
/// asked for instead: `S1` gets 10 s, `M3` gets 300 s, `H2` gets 14400 s,
/// `H6` gets 28800 s, `H12` gets 86400 s, `D3` gets 604800 s.
pub proof fn lemma_gateio_interval_span(tf: Timeframe)
    ensures
        name_span(gateio_interval(tf)) == (if tf == Timeframe::S1 {
            10
        } else if tf == Timeframe::M3 {
            300
        } else if tf == Timeframe::H2 {
            14400
        } else if tf == Timeframe::H6 {
            28800
        } else if tf == Timeframe::H12 {
            86400
        } else if tf == Timeframe::D3 {
            604800
        } else {
            timeframe_seconds(tf) as int
        }),
{
    reveal_with_fuel(digits_value, 4);
    match tf {
        Timeframe::S1 => {
            reveal_strlit("10s");
            assert("10s"@.drop_last() =~= seq!['1', '0']);
            assert("10s"@.last() == 's');
        },
        Timeframe::S10 => {
            reveal_strlit("10s");
            assert("10s"@.drop_last() =~= seq!['1', '0']);
            assert("10s"@.last() == 's');
        },
        Timeframe::M1 => {
            reveal_strlit("1m");
            assert("1m"@.drop_last() =~= seq!['1']);
            assert("1m"@.last() == 'm');
        },
        Timeframe::M3 => {
            reveal_strlit("5m");
            assert("5m"@.drop_last() =~= seq!['5']);
            assert("5m"@.last() == 'm');
        },
        Timeframe::M5 => {
            reveal_strlit("5m");
            assert("5m"@.drop_last() =~= seq!['5']);
            assert("5m"@.last() == 'm');
        },
        Timeframe::M15 => {
            reveal_strlit("15m");
            assert("15m"@.drop_last() =~= seq!['1', '5']);
            assert("15m"@.last() == 'm');
        },
        Timeframe::M30 => {
            reveal_strlit("30m");
            assert("30m"@.drop_last() =~= seq!['3', '0']);
            assert("30m"@.last() == 'm');
        },
        Timeframe::H1 => {
            reveal_strlit("1h");
            assert("1h"@.drop_last() =~= seq!['1']);
            assert("1h"@.last() == 'h');
        },
        Timeframe::H2 => {
            reveal_strlit("4h");
            assert("4h"@.drop_last() =~= seq!['4']);
            assert("4h"@.last() == 'h');
        },
        Timeframe::H4 => {
            reveal_strlit("4h");
            assert("4h"@.drop_last() =~= seq!['4']);
            assert("4h"@.last() == 'h');
        },
        Timeframe::H6 => {
            reveal_strlit("8h");
            assert("8h"@.drop_last() =~= seq!['8']);
            assert("8h"@.last() == 'h');
        },
        Timeframe::H8 => {
            reveal_strlit("8h");
            assert("8h"@.drop_last() =~= seq!['8']);
            assert("8h"@.last() == 'h');
        },
        Timeframe::H12 => {
            reveal_strlit("1d");
            assert("1d"@.drop_last() =~= seq!['1']);
            assert("1d"@.last() == 'd');
        },
        Timeframe::D1 => {
            reveal_strlit("1d");
            assert("1d"@.drop_last() =~= seq!['1']);
            assert("1d"@.last() == 'd');
        },
        Timeframe::D3 => {
            reveal_strlit("7d");
            assert("7d"@.drop_last() =~= seq!['7']);
            assert("7d"@.last() == 'd');
        },
        Timeframe::W1 => {
            reveal_strlit("7d");
            assert("7d"@.drop_last() =~= seq!['7']);
            assert("7d"@.last() == 'd');
        },
        Timeframe::MN1 => {
            reveal_strlit("30d");
            assert("30d"@.drop_last() =~= seq!['3', '0']);
            assert("30d"@.last() == 'd');
        },
    }
}

/// The Bybit interval of a timeframe states the timeframe's own length,
/// except where Bybit offers no such interval and a neighbouring one is
/// asked for instead: `S1` gets 60 s, `S10` gets 60 s, `H8` gets 43200 s, `D3` gets 86400 s.
pub proof fn lemma_bybit_interval_span(tf: Timeframe)
    ensures
        bybit_span(bybit_interval(tf)) == (if tf == Timeframe::S1 {
            60
        } else if tf == Timeframe::S10 {
            60
        } else if tf == Timeframe::H8 {
            43200
        } else if tf == Timeframe::D3 {
            86400
        } else {
            timeframe_seconds(tf) as int
        }),
{
    reveal_with_fuel(digits_value, 4);
    match tf {
        Timeframe::S1 => {
            reveal_strlit("1");
            assert("1"@ =~= seq!['1']);
            reveal_strlit("D");
            assert("1"@ != "D"@) by { assert("1"@[0] != "D"@[0]); }
            reveal_strlit("W");
            assert("1"@ != "W"@) by { assert("1"@[0] != "W"@[0]); }
            reveal_strlit("M");
            assert("1"@ != "M"@) by { assert("1"@[0] != "M"@[0]); }
        },
        Timeframe::S10 => {
            reveal_strlit("1");
            assert("1"@ =~= seq!['1']);
            reveal_strlit("D");
            assert("1"@ != "D"@) by { assert("1"@[0] != "D"@[0]); }
            reveal_strlit("W");
            assert("1"@ != "W"@) by { assert("1"@[0] != "W"@[0]); }
            reveal_strlit("M");
            assert("1"@ != "M"@) by { assert("1"@[0] != "M"@[0]); }
        },
        Timeframe::M1 => {
            reveal_strlit("1");
            assert("1"@ =~= seq!['1']);
            reveal_strlit("D");
            assert("1"@ != "D"@) by { assert("1"@[0] != "D"@[0]); }
            reveal_strlit("W");
            assert("1"@ != "W"@) by { assert("1"@[0] != "W"@[0]); }
            reveal_strlit("M");
            assert("1"@ != "M"@) by { assert("1"@[0] != "M"@[0]); }
        },
        Timeframe::M3 => {
            reveal_strlit("3");
            assert("3"@ =~= seq!['3']);
            reveal_strlit("D");
            assert("3"@ != "D"@) by { assert("3"@[0] != "D"@[0]); }
            reveal_strlit("W");
            assert("3"@ != "W"@) by { assert("3"@[0] != "W"@[0]); }
            reveal_strlit("M");
            assert("3"@ != "M"@) by { assert("3"@[0] != "M"@[0]); }
        },
        Timeframe::M5 => {
            reveal_strlit("5");
            assert("5"@ =~= seq!['5']);
            reveal_strlit("D");
            assert("5"@ != "D"@) by { assert("5"@[0] != "D"@[0]); }
            reveal_strlit("W");
            assert("5"@ != "W"@) by { assert("5"@[0] != "W"@[0]); }
            reveal_strlit("M");
            assert("5"@ != "M"@) by { assert("5"@[0] != "M"@[0]); }
        },
        Timeframe::M15 => {
            reveal_strlit("15");
            assert("15"@ =~= seq!['1', '5']);
            reveal_strlit("D");
            assert("15"@ != "D"@) by { assert("15"@[0] != "D"@[0]); }
            reveal_strlit("W");
            assert("15"@ != "W"@) by { assert("15"@[0] != "W"@[0]); }
            reveal_strlit("M");
            assert("15"@ != "M"@) by { assert("15"@[0] != "M"@[0]); }
        },
        Timeframe::M30 => {
            reveal_strlit("30");
            assert("30"@ =~= seq!['3', '0']);
            reveal_strlit("D");
            assert("30"@ != "D"@) by { assert("30"@[0] != "D"@[0]); }
            reveal_strlit("W");
            assert("30"@ != "W"@) by { assert("30"@[0] != "W"@[0]); }
            reveal_strlit("M");
            assert("30"@ != "M"@) by { assert("30"@[0] != "M"@[0]); }
        },
        Timeframe::H1 => {
            reveal_strlit("60");
            assert("60"@ =~= seq!['6', '0']);
            reveal_strlit("D");
            assert("60"@ != "D"@) by { assert("60"@[0] != "D"@[0]); }
            reveal_strlit("W");
            assert("60"@ != "W"@) by { assert("60"@[0] != "W"@[0]); }
            reveal_strlit("M");
            assert("60"@ != "M"@) by { assert("60"@[0] != "M"@[0]); }
        },
        Timeframe::H2 => {
            reveal_strlit("120");
            assert("120"@ =~= seq!['1', '2', '0']);
            reveal_strlit("D");
            assert("120"@ != "D"@) by { assert("120"@[0] != "D"@[0]); }
            reveal_strlit("W");
            assert("120"@ != "W"@) by { assert("120"@[0] != "W"@[0]); }
            reveal_strlit("M");
            assert("120"@ != "M"@) by { assert("120"@[0] != "M"@[0]); }
        },
        Timeframe::H4 => {
            reveal_strlit("240");
            assert("240"@ =~= seq!['2', '4', '0']);
            reveal_strlit("D");
            assert("240"@ != "D"@) by { assert("240"@[0] != "D"@[0]); }
            reveal_strlit("W");
            assert("240"@ != "W"@) by { assert("240"@[0] != "W"@[0]); }
            reveal_strlit("M");
            assert("240"@ != "M"@) by { assert("240"@[0] != "M"@[0]); }
        },
        Timeframe::H6 => {
            reveal_strlit("360");
            assert("360"@ =~= seq!['3', '6', '0']);
            reveal_strlit("D");
            assert("360"@ != "D"@) by { assert("360"@[0] != "D"@[0]); }
            reveal_strlit("W");
            assert("360"@ != "W"@) by { assert("360"@[0] != "W"@[0]); }
            reveal_strlit("M");
            assert("360"@ != "M"@) by { assert("360"@[0] != "M"@[0]); }
        },
        Timeframe::H8 => {
            reveal_strlit("720");
            assert("720"@ =~= seq!['7', '2', '0']);
            reveal_strlit("D");
            assert("720"@ != "D"@) by { assert("720"@[0] != "D"@[0]); }
            reveal_strlit("W");
            assert("720"@ != "W"@) by { assert("720"@[0] != "W"@[0]); }
            reveal_strlit("M");
            assert("720"@ != "M"@) by { assert("720"@[0] != "M"@[0]); }
        },
        Timeframe::H12 => {
            reveal_strlit("720");
            assert("720"@ =~= seq!['7', '2', '0']);
            reveal_strlit("D");
            assert("720"@ != "D"@) by { assert("720"@[0] != "D"@[0]); }
            reveal_strlit("W");
            assert("720"@ != "W"@) by { assert("720"@[0] != "W"@[0]); }
            reveal_strlit("M");
            assert("720"@ != "M"@) by { assert("720"@[0] != "M"@[0]); }
        },
        Timeframe::D1 => {
            reveal_strlit("D");
            assert("D"@[0] == 'D');
        },
        Timeframe::D3 => {
            reveal_strlit("D");
            assert("D"@[0] == 'D');
        },
        Timeframe::W1 => {
            reveal_strlit("W");
            assert("W"@[0] == 'W');
        },
        Timeframe::MN1 => {
            reveal_strlit("M");
            assert("M"@[0] == 'M');
        },
    }
}

} // verus!
