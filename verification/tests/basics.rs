use cte::decimal::Decimal;
use cte::error::CteError;
use cte::gateio::build_symbol;
use cte::text::{i64_to_string, parse_i64, parse_u64, to_lowercase, to_uppercase, u64_to_string};
use cte::time::millis_or_now;
use cte::timeframe::Timeframe;
use cte::types::{Exchange, MarketType, OrderBook, OrderBookLevel, Side, SimPosition, Symbol};

fn dec(s: &str) -> Decimal {
    Decimal::parse(s).expect("decimal")
}

fn symbol(raw: &str) -> Symbol {
    Symbol {
        base: "BTC".to_string(),
        quote: "USDT".to_string(),
        market_type: MarketType::LinearPerpetual,
        exchange: Exchange::Binance,
        raw_symbol: raw.to_string(),
    }
}

#[test]
fn timeframe_names_are_read_ignoring_case() {
    assert_eq!(Timeframe::parse("1h").unwrap(), Timeframe::H1);
    assert_eq!(Timeframe::parse("H1").unwrap(), Timeframe::H1);
    assert_eq!(Timeframe::parse("month").unwrap(), Timeframe::MN1);
    assert_eq!(Timeframe::parse("1MN").unwrap(), Timeframe::MN1);
    assert_eq!(Timeframe::parse("15m").unwrap(), Timeframe::M15);
}

#[test]
fn unknown_timeframe_lists_the_valid_names() {
    match Timeframe::parse("7h") {
        Err(CteError::Config(m)) => assert_eq!(
            m,
            "Unknown timeframe: 7h. Valid: 1s,10s,1m,3m,5m,15m,30m,1h,2h,4h,6h,8h,12h,1d,3d,1w,1M"
        ),
        other => panic!("unexpected {:?}", other),
    }
}

#[test]
fn timeframe_display_name_round_trips_except_month() {
    let all = [
        Timeframe::S1,
        Timeframe::S10,
        Timeframe::M1,
        Timeframe::M3,
        Timeframe::M5,
        Timeframe::M15,
        Timeframe::M30,
        Timeframe::H1,
        Timeframe::H2,
        Timeframe::H4,
        Timeframe::H6,
        Timeframe::H8,
        Timeframe::H12,
        Timeframe::D1,
        Timeframe::D3,
        Timeframe::W1,
    ];
    for tf in all {
        assert_eq!(Timeframe::parse(tf.as_str()).unwrap(), tf);
    }
    assert_eq!(Timeframe::MN1.as_str(), "1M");
    assert_eq!(Timeframe::parse(Timeframe::MN1.as_str()).unwrap(), Timeframe::M1);
}

#[test]
fn timeframe_exchange_names_and_seconds() {
    assert_eq!(Timeframe::S10.to_binance_str(), "1m");
    assert_eq!(Timeframe::H4.to_okx_str(), "4H");
    assert_eq!(Timeframe::D1.to_bybit_str(), "D");
    assert_eq!(Timeframe::W1.to_gateio_str(), "7d");
    assert_eq!(Timeframe::H1.to_bitget_str(), "1H");
    assert_eq!(Timeframe::MN1.to_seconds(), 2592000);
    assert_eq!(Timeframe::M5.to_seconds(), 300);
}

#[test]
fn exchange_names_round_trip_and_aliases() {
    for e in [Exchange::Binance, Exchange::Okx, Exchange::Bybit, Exchange::GateIo, Exchange::Bitget] {
        assert_eq!(Exchange::parse(e.as_str()).unwrap(), e);
    }
    assert_eq!(Exchange::parse("Gate.IO").unwrap(), Exchange::GateIo);
    assert_eq!(Exchange::parse("GATE").unwrap(), Exchange::GateIo);
    match Exchange::parse("kraken") {
        Err(CteError::Config(m)) => assert_eq!(m, "Unknown exchange: kraken"),
        other => panic!("unexpected {:?}", other),
    }
}

#[test]
fn market_type_names_round_trip_and_aliases() {
    for m in [MarketType::Spot, MarketType::LinearPerpetual, MarketType::InversePerpetual, MarketType::Futures] {
        assert_eq!(MarketType::parse(m.as_str()).unwrap(), m);
    }
    assert_eq!(MarketType::parse("SWAP").unwrap(), MarketType::LinearPerpetual);
    assert_eq!(MarketType::parse("inverse_perpetual").unwrap(), MarketType::InversePerpetual);
    assert!(matches!(MarketType::parse("options"), Err(CteError::Config(m)) if m == "Unknown market type: options"));
}

#[test]
fn symbol_display_text() {
    let s = symbol("BTCUSDT");
    assert_eq!(s.to_display_string(), "binance:BTC/USDT (linear)");
    let d = s.duplicate();
    assert_eq!(d.raw_symbol, "BTCUSDT");
}

#[test]
fn decimal_prints_like_rust_decimal() {
    assert_eq!(dec("123.45").to_text(), "123.45");
    assert_eq!(dec("-0.005").to_text(), "-0.005");
    assert_eq!(dec("1.500").to_text(), "1.500");
    assert_eq!(dec("0.00").to_text(), "0.00");
    assert_eq!(Decimal::zero().to_text(), "0");
    assert_eq!(Decimal::from_parts(5, 3).unwrap().to_text(), "0.005");
    assert!(Decimal::from_parts(1, 29).is_none());
}

#[test]
fn decimal_parse_and_compare() {
    assert!(Decimal::parse("abc").is_none());
    assert_eq!(Decimal::parse_or_zero("x").to_text(), "0");
    let a = dec("1.10");
    let b = dec("1.2");
    assert!(a.lt(&b));
    assert!(!b.lt(&a));
    assert!(!dec("1.0").lt(&dec("1.00")));
    assert_eq!(a.mantissa(), 110);
    assert_eq!(a.scale(), 2);
}

#[test]
fn decimal_checked_arithmetic() {
    assert_eq!(dec("1.5").checked_add(&dec("2.25")).unwrap().to_text(), "3.75");
    assert_eq!(dec("1.5").checked_sub(&dec("2.25")).unwrap().to_text(), "-0.75");
    assert_eq!(dec("1.5").checked_mul(&dec("2")).unwrap().to_text(), "3.0");
    assert!(dec("1").checked_div(&Decimal::zero()).is_none());
    let max = dec("79228162514264337593543950335");
    assert!(max.checked_add(&dec("1")).is_none());
}

#[test]
fn integer_texts() {
    assert_eq!(parse_i64("-42"), Some(-42));
    assert_eq!(parse_i64("+7"), Some(7));
    assert_eq!(parse_i64("9223372036854775808"), None);
    assert_eq!(parse_i64("-9223372036854775808"), Some(i64::MIN));
    assert_eq!(parse_i64(""), None);
    assert_eq!(parse_i64("1e3"), None);
    assert_eq!(parse_u64("18446744073709551615"), Some(u64::MAX));
    assert_eq!(parse_u64("-1"), None);
    assert_eq!(i64_to_string(-120), "-120");
    assert_eq!(u64_to_string(0), "0");
}

#[test]
fn lowercase_handles_unicode() {
    assert_eq!(to_lowercase("BTCUSDT"), "btcusdt");
    assert_eq!(to_lowercase("ÄBC"), "äbc");
}

#[test]
fn millis_out_of_chrono_range_become_now() {
    assert_eq!(millis_or_now(1_700_000_000_000), 1_700_000_000_000);
    assert_eq!(millis_or_now(8_210_266_876_799_999), 8_210_266_876_799_999);
    assert_eq!(millis_or_now(-8_334_601_228_800_000), -8_334_601_228_800_000);
    let replaced = millis_or_now(8_210_266_876_800_000);
    assert_ne!(replaced, 8_210_266_876_800_000);
    assert!(replaced > 1_600_000_000_000);
    assert_ne!(millis_or_now(-8_334_601_228_800_001), -8_334_601_228_800_001);
    assert_ne!(millis_or_now(i64::MIN), i64::MIN);
}

fn book(bids: &[(&str, &str)], asks: &[(&str, &str)]) -> OrderBook {
    OrderBook {
        symbol: symbol("BTCUSDT"),
        timestamp: 0,
        bids: bids.iter().map(|(p, q)| OrderBookLevel { price: dec(p), quantity: dec(q) }).collect(),
        asks: asks.iter().map(|(p, q)| OrderBookLevel { price: dec(p), quantity: dec(q) }).collect(),
        sequence: 1,
    }
}

#[test]
fn order_book_spread_and_mid() {
    let b = book(&[("100.5", "1"), ("100", "2")], &[("101", "3")]);
    assert_eq!(b.best_bid().unwrap().price.to_text(), "100.5");
    assert_eq!(b.best_ask().unwrap().price.to_text(), "101");
    assert_eq!(b.spread().unwrap().to_text(), "0.5");
    assert_eq!(b.mid_price().unwrap().to_text(), "100.750");
    assert!(b.checked_spread().unwrap().is_some());
    let one_sided = book(&[("100", "1")], &[]);
    assert!(one_sided.spread().is_none());
    assert!(one_sided.mid_price().is_none());
    assert!(one_sided.best_ask().is_none());
}

fn position(side: Side, entry: &str, qty: &str) -> SimPosition {
    SimPosition {
        id: 7,
        symbol: symbol("BTCUSDT"),
        side,
        entry_price: dec(entry),
        quantity: dec(qty),
        unrealized_pnl: Decimal::zero(),
        realized_pnl: Decimal::zero(),
        opened_at: 0,
        closed_at: None,
        usd_size: Decimal::zero(),
    }
}

#[test]
fn long_and_short_profit() {
    let mut long = position(Side::Long, "100", "2");
    long.update_pnl(dec("110"));
    assert_eq!(long.unrealized_pnl.to_text(), "20");
    assert_eq!(long.usd_size.to_text(), "220");
    assert_eq!(long.pnl_percent().to_text(), "10.00");
    let mut short = position(Side::Short, "100", "2");
    short.update_pnl(dec("110"));
    assert_eq!(short.unrealized_pnl.to_text(), "-20");
    assert_eq!(short.pnl_percent().to_text(), "-10.00");
    assert!(short.try_update_pnl(dec("90")));
    assert_eq!(short.unrealized_pnl.to_text(), "20");
}

#[test]
fn profit_percent_of_empty_position_is_zero() {
    let p = position(Side::Long, "0", "2");
    assert_eq!(p.pnl_percent().to_text(), "0");
    let q = position(Side::Long, "100", "0");
    assert_eq!(q.checked_pnl_percent().unwrap().to_text(), "0");
}

#[test]
fn error_messages() {
    let cases: Vec<(CteError, &str)> = vec![
        (
            CteError::ConnectionFailed { exchange: Exchange::Okx, message: "down".into() },
            "Exchange connection failed: okx - down",
        ),
        (
            CteError::WebSocket { exchange: Exchange::Bybit, message: "eof".into() },
            "WebSocket error on bybit: eof",
        ),
        (
            CteError::RestApi {
                exchange: Exchange::Binance,
                endpoint: "/api/v3/klines".into(),
                status: 418,
                body: "teapot".into(),
            },
            "REST API error: binance /api/v3/klines returned 418: teapot",
        ),
        (
            CteError::RateLimited { exchange: Exchange::GateIo, retry_after_ms: 1500 },
            "Rate limited by gateio, retry after 1500ms",
        ),
        (
            CteError::Deserialization {
                exchange: Exchange::Bitget,
                context: "kline".into(),
                source: "eof".into(),
            },
            "Deserialization failed for bitget kline: eof",
        ),
        (CteError::Storage("disk".into()), "Storage error: disk"),
        (CteError::Strategy("bad".into()), "Strategy error: bad"),
        (CteError::Config("x".into()), "Configuration error: x"),
        (
            CteError::InsufficientBalance { required: dec("10.5"), available: dec("2") },
            "Insufficient balance: required 10.5, available 2",
        ),
        (CteError::PositionLimitReached { max: 5 }, "Position limit reached: max 5 positions"),
        (
            CteError::Scraper { origin: "okx_copy_trading".into(), message: "m".into() },
            "Scraper error: okx_copy_trading - m",
        ),
        (CteError::Http("timeout".into()), "HTTP request failed: timeout"),
        (CteError::Io("denied".into()), "IO error: denied"),
    ];
    for (e, text) in cases {
        assert_eq!(e.message(), text);
    }
}

#[test]
fn upper_casing() {
    assert_eq!(to_uppercase("btc_usdt-9"), "BTC_USDT-9");
    assert_eq!(to_uppercase("ÉtÉ straße"), "ÉTÉ STRASSE");
    assert_eq!(to_uppercase(""), "");
}

#[test]
fn gate_symbols_rebuild_to_themselves() {
    let s = build_symbol("btc_usdt", "btc", "usdt", MarketType::Spot);
    assert_eq!((s.base.as_str(), s.quote.as_str(), s.raw_symbol.as_str()), ("BTC", "USDT", "btc_usdt"));
    assert_eq!(s.exchange, Exchange::GateIo);
    let again = build_symbol(&s.raw_symbol, &s.base, &s.quote, s.market_type);
    assert_eq!((again.base, again.quote, again.raw_symbol, again.market_type), (s.base, s.quote, s.raw_symbol, s.market_type));
}

#[test]
fn decimal_text_reads_back() {
    for text in ["0", "0.00", "-1.50", "123456789.000000001", "0.0000000000000000000000000001", "-79228162514264337593543950335"] {
        let d = dec(text);
        let back = dec(&d.to_text());
        assert_eq!((back.mantissa(), back.scale()), (d.mantissa(), d.scale()));
        assert_eq!(d.to_text(), text);
    }
}
