use cte::aggregator::ScraperAggregator;
use cte::cli::{
    backtest_period, backtest_roi, bybit_scrape_base, candles_within, capital_or,
    checked_backtest_roi, command_symbol, default_log_filter, not_configured_message,
    scrape_source, simulation_exchange, truncate_str, ScrapeSource,
};
use cte::config::{
    endpoints_for, registry_from_config, ExchangeConfig, ExchangeEndpoints, ExchangeRegistry,
    GeneralConfig, ScraperConfig, TuiConfig,
};
use cte::decimal::Decimal;
use cte::error::CteError;
use cte::rest::{HttpOutcome, Received};
use cte::scraper::{
    BinanceLeader, BinanceLeaderboardResponse, BinanceLeaderboardScraper, BybitCopyTradingScraper,
    BybitLeadTrader, BybitLeaderboard, OkxCopyTradingScraper, OkxLeadTradersData,
    OkxLeadTradersResponse, OkxPosition, OkxPositionsResponse, OkxRankEntry,
};
use cte::session::{
    checked_manual_limit_order, first_listed, manual_limit_order, market_fill_price,
    parse_exchange_list, parse_symbol_list, primary_exchange, primary_symbol, split_char,
    stream_symbol, timeframe_or, trim,
};
use cte::storage::{
    candle_from_row, candle_query_params, candle_query_sql, candle_to_row,
    checked_total_realized_pnl, position_from_row, position_to_row, total_realized_pnl, CandleRow,
    PositionRow,
};
use cte::timeframe::Timeframe;
use cte::types::{
    Candle, Exchange, LeadTrader, MarketType, OrderStatus, OrderType, Side, SimPosition, Symbol,
};

fn dec(s: &str) -> Decimal {
    Decimal::parse(s).expect("decimal")
}

fn symbol(raw: &str, exchange: Exchange) -> Symbol {
    Symbol {
        base: "BTC".to_string(),
        quote: "USDT".to_string(),
        market_type: MarketType::LinearPerpetual,
        exchange,
        raw_symbol: raw.to_string(),
    }
}

fn candle(raw: &str, tf: Timeframe, open_time: i64) -> Candle {
    Candle {
        symbol: symbol(raw, Exchange::Okx),
        timeframe: tf,
        open_time,
        close_time: open_time + 59_999,
        open: dec("1.50"),
        high: dec("2"),
        low: dec("-0.5"),
        close: dec("1.75"),
        volume: dec("10"),
        quote_volume: dec("17.5"),
        trades_count: 3,
        is_closed: false,
    }
}

fn empty_section(enabled: bool) -> ExchangeConfig {
    ExchangeConfig {
        enabled,
        spot_rest: None,
        futures_rest: None,
        rest: None,
        spot_ws: None,
        futures_ws: None,
        ws_public: None,
        ws_public_linear: None,
        ws_public_spot: None,
        ws: None,
        rate_limit_per_second: None,
        rate_limit_weight_per_minute: None,
    }
}

fn leader(id: &str, roi: &str, pnl: &str) -> LeadTrader {
    LeadTrader {
        id: id.to_string(),
        nickname: id.to_string(),
        exchange: Exchange::Okx,
        roi_percent: dec(roi),
        pnl_usd: dec(pnl),
        win_rate: Decimal::zero(),
        followers: 0,
        total_trades: 0,
        current_positions: vec![],
        fetched_at: 0,
    }
}

#[test]
fn candle_query_text_variants() {
    let base = "SELECT exchange, symbol, timeframe, open_time, close_time, open, high, low, close, volume, quote_volume, trades_count\n             FROM candles WHERE exchange = ?1 AND symbol = ?2 AND timeframe = ?3";
    assert_eq!(candle_query_sql(false, false, None), format!("{base} ORDER BY open_time ASC"));
    assert_eq!(
        candle_query_sql(true, true, Some(50)),
        format!("{base} AND open_time >= ?4 AND open_time <= ?5 ORDER BY open_time ASC LIMIT 50")
    );
    assert_eq!(
        candle_query_sql(false, true, None),
        format!("{base} AND open_time <= ?5 ORDER BY open_time ASC")
    );
    let p = candle_query_params(Exchange::GateIo, "BTC_USDT", Timeframe::MN1, None, Some(5));
    assert_eq!(p, ("gateio".to_string(), "BTC_USDT".to_string(), "1M".to_string(), 0, 5));
    let p = candle_query_params(Exchange::Okx, "X", Timeframe::H1, Some(-3), None);
    assert_eq!((p.3, p.4), (-3, i64::MAX));
}

#[test]
fn candle_row_round_trip() {
    let c = candle("BTC-USDT-SWAP", Timeframe::H4, 1_700_000_000_000);
    let row = candle_to_row(&c);
    assert_eq!(row.exchange, "okx");
    assert_eq!(row.timeframe, "4h");
    assert_eq!(row.open, "1.50");
    assert_eq!(row.low, "-0.5");
    assert_eq!(row.trades_count, 3);
    let back = candle_from_row(Exchange::Okx, &row);
    assert_eq!(back.symbol.raw_symbol, "BTC-USDT-SWAP");
    assert_eq!(back.symbol.base, "");
    assert_eq!(back.symbol.market_type, MarketType::LinearPerpetual);
    assert_eq!(back.timeframe, Timeframe::H4);
    assert_eq!(back.open_time, c.open_time);
    assert_eq!(back.close_time, c.close_time);
    assert_eq!(back.open.to_text(), "1.50");
    assert_eq!(back.quote_volume.to_text(), "17.5");
    assert!(back.is_closed);
    let monthly = candle("X", Timeframe::MN1, 0);
    assert_eq!(candle_from_row(Exchange::Okx, &candle_to_row(&monthly)).timeframe, Timeframe::M1);
}

#[test]
fn candle_rows_with_bad_columns() {
    let row = CandleRow {
        exchange: "okx".into(),
        symbol: "S".into(),
        timeframe: "fortnight".into(),
        open_time: i64::MAX,
        close_time: 0,
        open: "n/a".into(),
        high: "1".into(),
        low: "1".into(),
        close: "1".into(),
        volume: "1".into(),
        quote_volume: "1".into(),
        trades_count: -1,
    };
    let c = candle_from_row(Exchange::Bitget, &row);
    assert_eq!(c.timeframe, Timeframe::M1);
    assert_eq!(c.symbol.exchange, Exchange::Bitget);
    assert_ne!(c.open_time, i64::MAX);
    assert_eq!(c.close_time, 0);
    assert_eq!(c.open.to_text(), "0");
    assert_eq!(c.trades_count, u64::MAX);
}

#[test]
fn position_row_round_trip() {
    let p = SimPosition {
        id: 0x67e5_5044_10b1_426f_9247_bb68_0e5f_e0c8,
        symbol: symbol("ETHUSDT", Exchange::Bybit),
        side: Side::Short,
        entry_price: dec("2000.5"),
        quantity: dec("0.25"),
        unrealized_pnl: dec("-3"),
        realized_pnl: dec("12.75"),
        opened_at: 1_700_000_000_000,
        closed_at: Some(1_700_000_100_000),
        usd_size: dec("500.125"),
    };
    let row = position_to_row(&p);
    assert_eq!(row.id, "67e55044-10b1-426f-9247-bb680e5fe0c8");
    assert_eq!(row.exchange, "bybit");
    assert_eq!(row.side, "SHORT");
    assert_eq!(row.realized_pnl, "12.75");
    let back = position_from_row(&row);
    assert_eq!(back.id, p.id);
    assert_eq!(back.symbol.exchange, Exchange::Bybit);
    assert_eq!(back.side, Side::Short);
    assert_eq!(back.closed_at, Some(1_700_000_100_000));
    assert_eq!(back.usd_size.to_text(), "500.125");
    for (a, b) in [
        (back.entry_price, p.entry_price),
        (back.quantity, p.quantity),
        (back.unrealized_pnl, p.unrealized_pnl),
        (back.realized_pnl, p.realized_pnl),
        (back.usd_size, p.usd_size),
    ] {
        assert_eq!((a.mantissa(), a.scale()), (b.mantissa(), b.scale()));
    }
}

#[test]
fn position_rows_with_bad_columns() {
    let row = PositionRow {
        id: "not-a-uuid".into(),
        exchange: "kraken".into(),
        symbol: "S".into(),
        side: "long".into(),
        entry_price: "1".into(),
        quantity: "1".into(),
        unrealized_pnl: "1".into(),
        realized_pnl: "1".into(),
        opened_at: 5,
        closed_at: Some(i64::MAX),
        usd_size: "".into(),
    };
    let p = position_from_row(&row);
    assert_eq!(p.symbol.exchange, Exchange::Binance);
    assert_eq!(p.side, Side::Short);
    assert_eq!(p.closed_at, None);
    assert_eq!(p.usd_size.to_text(), "0");
    let q = position_from_row(&row);
    assert_ne!(p.id, q.id);
    let upper = PositionRow { id: "67E55044-10B1-426F-9247-BB680E5FE0C8".into(), side: "LONG".into(), ..row };
    let r = position_from_row(&upper);
    assert_eq!(r.id, 0x67e5_5044_10b1_426f_9247_bb68_0e5f_e0c8);
    assert_eq!(r.side, Side::Long);
}

#[test]
fn realized_profit_sum() {
    let texts: Vec<String> = vec!["1.5".into(), "x".into(), "-0.25".into(), "10".into()];
    assert_eq!(total_realized_pnl(&texts).to_text(), "11.25");
    assert_eq!(total_realized_pnl(&vec![]).to_text(), "0");
    let big: Vec<String> = vec!["79228162514264337593543950335".into(), "1".into()];
    assert!(checked_total_realized_pnl(&big).is_none());
}

#[test]
fn section_endpoints_default_and_override() {
    let mut c = empty_section(true);
    c.futures_rest = Some("http://local".into());
    match endpoints_for("binance", &c) {
        Some((Exchange::Binance, ExchangeEndpoints::Binance { spot_rest, futures_rest, spot_ws, futures_ws })) => {
            assert_eq!(spot_rest, "https://api.binance.com");
            assert_eq!(futures_rest, "http://local");
            assert_eq!(spot_ws, "wss://stream.binance.com:9443/ws");
            assert_eq!(futures_ws, "wss://fstream.binance.com/ws");
        }
        other => panic!("unexpected {:?}", other),
    }
    assert!(endpoints_for("binance", &empty_section(false)).is_none());
    assert!(endpoints_for("kraken", &empty_section(true)).is_none());
    assert!(endpoints_for("Binance", &empty_section(true)).is_none());
    match endpoints_for("gateio", &empty_section(true)) {
        Some((Exchange::GateIo, ExchangeEndpoints::GateIo { rest, ws })) => {
            assert_eq!(rest, "https://api.gateio.ws/api/v4");
            assert_eq!(ws, "wss://api.gateio.ws/ws/v4/");
        }
        other => panic!("unexpected {:?}", other),
    }
}

#[test]
fn registry_keeps_one_connector_per_exchange() {
    let mut r: ExchangeRegistry<u32> = ExchangeRegistry::new();
    assert!(r.exchanges().is_empty());
    r.register(Exchange::Bitget, 1);
    r.register(Exchange::Okx, 2);
    r.register(Exchange::Bitget, 3);
    assert_eq!(r.get(Exchange::Bitget), Some(&3));
    assert_eq!(r.get(Exchange::Okx), Some(&2));
    assert_eq!(r.get(Exchange::Binance), None);
    assert_eq!(r.exchanges(), vec![Exchange::Okx, Exchange::Bitget]);
    assert_eq!(simulation_exchange(&r), Some(Exchange::Okx));
    r.register(Exchange::Binance, 4);
    assert_eq!(simulation_exchange(&r), Some(Exchange::Binance));
    let empty: ExchangeRegistry<u32> = ExchangeRegistry::new();
    assert_eq!(simulation_exchange(&empty), None);
}

#[test]
fn registry_from_config_skips_disabled_and_unknown() {
    let mut bybit = empty_section(true);
    bybit.rest = Some("https://bybit.example".into());
    let sections = vec![
        ("bybit".to_string(), bybit),
        ("okx".to_string(), empty_section(false)),
        ("ftx".to_string(), empty_section(true)),
    ];
    let reg = registry_from_config(&sections);
    assert_eq!(reg.exchanges(), vec![Exchange::Bybit]);
    match reg.get(Exchange::Bybit) {
        Some(ExchangeEndpoints::Bybit { rest, ws_public_linear, .. }) => {
            assert_eq!(rest, "https://bybit.example");
            assert_eq!(ws_public_linear, "wss://stream.bybit.com/v5/public/linear");
        }
        other => panic!("unexpected {:?}", other),
    }
}

#[test]
fn default_sections() {
    let g = GeneralConfig::default_config();
    assert_eq!((g.log_level.as_str(), g.log_format.as_str()), ("info", "json"));
    assert_eq!((g.log_file.as_str(), g.data_dir.as_str()), ("./logs/cte.log", "./data"));
    let t = TuiConfig::default_config();
    assert_eq!((t.refresh_rate_ms, t.max_candles_displayed, t.max_trades_displayed, t.orderbook_depth), (16, 200, 100, 20));
    let s = ScraperConfig::default_config();
    assert!(s.okx_enabled && s.bybit_enabled && !s.binance_enabled);
    assert_eq!(s.scrape_interval_secs, 300);
}

#[test]
fn bybit_leaders_and_errors() {
    let s = BybitCopyTradingScraper::new("https://api.bybit.com");
    assert_eq!(s.leaders_url(20), "https://api.bybit.com/v5/copy-trading/get-leader-board?limit=20");
    let board = BybitLeaderboard {
        ret_code: 0,
        list: vec![BybitLeadTrader {
            leader_user_id: "u1".into(),
            nick_name: "Ann".into(),
            pnl: "1200.5".into(),
            roi: "35.2".into(),
            win_rate: "bad".into(),
            follower_count: 7,
            total_count: 90,
        }],
    };
    let ls = BybitCopyTradingScraper::leaders_result(HttpOutcome::Decoded(board)).unwrap();
    assert_eq!(ls[0].id, "u1");
    assert_eq!(ls[0].exchange, Exchange::Bybit);
    assert_eq!(ls[0].roi_percent.to_text(), "35.2");
    assert_eq!(ls[0].win_rate.to_text(), "0");
    assert_eq!((ls[0].followers, ls[0].total_trades), (7, 90));
    match BybitCopyTradingScraper::leaders_result(HttpOutcome::Failed(403, "denied".into())) {
        Err(CteError::Scraper { origin, message }) => {
            assert_eq!(origin, "bybit_copy_trading");
            assert_eq!(message, "HTTP 403: denied");
        }
        other => panic!("unexpected {:?}", other),
    }
    let board = BybitLeaderboard { ret_code: -2, list: vec![] };
    match BybitCopyTradingScraper::leaders_result(HttpOutcome::Decoded(board)) {
        Err(CteError::Scraper { message, .. }) => assert_eq!(message, "API error code: -2"),
        other => panic!("unexpected {:?}", other),
    }
}

fn rank(name: &str, followers: &str, days: &str) -> OkxRankEntry {
    OkxRankEntry {
        nick_name: name.into(),
        pnl: "5".into(),
        pnl_ratio: "0.12".into(),
        copy_trader_num: "3".into(),
        acc_copy_trader_num: followers.into(),
        lead_days: days.into(),
        aum: "".into(),
    }
}

#[test]
fn okx_leaders_take_the_first_page_up_to_the_limit() {
    let s = OkxCopyTradingScraper::new("https://www.okx.com");
    assert_eq!(
        s.leaders_url(3),
        "https://www.okx.com/api/v5/copytrading/public-lead-traders?instType=SWAP&sortType=pnl&state=1&limit=3"
    );
    let resp = OkxLeadTradersResponse {
        code: "0".into(),
        data: vec![OkxLeadTradersData {
            ranks: vec![rank("a", "10", "x"), rank("b", "-1", "4"), rank("c", "1", "1")],
        }],
    };
    let ls = OkxCopyTradingScraper::leaders_result(2, HttpOutcome::Decoded(resp)).unwrap();
    assert_eq!(ls.len(), 2);
    assert_eq!(ls[0].id, "a");
    assert_eq!((ls[0].followers, ls[0].total_trades), (10, 0));
    assert_eq!((ls[1].followers, ls[1].total_trades), (0, 4));
    assert_eq!(ls[0].fetched_at, ls[1].fetched_at);
    let resp = OkxLeadTradersResponse { code: "0".into(), data: vec![] };
    assert!(OkxCopyTradingScraper::leaders_result(5, HttpOutcome::Decoded(resp)).unwrap().is_empty());
    let resp = OkxLeadTradersResponse { code: "51000".into(), data: vec![] };
    match OkxCopyTradingScraper::leaders_result(5, HttpOutcome::Decoded(resp)) {
        Err(CteError::Scraper { message, .. }) => assert_eq!(message, "API error code: 51000"),
        other => panic!("unexpected {:?}", other),
    }
    match OkxCopyTradingScraper::leaders_result(5, HttpOutcome::Failed(500, "down".into())) {
        Err(CteError::Scraper { message, .. }) => assert_eq!(message, "HTTP error: down"),
        other => panic!("unexpected {:?}", other),
    }
}

#[test]
fn okx_positions_in_percent() {
    let s = OkxCopyTradingScraper::new("B");
    assert_eq!(s.positions_url("abc"), "B/api/v5/copytrading/public-current-subpositions?uniqueCode=abc");
    let resp = OkxPositionsResponse {
        code: "0".into(),
        data: vec![
            OkxPosition {
                inst_id: "BTC-USDT-SWAP".into(),
                pos_side: "long".into(),
                avg_px: "60000".into(),
                mark_px: "61000".into(),
                upl_ratio: "0.0125".into(),
                notional_usd: "1000".into(),
            },
            OkxPosition {
                inst_id: "ETH-USDT-SWAP".into(),
                pos_side: "net".into(),
                avg_px: "".into(),
                mark_px: "".into(),
                upl_ratio: "".into(),
                notional_usd: "".into(),
            },
        ],
    };
    let ps = OkxCopyTradingScraper::positions_result(Received::Decoded(resp)).unwrap();
    assert_eq!(ps[0].side, Side::Long);
    assert_eq!(ps[0].pnl_percent.to_text(), "1.2500");
    assert_eq!(ps[1].side, Side::Short);
    assert_eq!(ps[1].pnl_percent.to_text(), "0");
    match OkxCopyTradingScraper::positions_result(Received::Undecodable("eof".into())) {
        Err(CteError::Scraper { message, .. }) => assert_eq!(message, "Parse error: eof"),
        other => panic!("unexpected {:?}", other),
    }
    let huge = OkxPositionsResponse {
        code: "0".into(),
        data: vec![OkxPosition {
            inst_id: "X".into(),
            pos_side: "long".into(),
            avg_px: "1".into(),
            mark_px: "1".into(),
            upl_ratio: "79228162514264337593543950335".into(),
            notional_usd: "1".into(),
        }],
    };
    assert!(OkxCopyTradingScraper::checked_positions_result(Received::Decoded(huge)).is_none());
}

#[test]
fn binance_leaderboard_entries() {
    let s = BinanceLeaderboardScraper::new();
    assert!(s.leaders_url().ends_with("/lead-portfolio/rank"));
    assert_eq!(
        s.leaders_body(20),
        "{\"pageSize\":20,\"pageNumber\":1,\"timeRange\":\"30D\",\"dataType\":\"ROI\",\"favoriteOnly\":false}"
    );
    let resp = BinanceLeaderboardResponse {
        data: Some(vec![BinanceLeader {
            encrypted_uid: "E1".into(),
            nick_name: "Bo".into(),
            roi_text: "12.35".into(),
            pnl_text: "100.00".into(),
            follower_count: 3,
        }]),
    };
    let ls = BinanceLeaderboardScraper::leaders_result(HttpOutcome::Decoded(resp)).unwrap();
    assert_eq!(ls[0].roi_percent.to_text(), "12.35");
    assert_eq!(ls[0].pnl_usd.to_text(), "100.00");
    assert_eq!(ls[0].exchange, Exchange::Binance);
    let none = BinanceLeaderboardResponse { data: None };
    assert!(BinanceLeaderboardScraper::leaders_result(HttpOutcome::Decoded(none)).unwrap().is_empty());
    match BinanceLeaderboardScraper::leaders_result(HttpOutcome::Unsent("tls".into())) {
        Err(CteError::Scraper { origin, message }) => {
            assert_eq!(origin, "binance_leaderboard");
            assert_eq!(message, "tls");
        }
        other => panic!("unexpected {:?}", other),
    }
}

#[test]
fn aggregator_ranks_stably() {
    let mut agg = ScraperAggregator::new();
    agg.add_traders(vec![leader("a", "10", "5"), leader("b", "30", "1"), leader("c", "10.0", "9")]);
    agg.add_traders(vec![leader("d", "20", "9")]);
    let ids: Vec<&str> = agg.top_by_roi(3).iter().map(|t| t.id.as_str()).collect();
    assert_eq!(ids, vec!["b", "d", "a"]);
    let ids: Vec<&str> = agg.top_by_pnl(10).iter().map(|t| t.id.as_str()).collect();
    assert_eq!(ids, vec!["c", "d", "a", "b"]);
    assert_eq!(agg.all_traders().len(), 4);
    agg.clear();
    assert!(agg.top_by_roi(2).is_empty());
}

#[test]
fn names_are_shortened_by_bytes() {
    assert_eq!(truncate_str("Alexander the Great", 10), "Alexand...");
    assert_eq!(truncate_str("short", 18), "short");
    assert_eq!(truncate_str("exactly18bytes!!!!", 18), "exactly18bytes!!!!");
    assert_eq!(truncate_str("abcdef", 2), "...");
    assert_eq!(truncate_str("ééééé", 7), "éé...");
    assert_eq!(truncate_str("", 0), "");
}

#[test]
fn scrape_sources() {
    assert_eq!(scrape_source("OKX"), Ok(ScrapeSource::Okx));
    assert_eq!(scrape_source("bybit"), Ok(ScrapeSource::Bybit));
    assert_eq!(scrape_source("Binance"), Ok(ScrapeSource::Binance));
    assert_eq!(scrape_source("ftx"), Err("Unknown source: ftx. Use: okx, bybit, binance".to_string()));
    let mut c = empty_section(true);
    assert_eq!(bybit_scrape_base(None), "https://api.bybit.com");
    assert_eq!(bybit_scrape_base(Some(&c)), "https://api.bybit.com");
    c.rest = Some("http://proxy".into());
    assert_eq!(bybit_scrape_base(Some(&c)), "http://proxy");
}

#[test]
fn command_helpers() {
    let s = command_symbol("BTCUSDT", MarketType::Spot, Exchange::Okx);
    assert_eq!((s.base.as_str(), s.quote.as_str(), s.raw_symbol.as_str()), ("", "", "BTCUSDT"));
    assert_eq!(not_configured_message(Exchange::Okx, true), "Exchange okx not configured or disabled");
    assert_eq!(not_configured_message(Exchange::Bitget, false), "Exchange bitget not configured");
    assert_eq!(default_log_filter(0), "info,hyper=warn,reqwest=warn,tungstenite=warn");
    assert_eq!(default_log_filter(1), "debug,hyper=warn,reqwest=warn,tungstenite=warn");
    assert_eq!(default_log_filter(7), "trace,hyper=warn,reqwest=warn,tungstenite=warn");
}

#[test]
fn backtest_period_and_return() {
    assert_eq!(backtest_period("1970-01-02", "1970-01-02"), Ok((86_400_000, 172_799_000)));
    assert_eq!(backtest_period("2024-01-01", "2024-01-31").unwrap().0, 1_704_067_200_000);
    let e = backtest_period("2024-13-01", "2024-01-31").unwrap_err();
    assert!(e.starts_with("Invalid start date: "), "{e}");
    let e = backtest_period("2024-01-01", "tomorrow").unwrap_err();
    assert!(e.starts_with("Invalid end date: "), "{e}");
    assert_eq!(backtest_roi(dec("11000"), dec("10000")).to_text(), "10.00");
    assert_eq!(backtest_roi(dec("5"), Decimal::zero()).to_text(), "0");
    assert!(checked_backtest_roi(dec("79228162514264337593543950335"), dec("-1")).unwrap().is_zero());
    assert_eq!(capital_or("2500.5", dec("10000")).to_text(), "2500.5");
    assert_eq!(capital_or("inf", dec("10000")).to_text(), "10000");
}

#[test]
fn backtest_stops_after_its_period() {
    let cs = vec![candle("X", Timeframe::M1, 10), candle("X", Timeframe::M1, 20), candle("X", Timeframe::M1, 30), candle("X", Timeframe::M1, 15)];
    assert_eq!(candles_within(&cs, 20), 2);
    assert_eq!(candles_within(&cs, 100), 4);
    assert_eq!(candles_within(&cs, 5), 0);
}

#[test]
fn comma_lists() {
    assert_eq!(split_char("a,,b,", ','), vec!["a", "", "b", ""]);
    assert_eq!(split_char("", ','), vec![""]);
    assert_eq!(trim("  x y \t\n"), "x y");
    assert_eq!(trim("\u{3000}wide\u{3000}"), "wide");
    assert_eq!(parse_symbol_list(" btcusdt, ethusdt ,, solusdt"), vec!["BTCUSDT", "ETHUSDT", "SOLUSDT"]);
    assert!(parse_symbol_list(" , ").is_empty());
    assert_eq!(
        parse_exchange_list("binance, OKX ,ftx,gate.io"),
        vec![Exchange::Binance, Exchange::Okx, Exchange::GateIo]
    );
    assert_eq!(first_listed("ETHUSDT,BTCUSDT"), "ETHUSDT");
    assert_eq!(first_listed(",BTCUSDT"), "");
}

#[test]
fn session_defaults() {
    assert_eq!(timeframe_or("15m", Timeframe::M5), Timeframe::M15);
    assert_eq!(timeframe_or("weird", Timeframe::M5), Timeframe::M5);
    assert_eq!(primary_symbol(&vec![]), "BTCUSDT");
    assert_eq!(primary_symbol(&vec!["SOLUSDT".to_string()]), "SOLUSDT");
    assert_eq!(primary_exchange(&vec![]), Exchange::Binance);
    assert_eq!(primary_exchange(&vec![Exchange::Bybit, Exchange::Okx]), Exchange::Bybit);
    let s = stream_symbol("BTCUSDT", Exchange::Okx);
    assert_eq!((s.base.as_str(), s.quote.as_str()), ("BTC", "USDT"));
    assert_eq!(stream_symbol("USDTUSDTX", Exchange::Okx).base, "X");
    assert_eq!(stream_symbol("ETH", Exchange::Okx).base, "ETH");
}

#[test]
fn manual_fill_prices() {
    assert_eq!(market_fill_price(Some(dec("101.5"))).map(|d| d.to_text()), Some("101.5".to_string()));
    assert!(market_fill_price(Some(dec("0"))).is_none());
    assert!(market_fill_price(Some(dec("0.000"))).is_none());
    assert!(market_fill_price(None).is_none());
}

#[test]
fn manual_limit_orders() {
    let o = manual_limit_order(symbol("ETHUSDT", Exchange::Binance), Side::Short, dec("1000"), dec("2500"));
    assert_eq!(o.quantity.to_text(), "0.40");
    assert_eq!(o.side, Side::Short);
    assert_eq!(o.order_type, OrderType::Limit);
    assert_eq!(o.status, OrderStatus::Pending);
    assert_eq!(o.price.map(|p| p.to_text()), Some("2500".to_string()));
    assert!(o.filled_at.is_none());
    assert!(o.created_at > 1_600_000_000_000);
    let again = manual_limit_order(symbol("ETHUSDT", Exchange::Binance), Side::Short, dec("1000"), dec("2500"));
    assert_ne!(o.id, again.id);
    assert!(checked_manual_limit_order(symbol("ETHUSDT", Exchange::Binance), Side::Long, dec("10"), dec("0")).is_none());
    let c = checked_manual_limit_order(symbol("ETHUSDT", Exchange::Binance), Side::Long, dec("10"), dec("4")).unwrap();
    assert_eq!(c.quantity.to_text(), "2.50");
}
