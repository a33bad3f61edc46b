use cte::binance::{
    BinanceDepthEvent, BinanceExchangeInfo, BinanceFuturesExchangeInfo, BinanceFuturesSymbolInfo,
    BinanceKlineRaw, BinanceSymbolInfo, BinanceTradeRaw,
};
use cte::binance_rest::BinanceRestClient;
use cte::bitget::{normalize_kline, normalize_ws_kline, BitgetResponse, BitgetSpotSymbol, BitgetTicker};
use cte::bitget_rest::BitgetRestClient;
use cte::bybit::{BybitKlineResult, BybitResponse, BybitInstrumentInfo, BybitInstrumentsResult};
use cte::bybit_rest::BybitRestClient;
use cte::error::CteError;
use cte::gate_rest::{GateContract, GateRestClient};
use cte::gateio::{GateCurrencyPair, GateFuturesCandleRaw};
use cte::okx::{OkxDepthRaw, OkxResponse};
use cte::okx_rest::OkxRestClient;
use cte::rest::{ping_result, HttpOutcome, Received, RestRequest};
use cte::timeframe::Timeframe;
use cte::types::{Exchange, MarketType, Symbol};

fn symbol(raw: &str, market_type: MarketType, exchange: Exchange) -> Symbol {
    Symbol {
        base: "BTC".to_string(),
        quote: "USDT".to_string(),
        market_type,
        exchange,
        raw_symbol: raw.to_string(),
    }
}

fn query(r: &RestRequest) -> Vec<(&str, &str)> {
    r.query.iter().map(|(k, v)| (k.as_str(), v.as_str())).collect()
}

fn rest_error(e: &CteError) -> (Exchange, String, u16, String) {
    match e {
        CteError::RestApi { exchange, endpoint, status, body } => {
            (*exchange, endpoint.clone(), *status, body.clone())
        }
        other => panic!("not a REST error: {:?}", other),
    }
}

#[test]
fn binance_kline_request_caps_the_limit() {
    let c = BinanceRestClient::new("https://api.binance.com", "https://fapi.binance.com");
    let spot = symbol("BTCUSDT", MarketType::Spot, Exchange::Binance);
    let r = c.candles_request(&spot, Timeframe::H1, None, Some(5000));
    assert_eq!(r.url, "https://api.binance.com/api/v3/klines");
    assert_eq!(r.endpoint, "/api/v3/klines");
    assert_eq!(query(&r), vec![("symbol", "BTCUSDT"), ("interval", "1h"), ("limit", "1500")]);
    let perp = symbol("ETHUSDT", MarketType::LinearPerpetual, Exchange::Binance);
    let r = c.candles_request(&perp, Timeframe::M5, Some(-1500), None);
    assert_eq!(r.url, "https://fapi.binance.com/fapi/v1/klines");
    assert_eq!(
        query(&r),
        vec![("symbol", "ETHUSDT"), ("interval", "5m"), ("limit", "200"), ("startTime", "-1500")]
    );
}

#[test]
fn binance_depth_and_trade_requests() {
    let c = BinanceRestClient::new("S", "F");
    let spot = symbol("BTCUSDT", MarketType::Spot, Exchange::Binance);
    let r = c.orderbook_request(&spot, 5000);
    assert_eq!(r.url, "S/api/v3/depth");
    assert_eq!(query(&r), vec![("symbol", "BTCUSDT"), ("limit", "1000")]);
    let perp = symbol("BTCUSDT", MarketType::Futures, Exchange::Binance);
    let r = c.recent_trades_request(&perp, 10);
    assert_eq!(r.url, "F/fapi/v1/trades");
    assert_eq!(query(&r), vec![("symbol", "BTCUSDT"), ("limit", "10")]);
    assert_eq!(c.ping_request().url, "S/api/v3/ping");
    assert_eq!(c.symbols_request(MarketType::InversePerpetual).url, "F/fapi/v1/exchangeInfo");
}

#[test]
fn binance_symbols_keep_trading_entries() {
    let info = BinanceExchangeInfo {
        symbols: vec![
            BinanceSymbolInfo {
                symbol: "BTCUSDT".into(),
                base_asset: "btc".into(),
                quote_asset: "usdt".into(),
                status: "TRADING".into(),
            },
            BinanceSymbolInfo {
                symbol: "OLDUSDT".into(),
                base_asset: "OLD".into(),
                quote_asset: "USDT".into(),
                status: "BREAK".into(),
            },
        ],
    };
    let syms = BinanceRestClient::spot_symbols_result(Received::Decoded(info)).unwrap();
    assert_eq!(syms.len(), 1);
    assert_eq!(syms[0].base, "BTC");
    assert_eq!(syms[0].quote, "USDT");
    assert_eq!(syms[0].market_type, MarketType::Spot);
    let futures = BinanceFuturesExchangeInfo {
        symbols: vec![
            BinanceFuturesSymbolInfo {
                symbol: "BTCUSDT".into(),
                base_asset: "BTC".into(),
                quote_asset: "USDT".into(),
                status: "TRADING".into(),
                contract_type: "PERPETUAL".into(),
            },
            BinanceFuturesSymbolInfo {
                symbol: "BTCUSDT_240628".into(),
                base_asset: "BTC".into(),
                quote_asset: "USDT".into(),
                status: "TRADING".into(),
                contract_type: "CURRENT_QUARTER".into(),
            },
        ],
    };
    let syms = BinanceRestClient::futures_symbols_result(Received::Decoded(futures)).unwrap();
    assert_eq!(syms.len(), 1);
    assert_eq!(syms[0].market_type, MarketType::LinearPerpetual);
    match BinanceRestClient::spot_symbols_result(Received::Undecodable("eof".into())) {
        Err(CteError::ConnectionFailed { exchange, message }) => {
            assert_eq!(exchange, Exchange::Binance);
            assert_eq!(message, "Failed to parse exchange info: eof");
        }
        other => panic!("unexpected {:?}", other),
    }
    match BinanceRestClient::futures_symbols_result(Received::Unsent("dns".into())) {
        Err(CteError::ConnectionFailed { message, .. }) => assert_eq!(message, "dns"),
        other => panic!("unexpected {:?}", other),
    }
}

#[test]
fn binance_candle_answers() {
    let spot = symbol("BTCUSDT", MarketType::Spot, Exchange::Binance);
    let raw = BinanceKlineRaw(
        1_700_000_000_000,
        "1".into(),
        "2".into(),
        "0.5".into(),
        "1.5".into(),
        "10".into(),
        1_700_000_059_999,
        "15".into(),
        42,
        "0".into(),
        "0".into(),
        "0".into(),
    );
    let cs = BinanceRestClient::candles_result(&spot, Timeframe::M1, HttpOutcome::Decoded(vec![raw])).unwrap();
    assert_eq!(cs.len(), 1);
    assert_eq!(cs[0].open_time, 1_700_000_000_000);
    assert_eq!(cs[0].close_time, 1_700_000_059_999);
    assert_eq!(cs[0].close.to_text(), "1.5");
    assert_eq!(cs[0].quote_volume.to_text(), "15");
    assert_eq!(cs[0].trades_count, 42);
    assert!(cs[0].is_closed);

    let e = BinanceRestClient::candles_result(&spot, Timeframe::M1, HttpOutcome::Unsent("refused".into())).unwrap_err();
    assert_eq!(rest_error(&e), (Exchange::Binance, "/api/v3/klines".to_string(), 0, "refused".to_string()));
    let e = BinanceRestClient::candles_result(&spot, Timeframe::M1, HttpOutcome::Failed(429, "slow".into())).unwrap_err();
    assert_eq!(rest_error(&e).2, 429);
    assert_eq!(rest_error(&e).3, "slow");
    let perp = symbol("BTCUSDT", MarketType::LinearPerpetual, Exchange::Binance);
    let e = BinanceRestClient::candles_result(&perp, Timeframe::M1, HttpOutcome::Undecodable("bad json".into())).unwrap_err();
    assert_eq!(rest_error(&e), (Exchange::Binance, "/fapi/v1/klines".to_string(), 200, "Parse error: bad json".to_string()));
}

#[test]
fn binance_depth_and_trade_answers() {
    let spot = symbol("BTCUSDT", MarketType::Spot, Exchange::Binance);
    let depth = BinanceDepthEvent {
        last_update_id: 99,
        bids: vec![["100".into(), "1".into()]],
        asks: vec![["101".into(), "2".into()], ["102".into(), "x".into()]],
    };
    let b = BinanceRestClient::orderbook_result(&spot, HttpOutcome::Decoded(depth)).unwrap();
    assert_eq!(b.sequence, 99);
    assert_eq!(b.asks.len(), 2);
    assert_eq!(b.asks[1].quantity.to_text(), "0");
    let trades = vec![BinanceTradeRaw { id: 5, price: "100".into(), qty: "0.1".into(), time: 1, is_buyer_maker: true }];
    let ts = BinanceRestClient::recent_trades_result(&spot, HttpOutcome::Decoded(trades)).unwrap();
    assert_eq!(ts[0].id, "5");
    assert!(ts[0].is_buyer_maker);
}

#[test]
fn ping_answers() {
    assert!(ping_result(Exchange::Okx, Ok(204)).is_ok());
    match ping_result(Exchange::Okx, Ok(503)) {
        Err(CteError::ConnectionFailed { exchange, message }) => {
            assert_eq!(exchange, Exchange::Okx);
            assert_eq!(message, "Ping returned status 503 Service Unavailable");
        }
        other => panic!("unexpected {:?}", other),
    }
    match ping_result(Exchange::Bybit, Ok(599)) {
        Err(CteError::ConnectionFailed { message, .. }) => {
            assert_eq!(message, "Ping returned status 599 <unknown status code>")
        }
        other => panic!("unexpected {:?}", other),
    }
    match ping_result(Exchange::Bybit, Err("timed out".into())) {
        Err(CteError::ConnectionFailed { message, .. }) => assert_eq!(message, "timed out"),
        other => panic!("unexpected {:?}", other),
    }
}

#[test]
fn bitget_requests_put_product_type_where_the_api_wants_it() {
    let c = BitgetRestClient::new("B");
    let perp = symbol("BTCUSDT", MarketType::LinearPerpetual, Exchange::Bitget);
    let r = c.candles_request(&perp, Timeframe::H4, Some(10), Some(2000));
    assert_eq!(r.url, "B/api/v2/mix/market/candles");
    assert_eq!(
        query(&r),
        vec![
            ("productType", "USDT-FUTURES"),
            ("symbol", "BTCUSDT"),
            ("granularity", "4H"),
            ("limit", "1000"),
            ("startTime", "10")
        ]
    );
    let spot = symbol("BTCUSDT", MarketType::Spot, Exchange::Bitget);
    let r = c.orderbook_request(&spot, 500);
    assert_eq!(r.url, "B/api/v2/spot/market/merge-depth");
    assert_eq!(query(&r), vec![("symbol", "BTCUSDT"), ("limit", "150")]);
    let inverse = symbol("BTCUSD", MarketType::InversePerpetual, Exchange::Bitget);
    let r = c.recent_trades_request(&inverse, 900);
    assert_eq!(query(&r), vec![("symbol", "BTCUSD"), ("limit", "500"), ("productType", "COIN-FUTURES")]);
    assert_eq!(
        c.symbols_request(MarketType::Futures).url,
        "B/api/v2/mix/market/tickers?productType=USDT-FUTURES"
    );
    assert_eq!(c.ping_request().url, "B/api/v2/mix/market/tickers?productType=USDT-FUTURES");
}

#[test]
fn bitget_answers_with_an_error_code() {
    let resp = BitgetResponse { code: "40034".to_string(), msg: Some("bad \"symbol\"".to_string()), data: Vec::<Vec<String>>::new() };
    let perp = symbol("BTCUSDT", MarketType::LinearPerpetual, Exchange::Bitget);
    let e = BitgetRestClient::candles_result(&perp, Timeframe::M1, HttpOutcome::Decoded(resp)).unwrap_err();
    assert_eq!(
        rest_error(&e),
        (
            Exchange::Bitget,
            "/api/v2/mix/market/candles".to_string(),
            200,
            "API error: 40034 - Some(\"bad \\\"symbol\\\"\")".to_string()
        )
    );
    let resp = BitgetResponse { code: "1".to_string(), msg: None, data: Vec::<BitgetSpotSymbol>::new() };
    let e = BitgetRestClient::spot_symbols_result(HttpOutcome::Decoded(resp)).unwrap_err();
    assert_eq!(rest_error(&e).3, "API error: 1 - None");
    match BitgetRestClient::spot_symbols_result(HttpOutcome::Unsent("offline".into())) {
        Err(CteError::ConnectionFailed { exchange, message }) => {
            assert_eq!(exchange, Exchange::Bitget);
            assert_eq!(message, "offline");
        }
        other => panic!("unexpected {:?}", other),
    }
}

#[test]
fn bitget_candles_skip_short_rows() {
    let perp = symbol("BTCUSDT", MarketType::LinearPerpetual, Exchange::Bitget);
    let rows: Vec<Vec<String>> = vec![
        vec!["60000", "1", "2", "0.5", "1.5", "3", "4"].into_iter().map(String::from).collect(),
        vec!["60000", "1"].into_iter().map(String::from).collect(),
        vec!["abc", "1", "2", "0.5", "1.5", "3", "4"].into_iter().map(String::from).collect(),
    ];
    let resp = BitgetResponse { code: "00000".to_string(), msg: None, data: rows };
    let cs = BitgetRestClient::candles_result(&perp, Timeframe::M1, HttpOutcome::Decoded(resp)).unwrap();
    assert_eq!(cs.len(), 1);
    assert_eq!(cs[0].open_time, 60000);
    assert_eq!(cs[0].close_time, 120000);
    assert_eq!(cs[0].quote_volume.to_text(), "4");
}

#[test]
fn bitget_symbols_from_tickers_and_spot_listing() {
    let tickers = vec![
        BitgetTicker { symbol: "BTCUSDT".into(), base_coin: Some("btc".into()), quote_coin: None, last_pr: None },
        BitgetTicker { symbol: "X".into(), base_coin: None, quote_coin: Some("usdc".into()), last_pr: None },
    ];
    let resp = BitgetResponse { code: "00000".into(), msg: None, data: tickers };
    let syms = BitgetRestClient::futures_symbols_result(MarketType::LinearPerpetual, HttpOutcome::Decoded(resp)).unwrap();
    assert_eq!(syms.len(), 2);
    assert_eq!((syms[0].base.as_str(), syms[0].quote.as_str()), ("BTC", "USDT"));
    assert_eq!((syms[1].base.as_str(), syms[1].quote.as_str()), ("", "USDC"));
    let spot = vec![
        BitgetSpotSymbol { symbol: "A".into(), base_coin: "a".into(), quote_coin: "b".into(), status: "online".into() },
        BitgetSpotSymbol { symbol: "B".into(), base_coin: "a".into(), quote_coin: "b".into(), status: "halt".into() },
    ];
    let resp = BitgetResponse { code: "00000".into(), msg: None, data: spot };
    let syms = BitgetRestClient::spot_symbols_result(HttpOutcome::Decoded(resp)).unwrap();
    assert_eq!(syms.len(), 1);
    assert_eq!(syms[0].raw_symbol, "A");
}

#[test]
fn bybit_requests_and_answers() {
    let c = BybitRestClient::new("Y");
    let perp = symbol("BTCUSDT", MarketType::LinearPerpetual, Exchange::Bybit);
    let r = c.candles_request(&perp, Timeframe::D1, Some(-1), None);
    assert_eq!(r.url, "Y/v5/market/kline");
    assert_eq!(
        query(&r),
        vec![
            ("category", "linear"),
            ("symbol", "BTCUSDT"),
            ("interval", "D"),
            ("limit", "200"),
            ("start", "18446744073709551615")
        ]
    );
    assert_eq!(c.symbols_request(MarketType::Spot).url, "Y/v5/market/instruments-info?category=spot");
    let r = c.orderbook_request(&perp, 1000);
    assert_eq!(query(&r)[2], ("limit", "200"));
    let resp = BybitResponse {
        ret_code: 10001,
        ret_msg: Some("params error".to_string()),
        result: BybitKlineResult { list: vec![] },
    };
    let e = BybitRestClient::candles_result(&perp, Timeframe::M1, HttpOutcome::Decoded(resp)).unwrap_err();
    assert_eq!(rest_error(&e).3, "API error code: 10001, msg: Some(\"params error\")");
    let list = vec![
        BybitInstrumentInfo { symbol: "BTCUSDT".into(), base_coin: Some("BTC".into()), quote_coin: Some("USDT".into()), status: "Trading".into() },
        BybitInstrumentInfo { symbol: "XUSDT".into(), base_coin: None, quote_coin: None, status: "Closed".into() },
    ];
    let resp = BybitResponse { ret_code: 0, ret_msg: None, result: BybitInstrumentsResult { list } };
    let syms = BybitRestClient::symbols_result(MarketType::LinearPerpetual, HttpOutcome::Decoded(resp)).unwrap();
    assert_eq!(syms.len(), 1);
    assert_eq!(syms[0].exchange, Exchange::Bybit);
}

#[test]
fn okx_requests_write_the_query_into_the_url() {
    let c = OkxRestClient::new("O");
    let s = symbol("BTC-USDT-SWAP", MarketType::LinearPerpetual, Exchange::Okx);
    let r = c.candles_request(&s, Timeframe::H1, Some(1700), Some(1000));
    assert_eq!(r.url, "O/api/v5/market/candles?instId=BTC-USDT-SWAP&bar=1H&limit=300&after=1700");
    assert!(r.query.is_empty());
    let r = c.candles_request(&s, Timeframe::M1, None, None);
    assert_eq!(r.url, "O/api/v5/market/candles?instId=BTC-USDT-SWAP&bar=1m&limit=100");
    assert_eq!(c.orderbook_request(&s, 5).url, "O/api/v5/market/books?instId=BTC-USDT-SWAP&sz=5");
    assert_eq!(c.recent_trades_request(&s, 600).url, "O/api/v5/market/trades?instId=BTC-USDT-SWAP&limit=500");
    assert_eq!(c.symbols_request(MarketType::Futures).url, "O/api/v5/public/instruments?instType=FUTURES");
}

#[test]
fn okx_empty_book_answer() {
    let s = symbol("BTC-USDT-SWAP", MarketType::LinearPerpetual, Exchange::Okx);
    let resp: OkxResponse<OkxDepthRaw> = OkxResponse { code: "0".into(), msg: String::new(), data: vec![] };
    let b = OkxRestClient::orderbook_result(&s, HttpOutcome::Decoded(resp)).unwrap();
    assert!(b.bids.is_empty() && b.asks.is_empty());
    assert_eq!(b.sequence, 0);
    let depth = OkxDepthRaw {
        asks: vec![vec!["101".into(), "1".into(), "0".into()], vec!["102".into()]],
        bids: vec![],
        ts: "1700000000000".into(),
    };
    let resp = OkxResponse { code: "0".into(), msg: String::new(), data: vec![depth] };
    let b = OkxRestClient::orderbook_result(&s, HttpOutcome::Decoded(resp)).unwrap();
    assert_eq!(b.asks.len(), 1);
    assert_eq!(b.timestamp, 1_700_000_000_000);
}

#[test]
fn gate_requests_name_the_pair() {
    let c = GateRestClient::new("G");
    let spot = Symbol {
        base: "BTC".into(),
        quote: "USDT".into(),
        market_type: MarketType::Spot,
        exchange: Exchange::GateIo,
        raw_symbol: "BTCUSDT".into(),
    };
    let r = c.candles_request(&spot, Timeframe::W1, Some(-1), Some(10));
    assert_eq!(r.url, "G/spot/candlesticks");
    assert_eq!(
        query(&r),
        vec![("currency_pair", "BTC_USDT"), ("interval", "7d"), ("limit", "10"), ("from", "-1")]
    );
    let perp = Symbol {
        base: "ETH".into(),
        quote: "USDT".into(),
        market_type: MarketType::LinearPerpetual,
        exchange: Exchange::GateIo,
        raw_symbol: "ETH_USDT".into(),
    };
    let r = c.candles_request(&perp, Timeframe::M1, Some(1999), None);
    assert_eq!(r.url, "G/futures/usdt/candlesticks");
    assert_eq!(query(&r)[0], ("contract", "ETH_USDT"));
    assert_eq!(query(&r)[3], ("from", "1"));
    assert_eq!(query(&c.orderbook_request(&perp, 500))[1], ("limit", "100"));
    assert_eq!(c.recent_trades_request(&spot, 5).url, "G/spot/trades");
}

#[test]
fn gate_symbol_listings() {
    let pairs = vec![
        GateCurrencyPair { id: "BTC_USDT".into(), base: "BTC".into(), quote: "USDT".into(), trade_status: None },
        GateCurrencyPair { id: "OLD_USDT".into(), base: "OLD".into(), quote: "USDT".into(), trade_status: Some("untradable".into()) },
        GateCurrencyPair { id: "ETH_USDT".into(), base: "eth".into(), quote: "usdt".into(), trade_status: Some("tradable".into()) },
    ];
    let syms = GateRestClient::spot_symbols_result(HttpOutcome::Decoded(pairs)).unwrap();
    assert_eq!(syms.len(), 2);
    assert_eq!(syms[1].base, "ETH");
    let contracts = vec![
        GateContract { name: Some("BTC_USDT".into()) },
        GateContract { name: Some("A_B_C".into()) },
        GateContract { name: Some("NOUNDERSCORE".into()) },
        GateContract { name: None },
    ];
    let syms = GateRestClient::futures_symbols_result(HttpOutcome::Decoded(contracts)).unwrap();
    assert_eq!(syms.len(), 1);
    assert_eq!((syms[0].base.as_str(), syms[0].quote.as_str()), ("BTC", "USDT"));
    assert_eq!(syms[0].market_type, MarketType::LinearPerpetual);
}

#[test]
fn gate_futures_candles_in_seconds() {
    let perp = symbol("BTC_USDT", MarketType::LinearPerpetual, Exchange::GateIo);
    let raws = vec![GateFuturesCandleRaw {
        t: 1_700_000_000,
        v: Some(12),
        c: "2".into(),
        h: "3".into(),
        l: "1".into(),
        o: "1.5".into(),
        sum: None,
    }];
    let cs = GateRestClient::futures_candles_result(&perp, Timeframe::M1, HttpOutcome::Decoded(raws)).unwrap();
    assert_eq!(cs[0].open_time, 1_700_000_000_000);
    assert_eq!(cs[0].close_time, 1_700_000_060_000);
    assert_eq!(cs[0].volume.to_text(), "12");
    assert_eq!(cs[0].quote_volume.to_text(), "0");
    let e = GateRestClient::futures_candles_result(&perp, Timeframe::M1, HttpOutcome::Failed(500, "oops".into())).unwrap_err();
    assert_eq!(
        rest_error(&e),
        (Exchange::GateIo, "/futures/usdt/candlesticks".to_string(), 500, "oops".to_string())
    );
}

#[test]
fn bitget_stream_and_rest_klines_agree() {
    let s = symbol("BTCUSDT", MarketType::LinearPerpetual, Exchange::Bitget);
    let rows: Vec<Vec<String>> = vec![
        vec!["1700000000000", "1.5", "2", "1", "1.75", "10", "17.5"],
        vec!["1700000000000", "x", "2", "1", "1.75", "10"],
        vec!["abc", "1", "2", "1", "1", "1", "1"],
    ]
    .into_iter()
    .map(|r| r.into_iter().map(String::from).collect())
    .collect();
    for raw in &rows {
        let rest = normalize_kline(raw, &s, Timeframe::H1);
        let ws = normalize_ws_kline(raw, &s, Timeframe::H1);
        match (rest, ws) {
            (None, None) => {}
            (Some(a), Some(b)) => {
                assert_eq!((a.open_time, a.close_time, a.trades_count, a.is_closed), (b.open_time, b.close_time, b.trades_count, b.is_closed));
                assert_eq!(a.close_time - a.open_time, 3_600_000);
                for (x, y) in [(a.open, b.open), (a.high, b.high), (a.low, b.low), (a.close, b.close), (a.volume, b.volume), (a.quote_volume, b.quote_volume)] {
                    assert_eq!((x.mantissa(), x.scale()), (y.mantissa(), y.scale()));
                }
            }
            _ => panic!("the two readings disagree"),
        }
    }
    assert!(normalize_kline(&rows[1], &s, Timeframe::H1).is_none());
    assert!(normalize_kline(&rows[2], &s, Timeframe::H1).is_none());
}
