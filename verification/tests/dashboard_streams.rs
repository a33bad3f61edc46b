use cte::decimal::Decimal;
use cte::timeframe::Timeframe;
use cte::types::{
    Candle, Exchange, MarketEvent, MarketType, OrderBook, OrderBookLevel, OrderType, Side, Symbol,
    Trade,
};
use cte::view::{
    candle_log_message, manual_order_command, market_reference_price, order_submitted_message,
    position_age_text, trade_side_text, GuiCommand, MarketView, MAX_CANDLES, MAX_LOG_MESSAGES,
    MAX_RECENT_TRADES,
};
use cte::ws::{
    binance_depth_stream, binance_kline_stream, binance_trade_stream, binance_ws_base,
    bybit_kline_topic, bybit_message_wanted, bybit_orderbook_topic, bybit_trade_topic,
    bybit_ws_url, candle_key, contains_str, depth_key, gate_channel, gate_message_wanted,
    stream_url, trade_key, BybitStream, GateStream, Reconnect, WsAction, WsEvent,
};

fn dec(s: &str) -> Decimal {
    Decimal::parse(s).expect("decimal")
}

fn symbol(raw: &str) -> Symbol {
    Symbol {
        base: "BTC".to_string(),
        quote: "USDT".to_string(),
        market_type: MarketType::LinearPerpetual,
        exchange: Exchange::Binance,
        raw_symbol: raw.to_string(),
    }
}

fn candle(raw: &str, open_time: i64) -> Candle {
    Candle {
        symbol: symbol(raw),
        timeframe: Timeframe::M1,
        open_time,
        close_time: open_time + 60_000,
        open: dec("1"),
        high: dec("1"),
        low: dec("1"),
        close: dec("1"),
        volume: dec("1"),
        quote_volume: dec("1"),
        trades_count: 0,
        is_closed: true,
    }
}

fn trade(raw: &str, id: &str) -> Trade {
    Trade {
        symbol: symbol(raw),
        id: id.to_string(),
        price: dec("1"),
        quantity: dec("1"),
        timestamp: 0,
        is_buyer_maker: false,
    }
}

fn book(raw: &str, sequence: u64, bid: &str, ask: &str) -> OrderBook {
    OrderBook {
        symbol: symbol(raw),
        timestamp: 0,
        bids: vec![OrderBookLevel { price: dec(bid), quantity: dec("1") }],
        asks: vec![OrderBookLevel { price: dec(ask), quantity: dec("1") }],
        sequence,
    }
}

#[test]
fn dashboard_starts_empty() {
    let v = MarketView::new(Exchange::Okx, "BTCUSDT".to_string());
    assert_eq!(v.selected_symbol, "BTCUSDT");
    assert!(v.candles.is_empty() && v.recent_trades.is_empty() && v.log_messages.is_empty());
    assert_eq!(v.orderbook.symbol.exchange, Exchange::Okx);
    assert_eq!(v.orderbook.symbol.quote, "USDT");
    assert_eq!(v.orderbook.symbol.raw_symbol, "");
    assert!(v.orderbook.timestamp > 1_600_000_000_000);
}

#[test]
fn dashboard_ignores_other_symbols() {
    let mut v = MarketView::new(Exchange::Binance, "BTCUSDT".to_string());
    assert!(!v.apply_event(MarketEvent::CandleUpdate(candle("ETHUSDT", 0))));
    assert!(v.apply_event(MarketEvent::CandleUpdate(candle("BTCUSDT", 0))));
    assert!(!v.apply_event(MarketEvent::TradeUpdate(trade("BTCUSDT", "t1"))));
    v.apply_event(MarketEvent::TradeUpdate(trade("ETHUSDT", "t2")));
    v.apply_event(MarketEvent::OrderBookUpdate(book("BTCUSDT", 7, "100", "101")));
    v.apply_event(MarketEvent::OrderBookUpdate(book("ETHUSDT", 8, "1", "2")));
    assert_eq!(v.candles.len(), 1);
    assert_eq!(v.recent_trades.len(), 1);
    assert_eq!(v.recent_trades[0].id, "t1");
    assert_eq!(v.orderbook.sequence, 7);
}

#[test]
fn dashboard_windows_keep_the_latest() {
    let mut v = MarketView::new(Exchange::Binance, "BTCUSDT".to_string());
    for i in 0..(MAX_CANDLES as i64 + 5) {
        v.apply_event(MarketEvent::CandleUpdate(candle("BTCUSDT", i)));
    }
    assert_eq!(v.candles.len(), MAX_CANDLES);
    assert_eq!(v.candles[0].open_time, 5);
    assert_eq!(v.candles[MAX_CANDLES - 1].open_time, MAX_CANDLES as i64 + 4);
    for i in 0..(MAX_RECENT_TRADES + 1) {
        v.apply_event(MarketEvent::TradeUpdate(trade("BTCUSDT", &i.to_string())));
    }
    assert_eq!(v.recent_trades.len(), MAX_RECENT_TRADES);
    assert_eq!(v.recent_trades[0].id, "1");
    for i in 0..(MAX_LOG_MESSAGES + 3) {
        v.push_log(format!("m{i}"));
    }
    assert_eq!(v.log_messages.len(), MAX_LOG_MESSAGES);
    assert_eq!(v.log_messages[0], "m3");
}

#[test]
fn dashboard_drains_a_batch() {
    let mut v = MarketView::new(Exchange::Binance, "BTCUSDT".to_string());
    let events = vec![
        MarketEvent::CandleUpdate(candle("BTCUSDT", 1)),
        MarketEvent::OrderBookUpdate(book("BTCUSDT", 1, "1", "2")),
        MarketEvent::CandleUpdate(candle("ETHUSDT", 2)),
        MarketEvent::CandleUpdate(candle("BTCUSDT", 3)),
        MarketEvent::OrderBookUpdate(book("BTCUSDT", 2, "1", "2")),
        MarketEvent::TradeUpdate(trade("BTCUSDT", "x")),
    ];
    let n = v.drain_events(events, "12:00:01");
    assert_eq!(n, 2);
    assert_eq!(v.candles.len(), 2);
    assert_eq!(v.candles[1].open_time, 3);
    assert_eq!(v.orderbook.sequence, 2);
    assert_eq!(v.recent_trades.len(), 1);
    assert_eq!(v.log_messages.len(), 1);
    assert_eq!(v.log_messages[0], "[12:00:01] Received 2 candle update(s) for BTCUSDT");
    assert_eq!(v.drain_events(vec![MarketEvent::TradeUpdate(trade("BTCUSDT", "y"))], "x"), 0);
    assert_eq!(v.log_messages.len(), 1);
}

#[test]
fn order_form_commands() {
    let b = book("BTCUSDT", 1, "100", "101");
    assert_eq!(market_reference_price(&b, Side::Long).unwrap().to_text(), "101");
    assert_eq!(market_reference_price(&b, Side::Short).unwrap().to_text(), "100");
    match manual_order_command(&b, "BTCUSDT".into(), Side::Long, OrderType::Market, dec("250"), None) {
        Some(GuiCommand::ManualOrder { symbol, side, order_type, size_usd, price }) => {
            assert_eq!(symbol, "BTCUSDT");
            assert_eq!(side, Side::Long);
            assert_eq!(order_type, OrderType::Market);
            assert_eq!(size_usd.to_text(), "250");
            assert_eq!(price.unwrap().to_text(), "101");
        }
        other => panic!("unexpected {:?}", other),
    }
    match manual_order_command(&b, "BTCUSDT".into(), Side::Short, OrderType::Limit, dec("10"), Some(dec("99.5"))) {
        Some(GuiCommand::ManualOrder { price, .. }) => assert_eq!(price.unwrap().to_text(), "99.5"),
        other => panic!("unexpected {:?}", other),
    }
    assert!(manual_order_command(&b, "BTCUSDT".into(), Side::Long, OrderType::Market, dec("0"), None).is_none());
    assert!(manual_order_command(&b, "BTCUSDT".into(), Side::Long, OrderType::Market, dec("-5"), None).is_none());
    let empty = OrderBook { symbol: symbol("BTCUSDT"), timestamp: 0, bids: vec![], asks: vec![], sequence: 0 };
    assert!(market_reference_price(&empty, Side::Long).is_none());
}

#[test]
fn dashboard_texts() {
    assert_eq!(
        order_submitted_message("09:30:00", Side::Short, "ETHUSDT", "100", OrderType::Limit, "2500"),
        "[09:30:00] Order submitted: SHORT ETHUSDT $100 LIMIT @ 2500"
    );
    assert_eq!(
        order_submitted_message("09:30:00", Side::Long, "ETHUSDT", "50.5", OrderType::Market, ""),
        "[09:30:00] Order submitted: LONG ETHUSDT $50.5 MARKET"
    );
    assert_eq!(candle_log_message("t", 1, "X"), "[t] Received 1 candle update(s) for X");
    assert_eq!(trade_side_text(true), "SELL");
    assert_eq!(trade_side_text(false), "BUY");
    assert_eq!(position_age_text(0), "0m");
    assert_eq!(position_age_text(59 * 60_000 + 59_999), "59m");
    assert_eq!(position_age_text(3_600_000), "1h 0m");
    assert_eq!(position_age_text(26 * 3_600_000 + 7 * 60_000 + 1), "26h 7m");
    assert_eq!(position_age_text(-61_000), "-1m");
    assert_eq!(position_age_text(-7_200_000), "-120m");
}

#[test]
fn reconnect_backoff_doubles_up_to_a_minute() {
    let (mut r, first) = Reconnect::start();
    assert_eq!(first, WsAction::Connect);
    let mut waits = vec![];
    for _ in 0..8 {
        match r.step(WsEvent::ConnectFailed) {
            WsAction::Sleep(s) => waits.push(s),
            other => panic!("unexpected {:?}", other),
        }
        assert_eq!(r.step(WsEvent::Slept), WsAction::Connect);
    }
    assert_eq!(waits, vec![1, 2, 4, 8, 16, 32, 60, 60]);
    assert_eq!(r.step(WsEvent::Connected), WsAction::Read);
    assert_eq!(r.backoff, 1);
    assert_eq!(r.step(WsEvent::Text), WsAction::HandleText);
    assert_eq!(r.step(WsEvent::Ping), WsAction::SendPong);
    assert_eq!(r.step(WsEvent::Other), WsAction::Read);
    assert_eq!(r.step(WsEvent::Closed), WsAction::Sleep(1));
    assert_eq!(r.step(WsEvent::SubscribeFailed), WsAction::Connect);
    assert_eq!(r.step(WsEvent::Cancelled), WsAction::Stop);
}

#[test]
fn stream_names_and_keys() {
    let s = symbol("BTCUSDT");
    assert_eq!(binance_kline_stream(&s, Timeframe::M1), "btcusdt@kline_1m");
    assert_eq!(binance_trade_stream(&s), "btcusdt@aggTrade");
    assert_eq!(binance_depth_stream(&s), "btcusdt@depth20@100ms");
    assert_eq!(stream_url(binance_ws_base("S", "F", MarketType::Spot), "x"), "S/x");
    assert_eq!(binance_ws_base("S", "F", MarketType::Futures), "F");
    assert_eq!(candle_key(&s, Timeframe::H1), "candle:BTCUSDT:1h");
    assert_eq!(trade_key(&s), "trade:BTCUSDT");
    assert_eq!(depth_key(&s), "depth:BTCUSDT");
    assert_eq!(bybit_ws_url("L", "S", MarketType::Spot), "S");
    assert_eq!(bybit_ws_url("L", "S", MarketType::InversePerpetual), "L");
    assert_eq!(bybit_kline_topic(&s, Timeframe::H1), "kline.60.BTCUSDT");
    assert_eq!(bybit_trade_topic(&s), "publicTrade.BTCUSDT");
    assert_eq!(bybit_orderbook_topic(&s), "orderbook.50.BTCUSDT");
}

#[test]
fn stream_message_filters() {
    assert!(bybit_message_wanted(BybitStream::Kline, &Some("kline.1.BTCUSDT".into())));
    assert!(!bybit_message_wanted(BybitStream::Kline, &Some("publicTrade.BTCUSDT".into())));
    assert!(!bybit_message_wanted(BybitStream::Trade, &None));
    assert_eq!(gate_channel(GateStream::Candles), "spot.candlesticks");
    assert!(contains_str("futures.trades", "trades"));
    assert!(!contains_str("abc", "abcd"));
    assert!(gate_message_wanted(GateStream::Trades, &Some("spot.trades".into()), &Some("update".into())));
    assert!(!gate_message_wanted(GateStream::Trades, &Some("spot.trades".into()), &Some("subscribe".into())));
    assert!(!gate_message_wanted(GateStream::OrderBook, &None, &Some("update".into())));
}
