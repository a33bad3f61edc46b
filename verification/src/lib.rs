//! Market-data normalisation, order-book and position arithmetic, and the
//! bookkeeping rules of a crypto trading engine, verified with Verus.
pub mod decimal;
pub mod error;
pub mod text;
pub mod time;
pub mod timeframe;
pub mod types;
pub mod normalize;
pub mod binance;
pub mod bitget;
pub mod bybit;
pub mod okx;
pub mod gateio;
pub mod aggregator;
pub mod ws;
pub mod rest;
pub mod binance_rest;
pub mod bitget_rest;
pub mod bybit_rest;
pub mod okx_rest;
pub mod gate_rest;
pub mod storage;
pub mod view;
pub mod config;
pub mod scraper;
pub mod cli;
pub mod session;
