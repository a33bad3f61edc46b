//! The engine's error type.
use vstd::prelude::*;

use crate::decimal::Decimal;
use crate::text::{decimal_text, u64_to_string};
use crate::types::{exchange_text, Exchange};
use crate::decimal::decimal_display;

verus! {

/// Everything that can go wrong in the engine.  Errors that come from the
/// transport (HTTP client, file system, JSON decoder) carry their message.
#[derive(Debug)]
pub enum CteError {
    ConnectionFailed { exchange: Exchange, message: String },
    WebSocket { exchange: Exchange, message: String },
    RestApi { exchange: Exchange, endpoint: String, status: u16, body: String },
    RateLimited { exchange: Exchange, retry_after_ms: u64 },
    Deserialization { exchange: Exchange, context: String, source: String },
    Storage(String),
    Strategy(String),
    Config(String),
    InsufficientBalance { required: Decimal, available: Decimal },
    PositionLimitReached { max: usize },
    Scraper { origin: String, message: String },
    Http(String),
    Io(String),
}

/// The message of an error.
pub open spec fn error_text(e: CteError) -> Seq<char> {
    match e {
        CteError::ConnectionFailed { exchange, message } => "Exchange connection failed: "@
            + exchange_text(exchange) + " - "@ + message@,
        CteError::WebSocket { exchange, message } => "WebSocket error on "@ + exchange_text(exchange)
            + ": "@ + message@,
        CteError::RestApi { exchange, endpoint, status, body } => "REST API error: "@
            + exchange_text(exchange) + " "@ + endpoint@ + " returned "@ + decimal_text(
            status as nat,
        ) + ": "@ + body@,
        CteError::RateLimited { exchange, retry_after_ms } => "Rate limited by "@ + exchange_text(
            exchange,
        ) + ", retry after "@ + decimal_text(retry_after_ms as nat) + "ms"@,
        CteError::Deserialization { exchange, context, source } => "Deserialization failed for "@
            + exchange_text(exchange) + " "@ + context@ + ": "@ + source@,
        CteError::Storage(m) => "Storage error: "@ + m@,
        CteError::Strategy(m) => "Strategy error: "@ + m@,
        CteError::Config(m) => "Configuration error: "@ + m@,
        CteError::InsufficientBalance { required, available } => "Insufficient balance: required "@
            + decimal_display(required@) + ", available "@ + decimal_display(available@),
        CteError::PositionLimitReached { max } => "Position limit reached: max "@ + decimal_text(
            max as nat,
        ) + " positions"@,
        CteError::Scraper { origin, message } => "Scraper error: "@ + origin@ + " - "@ + message@,
        CteError::Http(m) => "HTTP request failed: "@ + m@,
        CteError::Io(m) => "IO error: "@ + m@,
    }
}

impl CteError {
    /// The message of the error.
    pub fn message(&self) -> (r: String)
        ensures
            r@ == error_text(*self),
    {
        let mut s = String::new();
        match self {
            CteError::ConnectionFailed { exchange, message } => {
                s.append("Exchange connection failed: ");
                s.append(exchange.as_str());
                s.append(" - ");
                s.append(message.as_str());
            },
            CteError::WebSocket { exchange, message } => {
                s.append("WebSocket error on ");
                s.append(exchange.as_str());
                s.append(": ");
                s.append(message.as_str());
            },
            CteError::RestApi { exchange, endpoint, status, body } => {
                s.append("REST API error: ");
                s.append(exchange.as_str());
                s.append(" ");
                s.append(endpoint.as_str());
                s.append(" returned ");
                s.append(u64_to_string(*status as u64).as_str());
                s.append(": ");
                s.append(body.as_str());
            },
            CteError::RateLimited { exchange, retry_after_ms } => {
                s.append("Rate limited by ");
                s.append(exchange.as_str());
                s.append(", retry after ");
                s.append(u64_to_string(*retry_after_ms).as_str());
                s.append("ms");
            },
            CteError::Deserialization { exchange, context, source } => {
                s.append("Deserialization failed for ");
                s.append(exchange.as_str());
                s.append(" ");
                s.append(context.as_str());
                s.append(": ");
                s.append(source.as_str());
            },
            CteError::Storage(m) => {
                s.append("Storage error: ");
                s.append(m.as_str());
            },
            CteError::Strategy(m) => {
                s.append("Strategy error: ");
                s.append(m.as_str());
            },
            CteError::Config(m) => {
                s.append("Configuration error: ");
                s.append(m.as_str());
            },
            CteError::InsufficientBalance { required, available } => {
                s.append("Insufficient balance: required ");
                s.append(required.to_text().as_str());
                s.append(", available ");
                s.append(available.to_text().as_str());
            },
            CteError::PositionLimitReached { max } => {
                s.append("Position limit reached: max ");
                s.append(u64_to_string(*max as u64).as_str());
                s.append(" positions");
            },
            CteError::Scraper { origin, message } => {
                s.append("Scraper error: ");
                s.append(origin.as_str());
                s.append(" - ");
                s.append(message.as_str());
            },
            CteError::Http(m) => {
                s.append("HTTP request failed: ");
                s.append(m.as_str());
            },
            CteError::Io(m) => {
                s.append("IO error: ");
                s.append(m.as_str());
            },
        }
        assert(s@ =~= error_text(*self));
        s
    }
}

} // verus!
