//! Error taxonomy for the trading system.
//!
//! Errors are tagged variants, never panics. Variants carry the raw
//! offending values; callers that present errors to a user render them
//! outside the verified core.

use vstd::prelude::*;

use crate::fixed::Dec;

verus! {

/// Strategy-specific errors.
#[derive(Debug, Clone, PartialEq, Eq)]
pub enum StrategyError {
    /// Invalid configuration, with a description of the offending field.
    InvalidConfig(String),
    /// Not enough bars: need `required`, have `available`.
    InsufficientData { required: usize, available: usize },
    /// No strategy registered under this name.
    NotFound(String),
    /// Strategy initialization failed.
    InitializationFailed(String),
    /// Any other strategy fault.
    Internal(String),
}

/// Broker-specific errors.
#[derive(Debug, Clone, PartialEq, Eq)]
pub enum BrokerError {
    /// Broker configuration error.
    Configuration(String),
    /// Connection error.
    Connection(String),
    /// Authentication failed.
    AuthenticationError(String),
    /// Order rejected by the broker.
    OrderRejected(String),
    /// Not enough cash: `required` exceeds `available`.
    InsufficientFunds { required: Dec, available: Dec },
    /// No open position in the symbol.
    PositionNotFound(String),
    /// No order under the given id.
    OrderNotFound(String),
    /// Rate limited; retry after the given number of seconds.
    RateLimited { retry_after_secs: u64 },
    /// The market is closed.
    MarketClosed,
    /// Network error.
    NetworkError(String),
    /// Error reported by the broker's API.
    ApiError(String),
    /// WebSocket error.
    WebSocketError(String),
}

/// Data source errors.
#[derive(Debug, Clone, PartialEq, Eq)]
pub enum DataError {
    /// Unknown symbol.
    SymbolNotFound(String),
    /// No data available for the requested range.
    NoDataAvailable,
    /// The timeframe string could not be parsed.
    InvalidTimeframe(String),
    /// Connection error.
    ConnectionError(String),
    /// A record or date could not be parsed; carries the offending text.
    ParseError(String),
    /// Cache error.
    CacheError(String),
    /// Any other data source fault.
    Internal(String),
}

/// Indicator calculation errors.
#[derive(Debug, Clone, PartialEq, Eq)]
pub enum IndicatorError {
    /// Not enough points: need `required`, have `available`.
    InsufficientData { required: usize, available: usize },
    /// A parameter is out of its documented range.
    InvalidParameter(String),
    /// A calculation fault.
    CalculationError(String),
}

/// Top-level trading system error.
#[derive(Debug, Clone, PartialEq, Eq)]
pub enum TradingError {
    /// Invalid or missing configuration; fatal at startup.
    Config(String),
    /// A strategy fault.
    Strategy(StrategyError),
    /// A broker fault.
    Broker(BrokerError),
    /// A data source fault.
    Data(DataError),
    /// An indicator fault.
    Indicator(IndicatorError),
    /// Risk management blocked the order; a user-level outcome.
    RiskBlocked { reason: String },
    /// A total contract check failed.
    Validation(String),
    /// Serialization error.
    Serialization(String),
    /// Any other fault.
    Internal(String),
}

} // verus!
