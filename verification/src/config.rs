//! Configuration structures: application, logging, broker endpoint, risk
//! and backtest settings. Loading them from files and the environment is
//! glue outside the verified core.

use vstd::prelude::*;

use crate::fixed::{Dec, DEC_SCALE};
use crate::risk::position_sizer::PositionSizingMethod;
use crate::risk::stop_loss::StopLossMethod;

verus! {

/// General app settings.
#[derive(Debug, Clone, PartialEq)]
pub struct AppSettings {
    /// Application name
    pub name: String,
    /// Deployment environment label
    pub environment: String,
}

impl Default for AppSettings {
    fn default() -> (r: Self)
        ensures
            r.name@ == "trading-system"@,
            r.environment@ == "development"@,
    {
        AppSettings { name: "trading-system".to_owned(), environment: "development".to_owned() }
    }
}

/// Logging configuration.
#[derive(Debug, Clone, PartialEq)]
pub struct LoggingConfig {
    /// Log level name
    pub level: String,
    /// Output format name
    pub format: String,
    /// Optional log file path
    pub file: Option<String>,
}

impl Default for LoggingConfig {
    fn default() -> (r: Self)
        ensures
            r.level@ == "info"@,
            r.format@ == "pretty"@,
            r.file is None,
    {
        LoggingConfig { level: "info".to_owned(), format: "pretty".to_owned(), file: None }
    }
}

/// Log verbosity levels the command line accepts.
#[derive(Debug, Clone, Copy, PartialEq, Eq, Structural)]
pub enum LogLevel {
    Trace,
    Debug,
    Info,
    Warn,
    Error,
}

impl LogLevel {
    /// The level's lower-case name.
    pub fn as_str(&self) -> (r: &'static str)
        ensures
            self == LogLevel::Info ==> r@ == "info"@,
            self == LogLevel::Debug ==> r@ == "debug"@,
            self == LogLevel::Trace ==> r@ == "trace"@,
            self == LogLevel::Warn ==> r@ == "warn"@,
            self == LogLevel::Error ==> r@ == "error"@,
    {
        match self {
            LogLevel::Trace => "trace",
            LogLevel::Debug => "debug",
            LogLevel::Info => "info",
            LogLevel::Warn => "warn",
            LogLevel::Error => "error",
        }
    }
}

/// Alpaca API configuration: credentials and endpoint selection. The
/// HTTP client built from it lives outside the verified core.
#[derive(Debug, Clone, PartialEq)]
pub struct AlpacaConfig {
    /// API key
    pub api_key: String,
    /// API secret
    pub api_secret: String,
    /// Whether to target the paper-trading endpoint
    pub paper: bool,
}

impl AlpacaConfig {
    /// Create config directly with key and secret.
    pub fn new(api_key: String, api_secret: String, paper: bool) -> (r: Self)
        ensures
            r.api_key == api_key,
            r.api_secret == api_secret,
            r.paper == paper,
    {
        AlpacaConfig { api_key, api_secret, paper }
    }

    /// The trading API base URL: the paper endpoint when paper trading.
    pub fn base_url(&self) -> (r: &'static str)
        ensures
            self.paper ==> r@ == "https://paper-api.alpaca.markets"@,
            !self.paper ==> r@ == "https://api.alpaca.markets"@,
    {
        if self.paper {
            "https://paper-api.alpaca.markets"
        } else {
            "https://api.alpaca.markets"
        }
    }

    /// The market data API base URL.
    pub fn data_url(&self) -> (r: &'static str)
        ensures
            r@ == "https://data.alpaca.markets"@,
    {
        "https://data.alpaca.markets"
    }
}

/// Risk management settings.
#[derive(Debug, Clone, Copy, PartialEq, Eq, Structural)]
pub struct RiskSettings {
    /// Maximum position size as percentage of equity
    pub max_position_pct: Dec,
    /// Maximum total exposure as percentage of equity
    pub max_exposure_pct: Dec,
    /// Maximum loss per day as percentage of initial capital
    pub daily_loss_limit_pct: Dec,
    /// Maximum drawdown before stopping trading
    pub max_drawdown_pct: Dec,
    /// Position sizing method
    pub position_sizing: PositionSizingMethod,
    /// Stop-loss method
    pub stop_loss: StopLossMethod,
}

impl Default for RiskSettings {
    fn default() -> (r: Self)
        ensures
            r.max_position_pct@ == 10 * (DEC_SCALE as int),
            r.max_exposure_pct@ == 80 * (DEC_SCALE as int),
            r.daily_loss_limit_pct@ == 3 * (DEC_SCALE as int),
            r.max_drawdown_pct@ == 20 * (DEC_SCALE as int),
            r.position_sizing.wf(),
    {
        RiskSettings {
            max_position_pct: Dec::from_int(10),
            max_exposure_pct: Dec::from_int(80),
            daily_loss_limit_pct: Dec::from_int(3),
            max_drawdown_pct: Dec::from_int(20),
            position_sizing: PositionSizingMethod::PercentEquity { percent: Dec::from_int(2) },
            stop_loss: StopLossMethod::FixedPercent { percent: Dec::from_int(2) },
        }
    }
}

/// Backtest settings.
#[derive(Debug, Clone, Copy, PartialEq, Eq, Structural)]
pub struct BacktestSettings {
    /// Default initial capital
    pub default_capital: Dec,
    /// Commission per share
    pub commission: Dec,
    /// Slippage percentage
    pub slippage_pct: Dec,
}

impl Default for BacktestSettings {
    fn default() -> (r: Self)
        ensures
            r.default_capital@ == 100000 * (DEC_SCALE as int),
            r.commission@ == 0,
            r.slippage_pct@ == 50000,
    {
        BacktestSettings {
            default_capital: Dec::from_int(100000),
            commission: Dec::zero(),
            // 0.05%
            slippage_pct: Dec::from_micro(50000),
        }
    }
}

/// Main application configuration.
#[derive(Debug, Clone, PartialEq)]
pub struct AppConfig {
    /// General app settings
    pub app: AppSettings,
    /// Logging configuration
    pub logging: LoggingConfig,
    /// Alpaca endpoint configuration
    pub alpaca: AlpacaConfig,
    /// Risk settings
    pub risk: RiskSettings,
    /// Backtest settings
    pub backtest: BacktestSettings,
}

impl Default for AppConfig {
    fn default() -> (r: Self)
        ensures
            r.risk.position_sizing.wf(),
    {
        AppConfig {
            app: AppSettings::default(),
            logging: LoggingConfig::default(),
            alpaca: AlpacaConfig {
                api_key: String::new(),
                api_secret: String::new(),
                paper: true,
            },
            risk: RiskSettings::default(),
            backtest: BacktestSettings::default(),
        }
    }
}

} // verus!
