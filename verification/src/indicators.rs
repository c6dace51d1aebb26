//! Technical indicator definitions: parameters, validation and warmup
//! arithmetic, plus the multi-output record types.
//!
//! The batch and streaming floating-point evaluation of these indicators
//! runs outside the verified core; the parameter model, the required
//! window lengths and the threshold tests on their outputs are verified
//! here.

use vstd::prelude::*;

use crate::errors::IndicatorError;
use crate::fcmp::{f64_lt, gt_bits, lt_bits};

verus! {

/// Bits of `2.0f64`, the default band multiplier.
pub const F_IND_TWO_BITS: u64 = 0x4000000000000000;

/// Bits of `0.0f64`.
pub const F_IND_ZERO_BITS: u64 = 0;

/// Simple Moving Average (SMA): the arithmetic mean of the last `period`
/// values over a sliding window.
#[derive(Debug, Clone, Copy, PartialEq, Eq, Structural)]
pub struct Sma {
    /// The window length
    pub period: usize,
}

impl Sma {
    /// Create a new SMA with the specified period.
    pub fn new(period: usize) -> (r: Sma)
        requires
            period > 0,
        ensures
            r.period == period,
    {
        Sma { period }
    }

    /// The minimum number of data points required.
    pub fn period(&self) -> (r: usize)
        ensures
            r == self.period,
    {
        self.period
    }

    /// The indicator's name.
    pub fn name(&self) -> (r: &'static str)
        ensures
            r@ == "SMA"@,
    {
        "SMA"
    }
}

/// Exponential Moving Average (EMA): seeded with the SMA of the first
/// window, then smoothed with `alpha = 2 / (period + 1)` (or a custom
/// multiplier, carried as f64 bits).
#[derive(Debug, Clone, Copy, PartialEq, Eq, Structural)]
pub struct Ema {
    /// The window length
    pub period: usize,
    /// A custom smoothing factor as f64 bits; the default
    /// `2 / (period + 1)` when absent
    pub multiplier: Option<u64>,
}

impl Ema {
    /// Create a new EMA with the default smoothing factor.
    pub fn new(period: usize) -> (r: Ema)
        requires
            period > 0,
        ensures
            r.period == period,
            r.multiplier is None,
    {
        Ema { period, multiplier: None }
    }

    /// Create an EMA with a custom smoothing factor (f64 bits).
    pub fn with_multiplier(period: usize, multiplier: u64) -> (r: Ema)
        requires
            period > 0,
        ensures
            r.period == period,
            r.multiplier == Some(multiplier),
    {
        Ema { period, multiplier: Some(multiplier) }
    }

    /// The minimum number of data points required.
    pub fn period(&self) -> (r: usize)
        ensures
            r == self.period,
    {
        self.period
    }

    /// The indicator's name.
    pub fn name(&self) -> (r: &'static str)
        ensures
            r@ == "EMA"@,
    {
        "EMA"
    }
}

/// Weighted Moving Average (WMA): linearly decreasing weights within the
/// window.
#[derive(Debug, Clone, Copy, PartialEq, Eq, Structural)]
pub struct Wma {
    /// The window length
    pub period: usize,
}

impl Wma {
    /// Create a new WMA with the specified period.
    pub fn new(period: usize) -> (r: Wma)
        requires
            period > 0,
        ensures
            r.period == period,
    {
        Wma { period }
    }

    /// The minimum number of data points required.
    pub fn period(&self) -> (r: usize)
        ensures
            r == self.period,
    {
        self.period
    }

    /// The indicator's name.
    pub fn name(&self) -> (r: &'static str)
        ensures
            r@ == "WMA"@,
    {
        "WMA"
    }
}

/// Relative Strength Index (RSI) with Wilder smoothing.
#[derive(Debug, Clone, Copy, PartialEq, Eq, Structural)]
pub struct Rsi {
    /// The smoothing window length
    pub period: usize,
}

impl Rsi {
    /// Create a new RSI indicator. Common periods are 14 or 9.
    pub fn new(period: usize) -> (r: Rsi)
        requires
            period > 0,
        ensures
            r.period == period,
    {
        Rsi { period }
    }

    /// The minimum number of data points required: one more than the
    /// window, for the first delta.
    pub fn period(&self) -> (r: usize)
        requires
            self.period < usize::MAX,
        ensures
            r == self.period + 1,
    {
        self.period + 1
    }

    /// The indicator's name.
    pub fn name(&self) -> (r: &'static str)
        ensures
            r@ == "RSI"@,
    {
        "RSI"
    }
}

/// MACD output: the MACD line, its signal line and their difference.
/// All values are f64 bits.
#[derive(Debug, Clone, Copy, PartialEq, Eq, Structural)]
pub struct MacdOutput {
    /// MACD line (fast EMA - slow EMA)
    pub macd: u64,
    /// Signal line (EMA of MACD)
    pub signal: u64,
    /// Histogram (MACD - Signal)
    pub histogram: u64,
}

/// MACD indicator: two EMAs and a signal EMA over their difference.
#[derive(Debug, Clone, Copy, PartialEq, Eq, Structural)]
pub struct Macd {
    /// Fast EMA period
    pub fast_period: usize,
    /// Slow EMA period
    pub slow_period: usize,
    /// Signal EMA period
    pub signal_period: usize,
}

impl Macd {
    /// Create a new MACD with the conventional periods (12, 26, 9).
    pub fn new() -> (r: Macd)
        ensures
            r.fast_period == 12,
            r.slow_period == 26,
            r.signal_period == 9,
    {
        Macd::with_periods(12, 26, 9)
    }

    /// Create a MACD with custom periods; the fast period must be
    /// shorter than the slow one.
    pub fn with_periods(fast: usize, slow: usize, signal: usize) -> (r: Macd)
        requires
            fast > 0,
            slow > 0,
            signal > 0,
            fast < slow,
        ensures
            r.fast_period == fast,
            r.slow_period == slow,
            r.signal_period == signal,
    {
        Macd { fast_period: fast, slow_period: slow, signal_period: signal }
    }

    /// The minimum number of data points required.
    pub fn period(&self) -> (r: usize)
        requires
            self.slow_period + self.signal_period < usize::MAX,
        ensures
            r == self.slow_period + self.signal_period,
    {
        self.slow_period + self.signal_period
    }

    /// The indicator's name.
    pub fn name(&self) -> (r: &'static str)
        ensures
            r@ == "MACD"@,
    {
        "MACD"
    }
}

/// Stochastic oscillator output: %K and its %D smoothing, as f64 bits.
#[derive(Debug, Clone, Copy, PartialEq, Eq, Structural)]
pub struct StochasticOutput {
    /// %K (fast stochastic)
    pub k: u64,
    /// %D (slow stochastic / signal)
    pub d: u64,
}

/// Stochastic oscillator: the close against the high/low range.
#[derive(Debug, Clone, Copy, PartialEq, Eq, Structural)]
pub struct Stochastic {
    /// %K window length
    pub k_period: usize,
    /// %D smoothing length
    pub d_period: usize,
}

impl Stochastic {
    /// Create a new stochastic oscillator with the conventional
    /// parameters (14, 3).
    pub fn new() -> (r: Stochastic)
        ensures
            r.k_period == 14,
            r.d_period == 3,
    {
        Stochastic::with_periods(14, 3)
    }

    /// Create with custom periods.
    pub fn with_periods(k_period: usize, d_period: usize) -> (r: Stochastic)
        requires
            k_period > 0,
            d_period > 0,
        ensures
            r.k_period == k_period,
            r.d_period == d_period,
    {
        Stochastic { k_period, d_period }
    }

    /// The minimum number of data points required.
    pub fn period(&self) -> (r: usize)
        requires
            self.k_period + self.d_period < usize::MAX,
            self.k_period > 0,
            self.d_period > 0,
        ensures
            r == self.k_period + self.d_period - 1,
    {
        self.k_period + self.d_period - 1
    }

    /// The indicator's name.
    pub fn name(&self) -> (r: &'static str)
        ensures
            r@ == "Stochastic"@,
    {
        "Stochastic"
    }
}

/// Population standard deviation over a sliding window.
#[derive(Debug, Clone, Copy, PartialEq, Eq, Structural)]
pub struct StdDev {
    /// The window length
    pub period: usize,
}

impl StdDev {
    /// Create a new standard deviation indicator.
    pub fn new(period: usize) -> (r: StdDev)
        requires
            period > 1,
        ensures
            r.period == period,
    {
        StdDev { period }
    }

    /// The minimum number of data points required.
    pub fn period(&self) -> (r: usize)
        ensures
            r == self.period,
    {
        self.period
    }

    /// The indicator's name.
    pub fn name(&self) -> (r: &'static str)
        ensures
            r@ == "StdDev"@,
    {
        "StdDev"
    }
}

/// Average True Range (ATR): Wilder smoothing of the true range.
#[derive(Debug, Clone, Copy, PartialEq, Eq, Structural)]
pub struct Atr {
    /// The smoothing window length
    pub period: usize,
}

impl Atr {
    /// Create a new ATR indicator. The common period is 14.
    pub fn new(period: usize) -> (r: Atr)
        requires
            period > 0,
        ensures
            r.period == period,
    {
        Atr { period }
    }

    /// The minimum number of data points required: one more than the
    /// window, for the first true range.
    pub fn period(&self) -> (r: usize)
        requires
            self.period < usize::MAX,
        ensures
            r == self.period + 1,
    {
        self.period + 1
    }

    /// The indicator's name.
    pub fn name(&self) -> (r: &'static str)
        ensures
            r@ == "ATR"@,
    {
        "ATR"
    }
}

/// Bollinger Bands output: the bands, the bandwidth and %B, as f64 bits.
#[derive(Debug, Clone, Copy, PartialEq, Eq, Structural)]
pub struct BollingerOutput {
    /// Upper band
    pub upper: u64,
    /// Middle band (the window mean)
    pub middle: u64,
    /// Lower band
    pub lower: u64,
    /// Bandwidth ((upper - lower) / middle)
    pub bandwidth: u64,
    /// %B ((price - lower) / (upper - lower))
    pub percent_b: u64,
}

impl BollingerOutput {
    /// Check if a price is above the upper band.
    pub fn is_overbought(&self, price: u64) -> (r: bool)
        ensures
            r == f64_lt(self.upper, price),
    {
        gt_bits(price, self.upper)
    }

    /// Check if a price is below the lower band.
    pub fn is_oversold(&self, price: u64) -> (r: bool)
        ensures
            r == f64_lt(price, self.lower),
    {
        lt_bits(price, self.lower)
    }
}

/// Bollinger Bands: a mean band with bands a multiple of the population
/// standard deviation away.
#[derive(Debug, Clone, Copy, PartialEq, Eq, Structural)]
pub struct BollingerBands {
    /// The window length
    pub period: usize,
    /// The standard-deviation multiplier (f64 bits)
    pub std_dev_multiplier: u64,
}

impl BollingerBands {
    /// Create new Bollinger Bands with the conventional parameters
    /// (20, 2.0).
    pub fn new() -> (r: BollingerBands)
        ensures
            r.period == 20,
            r.std_dev_multiplier == F_IND_TWO_BITS,
    {
        BollingerBands { period: 20, std_dev_multiplier: F_IND_TWO_BITS }
    }

    /// Create Bollinger Bands with custom parameters; the multiplier
    /// (f64 bits) must be positive.
    pub fn with_params(period: usize, std_dev_multiplier: u64) -> (r: BollingerBands)
        requires
            period > 1,
            f64_lt(F_IND_ZERO_BITS, std_dev_multiplier),
        ensures
            r.period == period,
            r.std_dev_multiplier == std_dev_multiplier,
    {
        BollingerBands { period, std_dev_multiplier }
    }

    /// The minimum number of data points required.
    pub fn period(&self) -> (r: usize)
        ensures
            r == self.period,
    {
        self.period
    }

    /// The indicator's name.
    pub fn name(&self) -> (r: &'static str)
        ensures
            r@ == "Bollinger Bands"@,
    {
        "Bollinger Bands"
    }
}

/// Keltner Channels: an EMA middle band with ATR-multiple bands.
#[derive(Debug, Clone, Copy, PartialEq, Eq, Structural)]
pub struct KeltnerChannels {
    /// The EMA window length
    pub ema_period: usize,
    /// The ATR window length
    pub atr_period: usize,
    /// The ATR multiplier (f64 bits)
    pub atr_multiplier: u64,
}

impl KeltnerChannels {
    /// Create new Keltner Channels with the conventional parameters
    /// (20, 10, 2.0).
    pub fn new() -> (r: KeltnerChannels)
        ensures
            r.ema_period == 20,
            r.atr_period == 10,
            r.atr_multiplier == F_IND_TWO_BITS,
    {
        KeltnerChannels { ema_period: 20, atr_period: 10, atr_multiplier: F_IND_TWO_BITS }
    }

    /// Create Keltner Channels with custom parameters; the multiplier
    /// (f64 bits) must be positive.
    pub fn with_params(ema_period: usize, atr_period: usize, atr_multiplier: u64) -> (r:
        KeltnerChannels)
        requires
            ema_period > 0,
            atr_period > 0,
            f64_lt(F_IND_ZERO_BITS, atr_multiplier),
        ensures
            r.ema_period == ema_period,
            r.atr_period == atr_period,
            r.atr_multiplier == atr_multiplier,
    {
        KeltnerChannels { ema_period, atr_period, atr_multiplier }
    }
}

/// Validate that a data length suffices for a required window.
pub fn validate_data_len(required: usize, available: usize) -> (r: Result<(), IndicatorError>)
    ensures
        r is Ok <==> available >= required,
        r matches Err(IndicatorError::InsufficientData { required: rq, available: av })
            ==> rq == required && av == available,
        available < required ==> r matches Err(IndicatorError::InsufficientData { .. }),
{
    if available < required {
        return Err(IndicatorError::InsufficientData { required, available });
    }
    Ok(())
}

} // verus!
