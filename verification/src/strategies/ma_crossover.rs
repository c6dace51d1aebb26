//! Moving Average Crossover Strategy.
//!
//! Generates buy signals when the fast MA crosses above the slow MA,
//! and sell signals when the fast MA crosses below the slow MA. The
//! moving averages themselves are floating-point work done outside the
//! verified core; the crossover decision, strength bucketing and state
//! machine are verified here, over the averages' bit patterns.

use vstd::prelude::*;

use crate::errors::StrategyError;
use crate::fcmp::{f64_le, f64_lt, ge_bits, gt_bits, le_bits, lt_bits};
use crate::signal::{Signal, SignalMetadata, SignalStrength, SignalType};
use crate::strategy::StrategyState;

verus! {

/// Bits of `1.0f64`.
pub const F_ONE_BITS: u64 = 0x3FF0000000000000;

/// Bits of `0.01f64`.
pub const F_MODERATE_BITS: u64 = 0x3F847AE147AE147B;

/// Bits of `0.02f64`.
pub const F_STRONG_BITS: u64 = 0x3F947AE147AE147B;

/// Bits of `0.001f64` (0.1%), the default crossover threshold.
pub const F_DEFAULT_THRESHOLD_BITS: u64 = 0x3F50624DD2F1A9FC;

/// Configuration for the MA Crossover strategy. The crossover threshold
/// is an f64 bit pattern.
#[derive(Debug, Clone, PartialEq)]
pub struct MACrossoverConfig {
    /// Symbols to trade
    pub symbols: Vec<String>,
    /// Fast moving average period
    pub fast_period: usize,
    /// Slow moving average period
    pub slow_period: usize,
    /// Use EMA instead of SMA
    pub use_ema: bool,
    /// Minimum relative crossover magnitude to signal (f64 bits)
    pub signal_threshold: u64,
}

impl Default for MACrossoverConfig {
    fn default() -> (r: Self)
        ensures
            r.symbols@.len() == 0,
            r.fast_period == 12,
            r.slow_period == 26,
            r.use_ema,
            r.signal_threshold == F_DEFAULT_THRESHOLD_BITS,
    {
        MACrossoverConfig {
            symbols: Vec::new(),
            fast_period: 12,
            slow_period: 26,
            use_ema: true,
            // 0.1%
            signal_threshold: F_DEFAULT_THRESHOLD_BITS,
        }
    }
}

impl MACrossoverConfig {
    /// Whether the configuration is acceptable.
    pub open spec fn spec_valid(self) -> bool {
        self.fast_period < self.slow_period && self.fast_period > 0 && self.symbols@.len() > 0
    }

    /// Validate the configuration: the fast period must be positive and
    /// shorter than the slow one, and at least one symbol is required.
    pub fn validate(&self) -> (r: Result<(), StrategyError>)
        ensures
            r is Ok <==> self.spec_valid(),
    {
        if self.fast_period >= self.slow_period {
            proof {
                reveal_strlit("fast period must be less than slow period");
            }
            return Err(
                StrategyError::InvalidConfig(
                    "fast period must be less than slow period".to_owned(),
                ),
            );
        }
        if self.fast_period == 0 {
            proof {
                reveal_strlit("fast period must be greater than 0");
            }
            return Err(
                StrategyError::InvalidConfig("fast period must be greater than 0".to_owned()),
            );
        }
        if self.symbols.len() == 0 {
            proof {
                reveal_strlit("at least one symbol required");
            }
            return Err(StrategyError::InvalidConfig("at least one symbol required".to_owned()));
        }
        Ok(())
    }
}

/// The strength bucket for a crossover magnitude: above 2% strong, above
/// 1% moderate, else weak.
pub open spec fn spec_classify_strength(magnitude: u64) -> SignalStrength {
    if f64_lt(F_STRONG_BITS, magnitude) {
        SignalStrength::Strong
    } else if f64_lt(F_MODERATE_BITS, magnitude) {
        SignalStrength::Moderate
    } else {
        SignalStrength::Weak
    }
}

/// Classify the crossover magnitude into a strength bucket.
pub fn classify_strength(magnitude: u64) -> (r: SignalStrength)
    ensures
        r == spec_classify_strength(magnitude),
{
    if gt_bits(magnitude, F_STRONG_BITS) {
        SignalStrength::Strong
    } else if gt_bits(magnitude, F_MODERATE_BITS) {
        SignalStrength::Moderate
    } else {
        SignalStrength::Weak
    }
}

/// The crossover decision: a buy when the fast average was at or below
/// the slow one and is now above it, a sell in the mirror case, both only
/// when the relative magnitude reaches the threshold; nothing without a
/// previous pair to compare against.
pub open spec fn spec_crossover_signal(
    prev_fast: Option<u64>,
    prev_slow: Option<u64>,
    current_fast: u64,
    current_slow: u64,
    magnitude: u64,
    threshold: u64,
) -> Option<SignalType> {
    match (prev_fast, prev_slow) {
        (Some(pf), Some(ps)) => if f64_le(pf, ps) && f64_lt(current_slow, current_fast) && f64_le(
            threshold,
            magnitude,
        ) {
            Some(SignalType::Buy)
        } else if f64_le(ps, pf) && f64_lt(current_fast, current_slow) && f64_le(
            threshold,
            magnitude,
        ) {
            Some(SignalType::Sell)
        } else {
            None
        },
        _ => None,
    }
}

/// Moving Average Crossover Strategy: the verified state machine. The
/// floating-point moving averages are handed in per bar.
#[derive(Debug, Clone, PartialEq)]
pub struct MACrossoverStrategy {
    /// The validated configuration
    pub config: MACrossoverConfig,
    /// The fast average after the previous bar (f64 bits)
    pub prev_fast: Option<u64>,
    /// The slow average after the previous bar (f64 bits)
    pub prev_slow: Option<u64>,
    /// Bars seen so far
    pub bars_processed: usize,
    /// Signals emitted so far
    pub signals_generated: usize,
}

impl MACrossoverStrategy {
    /// Create a new MA Crossover strategy.
    pub fn new(config: MACrossoverConfig) -> (r: Self)
        ensures
            r.config == config,
            r.prev_fast is None,
            r.prev_slow is None,
            r.bars_processed == 0,
            r.signals_generated == 0,
    {
        MACrossoverStrategy {
            config,
            prev_fast: None,
            prev_slow: None,
            bars_processed: 0,
            signals_generated: 0,
        }
    }

    /// The warmup period: one full slow window plus the bar before it.
    pub fn warmup_period(&self) -> (r: usize)
        requires
            self.config.slow_period < usize::MAX,
        ensures
            r == self.config.slow_period + 1,
    {
        self.config.slow_period + 1
    }

    /// Advance the state machine by one bar. `mas` carries the computed
    /// fast and slow averages and the relative crossover magnitude (all
    /// f64 bits), or nothing while the series is still warming up. The
    /// emitted signal is exactly the crossover decision; the previous
    /// averages update whenever new ones arrive.
    pub fn step(
        &mut self,
        symbol: &String,
        bar_close: u64,
        bar_ts: i64,
        mas: Option<(u64, u64, u64)>,
    ) -> (r: Option<Signal>)
        requires
            old(self).bars_processed < usize::MAX,
            old(self).signals_generated < usize::MAX,
        ensures
            final(self).bars_processed == old(self).bars_processed + 1,
            final(self).config == old(self).config,
            match mas {
                None => {
                    &&& r is None
                    &&& final(self).prev_fast == old(self).prev_fast
                    &&& final(self).prev_slow == old(self).prev_slow
                    &&& final(self).signals_generated == old(self).signals_generated
                },
                Some((fast, slow, magnitude)) => {
                    let decision = spec_crossover_signal(
                        old(self).prev_fast,
                        old(self).prev_slow,
                        fast,
                        slow,
                        magnitude,
                        old(self).config.signal_threshold,
                    );
                    &&& final(self).prev_fast == Some(fast)
                    &&& final(self).prev_slow == Some(slow)
                    &&& match (r, decision) {
                        (Some(sig), Some(st)) => {
                            &&& sig.signal_type == st
                            &&& sig.symbol@ == symbol@
                            &&& sig.price == bar_close
                            &&& sig.timestamp == bar_ts
                            &&& sig.strength == spec_classify_strength(magnitude)
                        },
                        (None, None) => true,
                        _ => false,
                    }
                    &&& final(self).signals_generated == old(self).signals_generated + (
                    if decision is Some {
                        1int
                    } else {
                        0int
                    })
                },
            },
    {
        self.bars_processed = self.bars_processed + 1;

        let (current_fast, current_slow, magnitude) = match mas {
            Some(t) => t,
            None => {
                return None;
            },
        };

        let decision = match (&self.prev_fast, &self.prev_slow) {
            (Some(prev_f), Some(prev_s)) => {
                if le_bits(*prev_f, *prev_s) && gt_bits(current_fast, current_slow) && ge_bits(
                    magnitude,
                    self.config.signal_threshold,
                ) {
                    Some(SignalType::Buy)
                } else if ge_bits(*prev_f, *prev_s) && lt_bits(current_fast, current_slow)
                    && ge_bits(magnitude, self.config.signal_threshold) {
                    Some(SignalType::Sell)
                } else {
                    None
                }
            },
            _ => None,
        };

        self.prev_fast = Some(current_fast);
        self.prev_slow = Some(current_slow);

        match decision {
            Some(signal_type) => {
                self.signals_generated = self.signals_generated + 1;
                // Confidence caps the magnitude at one, as `f64::min` does.
                let confidence = if le_bits(magnitude, F_ONE_BITS) {
                    magnitude
                } else {
                    F_ONE_BITS
                };
                let reason = match signal_type {
                    SignalType::Buy => "bullish crossover: fast MA crossed above slow MA",
                    _ => "bearish crossover: fast MA crossed below slow MA",
                };
                let mut indicators: Vec<(String, u64)> = Vec::new();
                indicators.push(("fast_ma".to_owned(), current_fast));
                indicators.push(("slow_ma".to_owned(), current_slow));
                indicators.push(("crossover_magnitude".to_owned(), magnitude));
                Some(
                    Signal {
                        symbol: symbol.clone(),
                        signal_type,
                        strength: classify_strength(magnitude),
                        price: bar_close,
                        timestamp: bar_ts,
                        confidence,
                        metadata: SignalMetadata {
                            strategy_name: "MA Crossover".to_owned(),
                            indicators,
                            reason: reason.to_owned(),
                            stop_loss: None,
                            take_profit: None,
                        },
                    },
                )
            },
            None => None,
        }
    }

    /// Reset the strategy: afterwards the state equals a fresh
    /// construction from the same configuration.
    pub fn reset(&mut self)
        ensures
            final(self).config == old(self).config,
            final(self).prev_fast is None,
            final(self).prev_slow is None,
            final(self).bars_processed == 0,
            final(self).signals_generated == 0,
    {
        self.prev_fast = None;
        self.prev_slow = None;
        self.bars_processed = 0;
        self.signals_generated = 0;
    }

    /// The monitoring snapshot.
    pub fn state(&self) -> (r: StrategyState)
        requires
            self.config.slow_period < usize::MAX,
        ensures
            r.bars_processed == self.bars_processed,
            r.signals_generated == self.signals_generated,
            r.is_warmed_up == (self.bars_processed >= self.config.slow_period + 1),
    {
        let mut indicators: Vec<(String, u64)> = Vec::new();
        indicators.push(
            (
                "fast_ma".to_owned(),
                match &self.prev_fast {
                    Some(v) => *v,
                    None => 0,
                },
            ),
        );
        indicators.push(
            (
                "slow_ma".to_owned(),
                match &self.prev_slow {
                    Some(v) => *v,
                    None => 0,
                },
            ),
        );
        StrategyState {
            name: "MA Crossover".to_owned(),
            is_warmed_up: self.bars_processed >= self.warmup_period(),
            bars_processed: self.bars_processed,
            signals_generated: self.signals_generated,
            indicators,
            custom: String::new(),
        }
    }
}


impl crate::strategy::StrategyConfig for MACrossoverConfig {
    fn validate(&self) -> Result<(), StrategyError> {
        MACrossoverConfig::validate(self)
    }
}

} // verus!
