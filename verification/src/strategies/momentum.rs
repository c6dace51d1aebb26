//! Momentum/Trend Following Strategy.
//!
//! Enters long when momentum, trend and RSI all confirm an up-move,
//! enters short (if allowed) in the mirror case, and exits when momentum
//! or trend flips sign. The momentum, trend and RSI values are
//! floating-point work done outside the verified core; the sign and
//! threshold state machine is verified here over their bit patterns.

use vstd::prelude::*;

use crate::errors::StrategyError;
use crate::fcmp::{f64_le, f64_lt, ge_bits, gt_bits, le_bits, lt_bits, neg_bits};
use crate::signal::{Signal, SignalMetadata, SignalStrength, SignalType};
use crate::strategies::rsi_strategy::PositionState;
use crate::strategy::StrategyState;

verus! {

/// Bits of `0.0f64`.
pub const F_MOM_ZERO_BITS: u64 = 0;

/// Bits of `0.02f64`, the default minimum momentum.
pub const F_MOM_MIN_BITS: u64 = 0x3F947AE147AE147B;

/// Bits of `0.03f64`.
pub const F_MOM_MODERATE_BITS: u64 = 0x3F9EB851EB851EB8;

/// Bits of `0.05f64`.
pub const F_MOM_STRONG_BITS: u64 = 0x3FA999999999999A;

/// Bits of `50.0f64`.
pub const F_MOM_RSI_MID_BITS: u64 = 0x4049000000000000;

/// Bits of `10.0f64`.
pub const F_MOM_RSI_MODERATE_BITS: u64 = 0x4024000000000000;

/// Bits of `20.0f64`.
pub const F_MOM_RSI_STRONG_BITS: u64 = 0x4034000000000000;

/// Bits of `0.8f64`, the exit confidence.
pub const F_MOM_EXIT_CONF_BITS: u64 = 0x3FE999999999999A;

/// Configuration for the Momentum strategy. Thresholds are f64 bits.
#[derive(Debug, Clone, PartialEq)]
pub struct MomentumConfig {
    /// Symbols to trade
    pub symbols: Vec<String>,
    /// Momentum lookback period
    pub momentum_period: usize,
    /// Fast EMA period for trend
    pub fast_ema_period: usize,
    /// Slow EMA period for trend
    pub slow_ema_period: usize,
    /// RSI period for confirmation
    pub rsi_period: usize,
    /// Minimum RSI for long entry (f64 bits)
    pub rsi_long_threshold: u64,
    /// Maximum RSI for short entry (f64 bits)
    pub rsi_short_threshold: u64,
    /// Minimum momentum for entry (f64 bits)
    pub min_momentum: u64,
    /// Allow short positions
    pub allow_short: bool,
}

impl Default for MomentumConfig {
    fn default() -> (r: Self)
        ensures
            r.symbols@.len() == 0,
            r.momentum_period == 10,
            r.fast_ema_period == 12,
            r.slow_ema_period == 26,
            r.rsi_period == 14,
            r.rsi_long_threshold == F_MOM_RSI_MID_BITS,
            r.rsi_short_threshold == F_MOM_RSI_MID_BITS,
            r.min_momentum == F_MOM_MIN_BITS,
            !r.allow_short,
    {
        MomentumConfig {
            symbols: Vec::new(),
            momentum_period: 10,
            fast_ema_period: 12,
            slow_ema_period: 26,
            rsi_period: 14,
            rsi_long_threshold: F_MOM_RSI_MID_BITS,
            rsi_short_threshold: F_MOM_RSI_MID_BITS,
            // 2%
            min_momentum: F_MOM_MIN_BITS,
            allow_short: false,
        }
    }
}

impl MomentumConfig {
    /// Whether the configuration is acceptable.
    pub open spec fn spec_valid(self) -> bool {
        &&& self.momentum_period > 0
        &&& self.fast_ema_period < self.slow_ema_period
        &&& self.rsi_period > 0
        &&& self.symbols@.len() > 0
    }

    /// Validate the configuration.
    pub fn validate(&self) -> (r: Result<(), StrategyError>)
        ensures
            r is Ok <==> self.spec_valid(),
    {
        if self.momentum_period == 0 {
            proof {
                reveal_strlit("momentum period must be greater than 0");
            }
            return Err(
                StrategyError::InvalidConfig(
                    "momentum period must be greater than 0".to_owned(),
                ),
            );
        }
        if self.fast_ema_period >= self.slow_ema_period {
            proof {
                reveal_strlit("fast EMA period must be less than slow EMA period");
            }
            return Err(
                StrategyError::InvalidConfig(
                    "fast EMA period must be less than slow EMA period".to_owned(),
                ),
            );
        }
        if self.rsi_period == 0 {
            proof {
                reveal_strlit("RSI period must be greater than 0");
            }
            return Err(
                StrategyError::InvalidConfig("RSI period must be greater than 0".to_owned()),
            );
        }
        if self.symbols.len() == 0 {
            proof {
                reveal_strlit("at least one symbol required");
            }
            return Err(StrategyError::InvalidConfig("at least one symbol required".to_owned()));
        }
        Ok(())
    }
}

/// The strength bucket: strong on momentum beyond 5% with the RSI more
/// than 20 points from the midline, moderate beyond 3% and 10 points,
/// else weak. `mom_abs` is |momentum| and `rsi_extreme` the RSI distance
/// from 50, both f64 bits computed outside the verified core.
pub open spec fn spec_momentum_strength(mom_abs: u64, rsi_extreme: u64) -> SignalStrength {
    if f64_lt(F_MOM_STRONG_BITS, mom_abs) && f64_lt(F_MOM_RSI_STRONG_BITS, rsi_extreme) {
        SignalStrength::Strong
    } else if f64_lt(F_MOM_MODERATE_BITS, mom_abs) && f64_lt(
        F_MOM_RSI_MODERATE_BITS,
        rsi_extreme,
    ) {
        SignalStrength::Moderate
    } else {
        SignalStrength::Weak
    }
}

/// Classify momentum and RSI distance into a strength bucket.
pub fn momentum_strength(mom_abs: u64, rsi_extreme: u64) -> (r: SignalStrength)
    ensures
        r == spec_momentum_strength(mom_abs, rsi_extreme),
{
    if gt_bits(mom_abs, F_MOM_STRONG_BITS) && gt_bits(rsi_extreme, F_MOM_RSI_STRONG_BITS) {
        SignalStrength::Strong
    } else if gt_bits(mom_abs, F_MOM_MODERATE_BITS) && gt_bits(
        rsi_extreme,
        F_MOM_RSI_MODERATE_BITS,
    ) {
        SignalStrength::Moderate
    } else {
        SignalStrength::Weak
    }
}

/// The per-bar indicator snapshot, all f64 bits, computed outside the
/// verified core: momentum (relative price change over the lookback),
/// trend (relative fast/slow EMA spread), the RSI, |momentum|, the RSI
/// distance from 50, and the capped confidence `clamp(|momentum|/0.1)`.
#[derive(Debug, Clone, Copy, PartialEq, Eq, Structural)]
pub struct MomentumSnapshot {
    /// Momentum
    pub momentum: u64,
    /// Trend
    pub trend: u64,
    /// RSI
    pub rsi: u64,
    /// |momentum|
    pub mom_abs: u64,
    /// |RSI - 50|
    pub rsi_extreme: u64,
    /// Confidence, already clamped into [0, 1]
    pub confidence: u64,
}

/// The sign-and-threshold decision: enter long when flat on momentum at
/// or above the minimum with a positive trend and the RSI at or above
/// the long threshold; mirror for short if allowed; exit a long when
/// momentum or trend turns negative, a short when either turns positive.
pub open spec fn spec_momentum_decision(
    config: MomentumConfig,
    position: PositionState,
    snap: MomentumSnapshot,
) -> (Option<SignalType>, PositionState) {
    match position {
        PositionState::Flat => {
            if f64_le(config.min_momentum, snap.momentum) && f64_lt(F_MOM_ZERO_BITS, snap.trend)
                && f64_le(config.rsi_long_threshold, snap.rsi) {
                (Some(SignalType::Buy), PositionState::Long)
            } else if config.allow_short && f64_le(
                snap.momentum,
                spec_neg(config.min_momentum),
            ) && f64_lt(snap.trend, F_MOM_ZERO_BITS) && f64_le(
                snap.rsi,
                config.rsi_short_threshold,
            ) {
                (Some(SignalType::Sell), PositionState::Short)
            } else {
                (None, PositionState::Flat)
            }
        },
        PositionState::Long => {
            if f64_lt(snap.momentum, F_MOM_ZERO_BITS) || f64_lt(snap.trend, F_MOM_ZERO_BITS) {
                (Some(SignalType::CloseLong), PositionState::Flat)
            } else {
                (None, PositionState::Long)
            }
        },
        PositionState::Short => {
            if f64_lt(F_MOM_ZERO_BITS, snap.momentum) || f64_lt(F_MOM_ZERO_BITS, snap.trend) {
                (Some(SignalType::CloseShort), PositionState::Flat)
            } else {
                (None, PositionState::Short)
            }
        },
    }
}

/// The bit pattern with the sign flipped (exact IEEE-754 negation).
pub open spec fn spec_neg(bits: u64) -> u64 {
    bits ^ 0x8000000000000000
}

/// Momentum/Trend Following Strategy: the verified state machine. The
/// indicator snapshot is handed in per bar.
#[derive(Debug, Clone, PartialEq)]
pub struct MomentumStrategy {
    /// The validated configuration
    pub config: MomentumConfig,
    /// The internal position state
    pub position: PositionState,
    /// Bars seen so far
    pub bars_processed: usize,
    /// Signals emitted so far
    pub signals_generated: usize,
    /// The last momentum seen (f64 bits)
    pub last_momentum: Option<u64>,
    /// The last RSI seen (f64 bits)
    pub last_rsi: Option<u64>,
    /// The last trend seen (f64 bits)
    pub last_trend: Option<u64>,
}

impl MomentumStrategy {
    /// Create a new Momentum strategy.
    pub fn new(config: MomentumConfig) -> (r: Self)
        ensures
            r.config == config,
            r.position == PositionState::Flat,
            r.bars_processed == 0,
            r.signals_generated == 0,
            r.last_momentum is None,
            r.last_rsi is None,
            r.last_trend is None,
    {
        MomentumStrategy {
            config,
            position: PositionState::Flat,
            bars_processed: 0,
            signals_generated: 0,
            last_momentum: None,
            last_rsi: None,
            last_trend: None,
        }
    }

    /// The warmup period: the largest of the slow EMA window, the
    /// momentum lookback plus one, and the RSI window plus one.
    pub fn warmup_period(&self) -> (r: usize)
        requires
            self.config.momentum_period < usize::MAX,
            self.config.rsi_period < usize::MAX,
        ensures
            r == spec_max3(
                self.config.slow_ema_period as int,
                self.config.momentum_period as int + 1,
                self.config.rsi_period as int + 1,
            ),
    {
        let a = self.config.slow_ema_period;
        let b = self.config.momentum_period + 1;
        let c = self.config.rsi_period + 1;
        let ab = if a >= b {
            a
        } else {
            b
        };
        if ab >= c {
            ab
        } else {
            c
        }
    }

    /// Advance the state machine by one bar. `snap` carries the computed
    /// indicator snapshot, or nothing while the series is warming up.
    pub fn step(&mut self, symbol: &String, bar_close: u64, bar_ts: i64, snap: Option<
        MomentumSnapshot,
    >) -> (r: Option<Signal>)
        requires
            old(self).bars_processed < usize::MAX,
            old(self).signals_generated < usize::MAX,
        ensures
            final(self).bars_processed == old(self).bars_processed + 1,
            final(self).config == old(self).config,
            match snap {
                None => {
                    &&& r is None
                    &&& final(self).position == old(self).position
                    &&& final(self).signals_generated == old(self).signals_generated
                },
                Some(s) => {
                    let (decision, new_pos) = spec_momentum_decision(
                        old(self).config,
                        old(self).position,
                        s,
                    );
                    &&& final(self).position == new_pos
                    &&& final(self).last_momentum == Some(s.momentum)
                    &&& final(self).last_rsi == Some(s.rsi)
                    &&& final(self).last_trend == Some(s.trend)
                    &&& match (r, decision) {
                        (Some(sig), Some(st)) => {
                            &&& sig.signal_type == st
                            &&& sig.symbol@ == symbol@
                            &&& sig.price == bar_close
                            &&& sig.timestamp == bar_ts
                            &&& ((st == SignalType::Buy || st == SignalType::Sell)
                                ==> sig.strength == spec_momentum_strength(
                                s.mom_abs,
                                s.rsi_extreme,
                            ))
                        },
                        (None, None) => true,
                        _ => false,
                    }
                    &&& final(self).signals_generated == old(self).signals_generated + (
                    if decision is Some {
                        1int
                    } else {
                        0int
                    })
                },
            },
    {
        self.bars_processed = self.bars_processed + 1;

        let s = match snap {
            Some(s) => s,
            None => {
                return None;
            },
        };

        self.last_momentum = Some(s.momentum);
        self.last_rsi = Some(s.rsi);
        self.last_trend = Some(s.trend);

        let decision: Option<SignalType> = match self.position {
            PositionState::Flat => {
                if ge_bits(s.momentum, self.config.min_momentum) && gt_bits(
                    s.trend,
                    F_MOM_ZERO_BITS,
                ) && ge_bits(s.rsi, self.config.rsi_long_threshold) {
                    self.position = PositionState::Long;
                    Some(SignalType::Buy)
                } else if self.config.allow_short && le_bits(
                    s.momentum,
                    neg_bits(self.config.min_momentum),
                ) && lt_bits(s.trend, F_MOM_ZERO_BITS) && le_bits(
                    s.rsi,
                    self.config.rsi_short_threshold,
                ) {
                    self.position = PositionState::Short;
                    Some(SignalType::Sell)
                } else {
                    None
                }
            },
            PositionState::Long => {
                if lt_bits(s.momentum, F_MOM_ZERO_BITS) || lt_bits(s.trend, F_MOM_ZERO_BITS) {
                    self.position = PositionState::Flat;
                    Some(SignalType::CloseLong)
                } else {
                    None
                }
            },
            PositionState::Short => {
                if gt_bits(s.momentum, F_MOM_ZERO_BITS) || gt_bits(s.trend, F_MOM_ZERO_BITS) {
                    self.position = PositionState::Flat;
                    Some(SignalType::CloseShort)
                } else {
                    None
                }
            },
        };

        match decision {
            Some(signal_type) => {
                self.signals_generated = self.signals_generated + 1;
                let mut indicators: Vec<(String, u64)> = Vec::new();
                indicators.push(("momentum".to_owned(), s.momentum));
                indicators.push(("trend".to_owned(), s.trend));
                indicators.push(("rsi".to_owned(), s.rsi));
                let (strength, confidence) = match signal_type {
                    SignalType::Buy | SignalType::Sell => (
                        momentum_strength(s.mom_abs, s.rsi_extreme),
                        s.confidence,
                    ),
                    _ => (SignalStrength::Moderate, F_MOM_EXIT_CONF_BITS),
                };
                Some(
                    Signal {
                        symbol: symbol.clone(),
                        signal_type,
                        strength,
                        price: bar_close,
                        timestamp: bar_ts,
                        confidence,
                        metadata: SignalMetadata {
                            strategy_name: "Momentum".to_owned(),
                            indicators,
                            reason: "momentum and trend alignment".to_owned(),
                            stop_loss: None,
                            take_profit: None,
                        },
                    },
                )
            },
            None => None,
        }
    }

    /// Reset the strategy: afterwards the state equals a fresh
    /// construction from the same configuration.
    pub fn reset(&mut self)
        ensures
            final(self).config == old(self).config,
            final(self).position == PositionState::Flat,
            final(self).bars_processed == 0,
            final(self).signals_generated == 0,
            final(self).last_momentum is None,
            final(self).last_rsi is None,
            final(self).last_trend is None,
    {
        self.position = PositionState::Flat;
        self.bars_processed = 0;
        self.signals_generated = 0;
        self.last_momentum = None;
        self.last_rsi = None;
        self.last_trend = None;
    }

    /// The monitoring snapshot.
    pub fn state(&self) -> (r: StrategyState)
        requires
            self.config.momentum_period < usize::MAX,
            self.config.rsi_period < usize::MAX,
        ensures
            r.bars_processed == self.bars_processed,
            r.signals_generated == self.signals_generated,
    {
        let mut indicators: Vec<(String, u64)> = Vec::new();
        indicators.push(
            (
                "momentum".to_owned(),
                match &self.last_momentum {
                    Some(v) => *v,
                    None => 0,
                },
            ),
        );
        indicators.push(
            (
                "rsi".to_owned(),
                match &self.last_rsi {
                    Some(v) => *v,
                    None => F_MOM_RSI_MID_BITS,
                },
            ),
        );
        indicators.push(
            (
                "trend".to_owned(),
                match &self.last_trend {
                    Some(v) => *v,
                    None => 0,
                },
            ),
        );
        StrategyState {
            name: "Momentum".to_owned(),
            is_warmed_up: self.bars_processed >= self.warmup_period(),
            bars_processed: self.bars_processed,
            signals_generated: self.signals_generated,
            indicators,
            custom: String::new(),
        }
    }
}

/// The largest of three values.
pub open spec fn spec_max3(a: int, b: int, c: int) -> int {
    if a >= b && a >= c {
        a
    } else if b >= c {
        b
    } else {
        c
    }
}


impl crate::strategy::StrategyConfig for MomentumConfig {
    fn validate(&self) -> Result<(), StrategyError> {
        MomentumConfig::validate(self)
    }
}

} // verus!
