//! RSI-based Trading Strategy.
//!
//! Buys when the RSI crosses up through the oversold level, sells short
//! (if allowed) when it crosses down through the overbought level, and
//! exits on the configured exit levels. The RSI itself is floating-point
//! work done outside the verified core; the crossing state machine is
//! verified here over its bit patterns.

use vstd::prelude::*;

use crate::errors::StrategyError;
use crate::fcmp::{f64_le, f64_lt, ge_bits, gt_bits, le_bits, lt_bits};
use crate::signal::{Signal, SignalMetadata, SignalStrength, SignalType};
use crate::strategy::StrategyState;

verus! {

/// Bits of `20.0f64`.
pub const F_RSI_20_BITS: u64 = 0x4034000000000000;

/// Bits of `30.0f64`.
pub const F_RSI_30_BITS: u64 = 0x403E000000000000;

/// Bits of `70.0f64`.
pub const F_RSI_70_BITS: u64 = 0x4051800000000000;

/// Bits of `80.0f64`.
pub const F_RSI_80_BITS: u64 = 0x4054000000000000;

/// Bits of `100.0f64`.
pub const F_RSI_100_BITS: u64 = 0x4059000000000000;

/// Bits of `0.0f64`.
pub const F_RSI_0_BITS: u64 = 0;

/// The internal position state every strategy carries.
#[derive(Debug, Clone, Copy, PartialEq, Eq, Structural)]
pub enum PositionState {
    /// No position
    Flat,
    /// Long position
    Long,
    /// Short position
    Short,
}

/// Configuration for the RSI strategy. Thresholds are f64 bit patterns.
#[derive(Debug, Clone, PartialEq)]
pub struct RsiConfig {
    /// Symbols to trade
    pub symbols: Vec<String>,
    /// RSI calculation period
    pub period: usize,
    /// Overbought threshold (short entry crossing, f64 bits)
    pub overbought: u64,
    /// Oversold threshold (long entry crossing, f64 bits)
    pub oversold: u64,
    /// Exit overbought level for longs (f64 bits)
    pub exit_overbought: u64,
    /// Exit oversold level for shorts (f64 bits)
    pub exit_oversold: u64,
    /// Allow short positions
    pub allow_short: bool,
}

impl Default for RsiConfig {
    fn default() -> (r: Self)
        ensures
            r.symbols@.len() == 0,
            r.period == 14,
            r.overbought == F_RSI_70_BITS,
            r.oversold == F_RSI_30_BITS,
            r.exit_overbought == F_RSI_70_BITS,
            r.exit_oversold == F_RSI_30_BITS,
            !r.allow_short,
    {
        RsiConfig {
            symbols: Vec::new(),
            period: 14,
            overbought: F_RSI_70_BITS,
            oversold: F_RSI_30_BITS,
            exit_overbought: F_RSI_70_BITS,
            exit_oversold: F_RSI_30_BITS,
            allow_short: false,
        }
    }
}

impl RsiConfig {
    /// Whether the configuration is acceptable: a period of at least two,
    /// overbought strictly above oversold, and both inside [0, 100], with
    /// at least one symbol.
    pub open spec fn spec_valid(self) -> bool {
        &&& self.period >= 2
        &&& f64_lt(self.oversold, self.overbought)
        &&& f64_le(self.overbought, F_RSI_100_BITS)
        &&& f64_le(F_RSI_0_BITS, self.oversold)
        &&& self.symbols@.len() > 0
    }

    /// Validate the configuration.
    pub fn validate(&self) -> (r: Result<(), StrategyError>)
        ensures
            r is Ok <==> self.spec_valid(),
    {
        if self.period < 2 {
            proof {
                reveal_strlit("RSI period must be at least 2");
            }
            return Err(StrategyError::InvalidConfig("RSI period must be at least 2".to_owned()));
        }
        if !lt_bits(self.oversold, self.overbought) {
            proof {
                reveal_strlit("overbought must be greater than oversold");
            }
            return Err(
                StrategyError::InvalidConfig(
                    "overbought must be greater than oversold".to_owned(),
                ),
            );
        }
        if !le_bits(self.overbought, F_RSI_100_BITS) || !le_bits(F_RSI_0_BITS, self.oversold) {
            proof {
                reveal_strlit("RSI thresholds must be between 0 and 100");
            }
            return Err(
                StrategyError::InvalidConfig(
                    "RSI thresholds must be between 0 and 100".to_owned(),
                ),
            );
        }
        if self.symbols.len() == 0 {
            proof {
                reveal_strlit("at least one symbol required");
            }
            return Err(StrategyError::InvalidConfig("at least one symbol required".to_owned()));
        }
        Ok(())
    }
}

/// The strength bucket for an RSI reading: strong at the extremes (at or
/// beyond 20/80), moderate at or beyond 30/70, else weak.
pub open spec fn spec_rsi_strength(rsi: u64) -> SignalStrength {
    if f64_le(rsi, F_RSI_20_BITS) || f64_le(F_RSI_80_BITS, rsi) {
        SignalStrength::Strong
    } else if f64_le(rsi, F_RSI_30_BITS) || f64_le(F_RSI_70_BITS, rsi) {
        SignalStrength::Moderate
    } else {
        SignalStrength::Weak
    }
}

/// The crossing decision: entries only when flat (long on an upward
/// crossing of the oversold level, short — if allowed — on a downward
/// crossing of the overbought level); exits at the configured levels.
/// The new position state rides along.
pub open spec fn spec_rsi_decision(
    config: RsiConfig,
    position: PositionState,
    prev_rsi: Option<u64>,
    rsi: u64,
) -> (Option<SignalType>, PositionState) {
    match (prev_rsi, position) {
        (Some(prev), PositionState::Flat) => {
            if f64_le(prev, config.oversold) && f64_lt(config.oversold, rsi) {
                (Some(SignalType::Buy), PositionState::Long)
            } else if config.allow_short && f64_le(config.overbought, prev) && f64_lt(
                rsi,
                config.overbought,
            ) {
                (Some(SignalType::Sell), PositionState::Short)
            } else {
                (None, PositionState::Flat)
            }
        },
        (Some(_), PositionState::Long) => {
            if f64_le(config.exit_overbought, rsi) {
                (Some(SignalType::CloseLong), PositionState::Flat)
            } else {
                (None, PositionState::Long)
            }
        },
        (Some(_), PositionState::Short) => {
            if f64_le(rsi, config.exit_oversold) {
                (Some(SignalType::CloseShort), PositionState::Flat)
            } else {
                (None, PositionState::Short)
            }
        },
        (None, p) => (None, p),
    }
}

/// RSI-based Trading Strategy: the verified crossing state machine. The
/// RSI value is handed in per bar.
#[derive(Debug, Clone, PartialEq)]
pub struct RsiStrategy {
    /// The validated configuration
    pub config: RsiConfig,
    /// The internal position state
    pub position: PositionState,
    /// The RSI after the previous bar (f64 bits)
    pub prev_rsi: Option<u64>,
    /// Bars seen so far
    pub bars_processed: usize,
    /// Signals emitted so far
    pub signals_generated: usize,
}

impl RsiStrategy {
    /// Create a new RSI strategy.
    pub fn new(config: RsiConfig) -> (r: Self)
        ensures
            r.config == config,
            r.position == PositionState::Flat,
            r.prev_rsi is None,
            r.bars_processed == 0,
            r.signals_generated == 0,
    {
        RsiStrategy {
            config,
            position: PositionState::Flat,
            prev_rsi: None,
            bars_processed: 0,
            signals_generated: 0,
        }
    }

    /// The warmup period: one full RSI window plus the bar before it.
    pub fn warmup_period(&self) -> (r: usize)
        requires
            self.config.period < usize::MAX,
        ensures
            r == self.config.period + 1,
    {
        self.config.period + 1
    }

    /// Advance the state machine by one bar. `rsi` carries the computed
    /// RSI (f64 bits), or nothing while the series is warming up. The
    /// emitted signal and the new position state are exactly the crossing
    /// decision; the previous RSI updates whenever a new one arrives.
    pub fn step(&mut self, symbol: &String, bar_close: u64, bar_ts: i64, rsi: Option<u64>) -> (r:
        Option<Signal>)
        requires
            old(self).bars_processed < usize::MAX,
            old(self).signals_generated < usize::MAX,
        ensures
            final(self).bars_processed == old(self).bars_processed + 1,
            final(self).config == old(self).config,
            match rsi {
                None => {
                    &&& r is None
                    &&& final(self).position == old(self).position
                    &&& final(self).prev_rsi == old(self).prev_rsi
                    &&& final(self).signals_generated == old(self).signals_generated
                },
                Some(current) => {
                    let (decision, new_pos) = spec_rsi_decision(
                        old(self).config,
                        old(self).position,
                        old(self).prev_rsi,
                        current,
                    );
                    &&& final(self).prev_rsi == Some(current)
                    &&& final(self).position == new_pos
                    &&& match (r, decision) {
                        (Some(sig), Some(st)) => {
                            &&& sig.signal_type == st
                            &&& sig.symbol@ == symbol@
                            &&& sig.price == bar_close
                            &&& sig.timestamp == bar_ts
                            &&& sig.strength == spec_rsi_strength(current)
                        },
                        (None, None) => true,
                        _ => false,
                    }
                    &&& final(self).signals_generated == old(self).signals_generated + (
                    if decision is Some {
                        1int
                    } else {
                        0int
                    })
                },
            },
    {
        self.bars_processed = self.bars_processed + 1;

        let current = match rsi {
            Some(v) => v,
            None => {
                return None;
            },
        };

        let decision: Option<SignalType> = match (&self.prev_rsi, self.position) {
            (Some(prev), PositionState::Flat) => {
                if le_bits(*prev, self.config.oversold) && gt_bits(current, self.config.oversold) {
                    self.position = PositionState::Long;
                    Some(SignalType::Buy)
                } else if self.config.allow_short && ge_bits(*prev, self.config.overbought)
                    && lt_bits(current, self.config.overbought) {
                    self.position = PositionState::Short;
                    Some(SignalType::Sell)
                } else {
                    None
                }
            },
            (Some(_), PositionState::Long) => {
                if ge_bits(current, self.config.exit_overbought) {
                    self.position = PositionState::Flat;
                    Some(SignalType::CloseLong)
                } else {
                    None
                }
            },
            (Some(_), PositionState::Short) => {
                if le_bits(current, self.config.exit_oversold) {
                    self.position = PositionState::Flat;
                    Some(SignalType::CloseShort)
                } else {
                    None
                }
            },
            (None, _) => None,
        };

        self.prev_rsi = Some(current);

        match decision {
            Some(signal_type) => {
                self.signals_generated = self.signals_generated + 1;
                let mut indicators: Vec<(String, u64)> = Vec::new();
                indicators.push(("rsi".to_owned(), current));
                Some(
                    Signal {
                        symbol: symbol.clone(),
                        signal_type,
                        strength: rsi_strength(current),
                        price: bar_close,
                        timestamp: bar_ts,
                        confidence: rsi_confidence(current),
                        metadata: SignalMetadata {
                            strategy_name: "RSI Strategy".to_owned(),
                            indicators,
                            reason: "RSI level crossing".to_owned(),
                            stop_loss: None,
                            take_profit: None,
                        },
                    },
                )
            },
            None => None,
        }
    }

    /// Reset the strategy: afterwards the state equals a fresh
    /// construction from the same configuration.
    pub fn reset(&mut self)
        ensures
            final(self).config == old(self).config,
            final(self).position == PositionState::Flat,
            final(self).prev_rsi is None,
            final(self).bars_processed == 0,
            final(self).signals_generated == 0,
    {
        self.position = PositionState::Flat;
        self.prev_rsi = None;
        self.bars_processed = 0;
        self.signals_generated = 0;
    }

    /// The monitoring snapshot.
    pub fn state(&self) -> (r: StrategyState)
        requires
            self.config.period < usize::MAX,
        ensures
            r.bars_processed == self.bars_processed,
            r.signals_generated == self.signals_generated,
    {
        let mut indicators: Vec<(String, u64)> = Vec::new();
        indicators.push(
            (
                "rsi".to_owned(),
                match &self.prev_rsi {
                    Some(v) => *v,
                    None => 0,
                },
            ),
        );
        StrategyState {
            name: "RSI Strategy".to_owned(),
            is_warmed_up: self.bars_processed >= self.warmup_period(),
            bars_processed: self.bars_processed,
            signals_generated: self.signals_generated,
            indicators,
            custom: String::new(),
        }
    }
}

/// Classify an RSI reading into a strength bucket.
pub fn rsi_strength(rsi: u64) -> (r: SignalStrength)
    ensures
        r == spec_rsi_strength(rsi),
{
    if le_bits(rsi, F_RSI_20_BITS) || ge_bits(rsi, F_RSI_80_BITS) {
        SignalStrength::Strong
    } else if le_bits(rsi, F_RSI_30_BITS) || ge_bits(rsi, F_RSI_70_BITS) {
        SignalStrength::Moderate
    } else {
        SignalStrength::Weak
    }
}

/// Bits of `0.9f64`.
pub const F_CONF_HIGH_BITS: u64 = 0x3FECCCCCCCCCCCCD;

/// Bits of `0.7f64`.
pub const F_CONF_MID_BITS: u64 = 0x3FE6666666666666;

/// Bits of `0.5f64`.
pub const F_CONF_LOW_BITS: u64 = 0x3FE0000000000000;

/// The confidence for an RSI reading: higher at the extremes.
pub fn rsi_confidence(rsi: u64) -> (r: u64)
    ensures
        r == if f64_le(rsi, F_RSI_20_BITS) || f64_le(F_RSI_80_BITS, rsi) {
            F_CONF_HIGH_BITS
        } else if f64_le(rsi, F_RSI_30_BITS) || f64_le(F_RSI_70_BITS, rsi) {
            F_CONF_MID_BITS
        } else {
            F_CONF_LOW_BITS
        },
{
    if le_bits(rsi, F_RSI_20_BITS) || ge_bits(rsi, F_RSI_80_BITS) {
        F_CONF_HIGH_BITS
    } else if le_bits(rsi, F_RSI_30_BITS) || ge_bits(rsi, F_RSI_70_BITS) {
        F_CONF_MID_BITS
    } else {
        F_CONF_LOW_BITS
    }
}


impl crate::strategy::StrategyConfig for RsiConfig {
    fn validate(&self) -> Result<(), StrategyError> {
        RsiConfig::validate(self)
    }
}

} // verus!
