//! Mean Reversion Strategy using Bollinger Bands.
//!
//! Buys when %B reaches the entry threshold near the lower band, sells
//! short (if allowed) near the upper band, and exits when %B re-crosses
//! the exit threshold. The bands themselves are floating-point work done
//! outside the verified core; the threshold state machine is verified
//! here over their bit patterns.

use vstd::prelude::*;

use crate::errors::StrategyError;
use crate::fcmp::{f64_le, ge_bits, gt_bits, le_bits, lt_bits};
use crate::signal::{Signal, SignalMetadata, SignalStrength, SignalType};
use crate::strategies::rsi_strategy::PositionState;
use crate::strategy::StrategyState;

verus! {

/// Bits of `0.05f64`.
pub const F_BB_ENTRY_BITS: u64 = 0x3FA999999999999A;

/// Bits of `0.5f64`.
pub const F_BB_EXIT_BITS: u64 = 0x3FE0000000000000;

/// Bits of `2.0f64`.
pub const F_BB_STD_DEV_BITS: u64 = 0x4000000000000000;

/// Bits of `0.15f64`.
pub const F_BB_MODERATE_BITS: u64 = 0x3FC3333333333333;

/// Bits of `0.0f64`.
pub const F_BB_ZERO_BITS: u64 = 0;

/// Bits of `0.8f64`, the exit confidence.
pub const F_BB_EXIT_CONF_BITS: u64 = 0x3FE999999999999A;

/// Configuration for the Mean Reversion strategy. Thresholds and the
/// standard-deviation multiplier are f64 bit patterns.
#[derive(Debug, Clone, PartialEq)]
pub struct MeanReversionConfig {
    /// Symbols to trade
    pub symbols: Vec<String>,
    /// Bollinger Bands period
    pub bb_period: usize,
    /// Bollinger Bands standard deviation multiplier (f64 bits)
    pub bb_std_dev: u64,
    /// Entry threshold: %B at or below it enters long (f64 bits)
    pub entry_threshold: u64,
    /// Exit threshold: %B at or beyond it exits (f64 bits)
    pub exit_threshold: u64,
    /// Use mean reversion for both long and short
    pub allow_short: bool,
}

impl Default for MeanReversionConfig {
    fn default() -> (r: Self)
        ensures
            r.symbols@.len() == 0,
            r.bb_period == 20,
            r.bb_std_dev == F_BB_STD_DEV_BITS,
            r.entry_threshold == F_BB_ENTRY_BITS,
            r.exit_threshold == F_BB_EXIT_BITS,
            !r.allow_short,
    {
        MeanReversionConfig {
            symbols: Vec::new(),
            bb_period: 20,
            bb_std_dev: F_BB_STD_DEV_BITS,
            entry_threshold: F_BB_ENTRY_BITS,
            exit_threshold: F_BB_EXIT_BITS,
            allow_short: false,
        }
    }
}

impl MeanReversionConfig {
    /// Whether the configuration is acceptable: a band period of at least
    /// two, a positive multiplier, an entry threshold inside [0, 0.5],
    /// and at least one symbol.
    pub open spec fn spec_valid(self) -> bool {
        &&& self.bb_period >= 2
        &&& crate::fcmp::f64_lt(F_BB_ZERO_BITS, self.bb_std_dev)
        &&& f64_le(F_BB_ZERO_BITS, self.entry_threshold)
        &&& f64_le(self.entry_threshold, F_BB_EXIT_BITS)
        &&& self.symbols@.len() > 0
    }

    /// Validate the configuration.
    pub fn validate(&self) -> (r: Result<(), StrategyError>)
        ensures
            r is Ok <==> self.spec_valid(),
    {
        if self.bb_period < 2 {
            proof {
                reveal_strlit("BB period must be at least 2");
            }
            return Err(StrategyError::InvalidConfig("BB period must be at least 2".to_owned()));
        }
        if !gt_bits(self.bb_std_dev, F_BB_ZERO_BITS) {
            proof {
                reveal_strlit("BB std dev must be positive");
            }
            return Err(StrategyError::InvalidConfig("BB std dev must be positive".to_owned()));
        }
        if !le_bits(F_BB_ZERO_BITS, self.entry_threshold) || !le_bits(
            self.entry_threshold,
            F_BB_EXIT_BITS,
        ) {
            proof {
                reveal_strlit("entry threshold must be between 0 and 0.5");
            }
            return Err(
                StrategyError::InvalidConfig(
                    "entry threshold must be between 0 and 0.5".to_owned(),
                ),
            );
        }
        if self.symbols.len() == 0 {
            proof {
                reveal_strlit("at least one symbol required");
            }
            return Err(StrategyError::InvalidConfig("at least one symbol required".to_owned()));
        }
        Ok(())
    }
}

/// The strength bucket for a %B reading: the closer to its extreme (zero
/// or one), the stronger. `distance` is the precomputed distance of %B
/// from the nearer extreme (f64 bits).
pub open spec fn spec_bb_strength(distance: u64) -> SignalStrength {
    if crate::fcmp::f64_lt(distance, F_BB_ENTRY_BITS) {
        SignalStrength::Strong
    } else if crate::fcmp::f64_lt(distance, F_BB_MODERATE_BITS) {
        SignalStrength::Moderate
    } else {
        SignalStrength::Weak
    }
}

/// Classify the distance of %B from its extreme into a strength bucket.
pub fn bb_strength(distance: u64) -> (r: SignalStrength)
    ensures
        r == spec_bb_strength(distance),
{
    if lt_bits(distance, F_BB_ENTRY_BITS) {
        SignalStrength::Strong
    } else if lt_bits(distance, F_BB_MODERATE_BITS) {
        SignalStrength::Moderate
    } else {
        SignalStrength::Weak
    }
}

/// The band snapshot a bar yields, all f64 bits, computed outside the
/// verified core: the three bands, the bandwidth, %B, %B's distance from
/// its nearer extreme, the short-entry trigger level `1 - entry`, the
/// long stop suggestion `lower - 0.1 * (upper - lower)` and the short
/// stop suggestion `upper + 0.1 * (upper - lower)`.
#[derive(Debug, Clone, Copy, PartialEq, Eq, Structural)]
pub struct BandSnapshot {
    /// Upper band
    pub upper: u64,
    /// Middle band
    pub middle: u64,
    /// Lower band
    pub lower: u64,
    /// Bandwidth
    pub bandwidth: u64,
    /// %B
    pub percent_b: u64,
    /// Distance of %B from its nearer extreme
    pub distance: u64,
    /// `1 - entry_threshold`
    pub short_entry_level: u64,
    /// Long stop suggestion
    pub long_stop: u64,
    /// Short stop suggestion
    pub short_stop: u64,
}

/// The threshold decision: entries only when flat (long at or below the
/// entry threshold, short — if allowed — at or beyond `1 - entry`);
/// exits when %B re-crosses the exit threshold from the position's side.
pub open spec fn spec_mean_reversion_decision(
    config: MeanReversionConfig,
    position: PositionState,
    snap: BandSnapshot,
) -> (Option<SignalType>, PositionState) {
    match position {
        PositionState::Flat => {
            if f64_le(snap.percent_b, config.entry_threshold) {
                (Some(SignalType::Buy), PositionState::Long)
            } else if config.allow_short && f64_le(snap.short_entry_level, snap.percent_b) {
                (Some(SignalType::Sell), PositionState::Short)
            } else {
                (None, PositionState::Flat)
            }
        },
        PositionState::Long => {
            if f64_le(config.exit_threshold, snap.percent_b) {
                (Some(SignalType::CloseLong), PositionState::Flat)
            } else {
                (None, PositionState::Long)
            }
        },
        PositionState::Short => {
            if f64_le(snap.percent_b, config.exit_threshold) {
                (Some(SignalType::CloseShort), PositionState::Flat)
            } else {
                (None, PositionState::Short)
            }
        },
    }
}

/// Mean Reversion Strategy: the verified threshold state machine. The
/// band snapshot is handed in per bar.
#[derive(Debug, Clone, PartialEq)]
pub struct MeanReversionStrategy {
    /// The validated configuration
    pub config: MeanReversionConfig,
    /// The internal position state
    pub position: PositionState,
    /// Bars seen so far
    pub bars_processed: usize,
    /// Signals emitted so far
    pub signals_generated: usize,
    /// The last %B seen (f64 bits)
    pub last_percent_b: Option<u64>,
    /// The last bandwidth seen (f64 bits)
    pub last_bandwidth: Option<u64>,
}

impl MeanReversionStrategy {
    /// Create a new Mean Reversion strategy.
    pub fn new(config: MeanReversionConfig) -> (r: Self)
        ensures
            r.config == config,
            r.position == PositionState::Flat,
            r.bars_processed == 0,
            r.signals_generated == 0,
            r.last_percent_b is None,
            r.last_bandwidth is None,
    {
        MeanReversionStrategy {
            config,
            position: PositionState::Flat,
            bars_processed: 0,
            signals_generated: 0,
            last_percent_b: None,
            last_bandwidth: None,
        }
    }

    /// The warmup period: one full band window.
    pub fn warmup_period(&self) -> (r: usize)
        ensures
            r == self.config.bb_period,
    {
        self.config.bb_period
    }

    /// Advance the state machine by one bar. `bands` carries the computed
    /// band snapshot, or nothing while the series is warming up. The
    /// emitted signal and the new position state are exactly the
    /// threshold decision; entries carry the suggested stop and the
    /// middle band as take-profit.
    pub fn step(&mut self, symbol: &String, bar_close: u64, bar_ts: i64, bands: Option<
        BandSnapshot,
    >) -> (r: Option<Signal>)
        requires
            old(self).bars_processed < usize::MAX,
            old(self).signals_generated < usize::MAX,
        ensures
            final(self).bars_processed == old(self).bars_processed + 1,
            final(self).config == old(self).config,
            match bands {
                None => {
                    &&& r is None
                    &&& final(self).position == old(self).position
                    &&& final(self).signals_generated == old(self).signals_generated
                },
                Some(snap) => {
                    let (decision, new_pos) = spec_mean_reversion_decision(
                        old(self).config,
                        old(self).position,
                        snap,
                    );
                    &&& final(self).position == new_pos
                    &&& final(self).last_percent_b == Some(snap.percent_b)
                    &&& final(self).last_bandwidth == Some(snap.bandwidth)
                    &&& match (r, decision) {
                        (Some(sig), Some(st)) => {
                            &&& sig.signal_type == st
                            &&& sig.symbol@ == symbol@
                            &&& sig.price == bar_close
                            &&& sig.timestamp == bar_ts
                            &&& (st == SignalType::Buy ==> sig.metadata.stop_loss == Some(
                                snap.long_stop,
                            ) && sig.metadata.take_profit == Some(snap.middle))
                            &&& (st == SignalType::Sell ==> sig.metadata.stop_loss == Some(
                                snap.short_stop,
                            ) && sig.metadata.take_profit == Some(snap.middle))
                        },
                        (None, None) => true,
                        _ => false,
                    }
                    &&& final(self).signals_generated == old(self).signals_generated + (
                    if decision is Some {
                        1int
                    } else {
                        0int
                    })
                },
            },
    {
        self.bars_processed = self.bars_processed + 1;

        let snap = match bands {
            Some(s) => s,
            None => {
                return None;
            },
        };

        self.last_percent_b = Some(snap.percent_b);
        self.last_bandwidth = Some(snap.bandwidth);

        let decision: Option<SignalType> = match self.position {
            PositionState::Flat => {
                if le_bits(snap.percent_b, self.config.entry_threshold) {
                    self.position = PositionState::Long;
                    Some(SignalType::Buy)
                } else if self.config.allow_short && ge_bits(
                    snap.percent_b,
                    snap.short_entry_level,
                ) {
                    self.position = PositionState::Short;
                    Some(SignalType::Sell)
                } else {
                    None
                }
            },
            PositionState::Long => {
                if ge_bits(snap.percent_b, self.config.exit_threshold) {
                    self.position = PositionState::Flat;
                    Some(SignalType::CloseLong)
                } else {
                    None
                }
            },
            PositionState::Short => {
                if le_bits(snap.percent_b, self.config.exit_threshold) {
                    self.position = PositionState::Flat;
                    Some(SignalType::CloseShort)
                } else {
                    None
                }
            },
        };

        match decision {
            Some(signal_type) => {
                self.signals_generated = self.signals_generated + 1;
                let mut indicators: Vec<(String, u64)> = Vec::new();
                indicators.push(("percent_b".to_owned(), snap.percent_b));
                indicators.push(("upper_band".to_owned(), snap.upper));
                indicators.push(("middle_band".to_owned(), snap.middle));
                indicators.push(("lower_band".to_owned(), snap.lower));
                indicators.push(("bandwidth".to_owned(), snap.bandwidth));
                let (strength, confidence, stop_loss, take_profit) = match signal_type {
                    SignalType::Buy => (
                        bb_strength(snap.distance),
                        snap.distance,
                        Some(snap.long_stop),
                        Some(snap.middle),
                    ),
                    SignalType::Sell => (
                        bb_strength(snap.distance),
                        snap.percent_b,
                        Some(snap.short_stop),
                        Some(snap.middle),
                    ),
                    _ => (SignalStrength::Moderate, F_BB_EXIT_CONF_BITS, None, None),
                };
                Some(
                    Signal {
                        symbol: symbol.clone(),
                        signal_type,
                        strength,
                        price: bar_close,
                        timestamp: bar_ts,
                        confidence,
                        metadata: SignalMetadata {
                            strategy_name: "Mean Reversion".to_owned(),
                            indicators,
                            reason: "%B threshold crossing".to_owned(),
                            stop_loss,
                            take_profit,
                        },
                    },
                )
            },
            None => None,
        }
    }

    /// Reset the strategy: afterwards the state equals a fresh
    /// construction from the same configuration.
    pub fn reset(&mut self)
        ensures
            final(self).config == old(self).config,
            final(self).position == PositionState::Flat,
            final(self).bars_processed == 0,
            final(self).signals_generated == 0,
            final(self).last_percent_b is None,
            final(self).last_bandwidth is None,
    {
        self.position = PositionState::Flat;
        self.bars_processed = 0;
        self.signals_generated = 0;
        self.last_percent_b = None;
        self.last_bandwidth = None;
    }

    /// The monitoring snapshot.
    pub fn state(&self) -> (r: StrategyState)
        ensures
            r.bars_processed == self.bars_processed,
            r.signals_generated == self.signals_generated,
            r.is_warmed_up == (self.bars_processed >= self.config.bb_period),
    {
        let mut indicators: Vec<(String, u64)> = Vec::new();
        indicators.push(
            (
                "percent_b".to_owned(),
                match &self.last_percent_b {
                    Some(v) => *v,
                    None => F_BB_EXIT_BITS,
                },
            ),
        );
        indicators.push(
            (
                "bandwidth".to_owned(),
                match &self.last_bandwidth {
                    Some(v) => *v,
                    None => 0,
                },
            ),
        );
        StrategyState {
            name: "Mean Reversion".to_owned(),
            is_warmed_up: self.bars_processed >= self.warmup_period(),
            bars_processed: self.bars_processed,
            signals_generated: self.signals_generated,
            indicators,
            custom: String::new(),
        }
    }
}


impl crate::strategy::StrategyConfig for MeanReversionConfig {
    fn validate(&self) -> Result<(), StrategyError> {
        MeanReversionConfig::validate(self)
    }
}

} // verus!
