//! Strategy trait definitions.
//!
//! A strategy is a stateful analyzer turning bar series into signals.
//! Implementations whose indicator arithmetic runs on floating point live
//! outside the verified core and plug in through this trait; their
//! decision state machines are the verified functions in
//! [`crate::strategies`].

use vstd::prelude::*;

use crate::bar::BarSeries;
use crate::errors::StrategyError;
use crate::order::Order;
use crate::signal::Signal;

verus! {

/// Configuration trait for strategies: validation is a total function,
/// and an invalid configuration is a construction-time error.
pub trait StrategyConfig: Sized {
    /// Validate the configuration.
    fn validate(&self) -> Result<(), StrategyError>;
}


/// State of a strategy for monitoring and serialization.
#[derive(Debug, Clone, PartialEq)]
pub struct StrategyState {
    /// Strategy name
    pub name: String,
    /// Whether the strategy has processed enough bars to generate signals
    pub is_warmed_up: bool,
    /// Number of bars processed
    pub bars_processed: usize,
    /// Number of signals generated
    pub signals_generated: usize,
    /// Current indicator values (f64 bit patterns)
    pub indicators: Vec<(String, u64)>,
    /// Custom strategy-specific state, as rendered text
    pub custom: String,
}

impl StrategyState {
    /// An empty state.
    pub fn empty() -> (r: StrategyState)
        ensures
            r.bars_processed == 0,
            r.signals_generated == 0,
            !r.is_warmed_up,
    {
        StrategyState {
            name: String::new(),
            is_warmed_up: false,
            bars_processed: 0,
            signals_generated: 0,
            indicators: Vec::new(),
            custom: String::new(),
        }
    }
}

/// Core strategy trait.
///
/// All trading strategies implement this trait to integrate with the
/// trading system: they receive bar data and emit trading signals. A
/// strategy must emit nothing until the series holds at least
/// `warmup_period` bars.
pub trait Strategy: Sized {
    /// Get the unique name of this strategy.
    fn name(&self) -> &str;

    /// Process a new bar and optionally generate a signal.
    fn on_bar(&mut self, series: &BarSeries) -> Option<Signal>;

    /// Called when an order is filled.
    fn on_fill(&mut self, order: &Order);

    /// Reset the strategy state, as a fresh construction would leave it.
    fn reset(&mut self);

    /// Get the current strategy state for monitoring.
    fn state(&self) -> StrategyState;

    /// Get the warmup period (bars needed before signals may appear).
    fn warmup_period(&self) -> usize;

    /// Get the symbols this strategy trades.
    fn symbols(&self) -> &Vec<String>;

    /// Check if the strategy is warmed up (has enough data).
    fn is_warmed_up(&self, bars_available: usize) -> (r: bool) {
        bars_available >= self.warmup_period()
    }

    /// Get a description of the strategy.
    fn description(&self) -> &str;
}

} // verus!
