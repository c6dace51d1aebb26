//! Strategy output: signals.
//!
//! Prices and indicator snapshots inside signals are IEEE-754 doubles
//! carried as `u64` bit patterns, like everywhere the indicator engine
//! touches (see [`crate::fbits`]).

use vstd::prelude::*;

verus! {

/// The action a strategy proposes for one bar.
#[derive(Debug, Clone, Copy, PartialEq, Eq, Structural, Hash)]
pub enum SignalType {
    /// Open or add to a long position.
    Buy,
    /// Open or add to a short position.
    Sell,
    /// Close an open long position.
    CloseLong,
    /// Close an open short position.
    CloseShort,
    /// No action.
    Hold,
}

/// How strong the signal is.
#[derive(Debug, Clone, Copy, PartialEq, Eq, Structural, Hash)]
pub enum SignalStrength {
    Weak,
    Moderate,
    Strong,
}

/// Auxiliary information attached to a signal.
#[derive(Debug, Clone, PartialEq)]
pub struct SignalMetadata {
    /// Name of the strategy that produced the signal.
    pub strategy_name: String,
    /// Named indicator snapshot (values are f64 bit patterns).
    pub indicators: Vec<(String, u64)>,
    /// Human-readable reason.
    pub reason: String,
    /// Suggested stop-loss price (f64 bits).
    pub stop_loss: Option<u64>,
    /// Suggested take-profit price (f64 bits).
    pub take_profit: Option<u64>,
}

impl SignalMetadata {
    /// Empty metadata.
    pub fn empty() -> (r: SignalMetadata)
        ensures
            r.strategy_name@ == Seq::<char>::empty(),
            r.indicators@ == Seq::<(String, u64)>::empty(),
            r.reason@ == Seq::<char>::empty(),
            r.stop_loss is None,
            r.take_profit is None,
    {
        SignalMetadata {
            strategy_name: String::new(),
            indicators: Vec::new(),
            reason: String::new(),
            stop_loss: None,
            take_profit: None,
        }
    }
}

impl Default for SignalMetadata {
    fn default() -> (r: Self)
        ensures
            r.stop_loss is None && r.take_profit is None,
    {
        SignalMetadata::empty()
    }
}

/// Output of a strategy for one bar.
#[derive(Debug, Clone, PartialEq)]
pub struct Signal {
    /// Symbol the signal is about.
    pub symbol: String,
    /// Proposed action.
    pub signal_type: SignalType,
    /// Signal strength bucket.
    pub strength: SignalStrength,
    /// Reference price (f64 bits).
    pub price: u64,
    /// Bar timestamp, milliseconds since the epoch.
    pub timestamp: i64,
    /// Confidence in [0, 1] (f64 bits).
    pub confidence: u64,
    /// Auxiliary information.
    pub metadata: SignalMetadata,
}

} // verus!
