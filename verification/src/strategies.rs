//! Concrete trading strategies: validated configurations and verified
//! decision state machines. The floating-point indicator evaluation that
//! feeds them runs outside the verified core.

pub mod ma_crossover;
pub mod mean_reversion;
pub mod momentum;
pub mod registry;
pub mod rsi_strategy;
