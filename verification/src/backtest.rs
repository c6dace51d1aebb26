//! Deterministic backtest driver: chronological replay, trade ledger,
//! equity curve, statistics and the final report.

pub mod engine;
pub mod report;
pub mod statistics;
