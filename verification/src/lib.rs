//! Core of an algorithmic trading platform: market-data value model,
//! technical indicators, strategies, risk management, a simulated broker
//! and a deterministic backtest driver.
//!
//! Money and quantities are held in [`fixed::Dec`], a fixed-point decimal
//! with six fractional digits. Bar prices are IEEE-754 doubles carried as
//! `u64` bit patterns; [`fixed::Dec::from_f64_bits`] decodes them exactly
//! in integer arithmetic where money math needs them.

pub mod backtest;
pub mod bar;
pub mod broker;
pub mod config;
pub mod data;
pub mod errors;
pub mod indicators;
pub mod fcmp;
pub mod fmt;
pub mod fixed;
pub mod order;
pub mod position;
pub mod risk;
pub mod signal;
pub mod strategies;
pub mod strategy;
pub mod sys;
pub mod timeframe;
