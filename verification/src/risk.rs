//! Risk management: position sizing, stop-loss computation, portfolio
//! limits, and the combined risk manager.

pub mod portfolio_limits;
pub mod position_sizer;
pub mod risk_manager;
pub mod stop_loss;
