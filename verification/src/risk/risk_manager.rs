//! Unified risk manager.

use vstd::prelude::*;

use crate::fixed::{d_div, d_floor, d_mul, Dec, DEC_SCALE};
use crate::order::{OrderRequest, OrderType, Side};
use crate::position::Portfolio;
use crate::risk::portfolio_limits::{
    spec_check_new_position, BlockReason, LimitCheck, LimitOutcome, PortfolioLimits, ReduceReason,
};
use crate::risk::position_sizer::{
    opt_view, spec_position_size, PositionSizer, PositionSizingMethod,
};
use crate::risk::stop_loss::{spec_stop_price, StopLossManager, StopLossMethod};
use crate::signal::{Signal, SignalType};

verus! {

/// Risk management configuration.
#[derive(Debug, Clone, Copy, PartialEq, Eq, Structural)]
pub struct RiskConfig {
    /// Position sizing method
    pub position_sizing: PositionSizingMethod,
    /// Stop-loss method
    pub stop_loss: StopLossMethod,
    /// Portfolio limits
    pub limits: PortfolioLimits,
    /// Maximum shares per order
    pub max_shares: Option<Dec>,
    /// Use signal strength for sizing
    pub use_signal_strength: bool,
}

impl Default for RiskConfig {
    fn default() -> (r: Self)
        ensures
            r.position_sizing matches PositionSizingMethod::PercentEquity { percent }
                && percent@ == 2 * (DEC_SCALE as int),
            r.stop_loss matches StopLossMethod::FixedPercent { percent } && percent@ == 2 * (
            DEC_SCALE as int),
            r.max_shares matches Some(m) && m@ == 1000 * (DEC_SCALE as int),
            r.use_signal_strength,
            r.position_sizing.wf(),
            r.limits.max_position_pct@ == 10 * (DEC_SCALE as int),
            r.limits.max_exposure_pct@ == 80 * (DEC_SCALE as int),
            r.limits.max_positions == 10,
            r.limits.daily_loss_limit_pct@ == 3 * (DEC_SCALE as int),
            r.limits.max_drawdown_pct@ == 20 * (DEC_SCALE as int),
            r.limits.min_cash@ == 1000 * (DEC_SCALE as int),
            r.limits.max_concentration_pct@ == 25 * (DEC_SCALE as int),
    {
        RiskConfig {
            position_sizing: PositionSizingMethod::PercentEquity { percent: Dec::from_int(2) },
            stop_loss: StopLossMethod::FixedPercent { percent: Dec::from_int(2) },
            limits: PortfolioLimits::default(),
            max_shares: Some(Dec::from_int(1000)),
            use_signal_strength: true,
        }
    }
}

/// Why the risk manager rejected a signal.
#[derive(Debug, Clone, Copy, PartialEq, Eq, Structural)]
pub enum RejectReason {
    /// Hold signals call for no action.
    HoldSignal,
    /// The computed position size was zero or negative.
    ZeroQuantity,
    /// A portfolio limit blocked the trade.
    Blocked { reason: BlockReason },
    /// A cap reduced the size to nothing.
    TooSmallAfterReduction { reason: ReduceReason },
}

/// Decision from the risk manager.
#[derive(Debug, Clone, PartialEq)]
pub enum RiskDecision {
    /// Order approved with calculated parameters
    Approved { order: OrderRequest, stop_loss_price: Option<Dec> },
    /// Order rejected with reason
    Rejected { reason: RejectReason },
    /// Order modified (size reduced)
    Modified { order: OrderRequest, stop_loss_price: Option<Dec>, reason: ReduceReason },
}

impl RiskDecision {
    /// Whether the decision carries an order to submit.
    pub fn is_approved(&self) -> (r: bool)
        ensures
            r == !(self matches RiskDecision::Rejected { .. }),
    {
        match self {
            RiskDecision::Approved { .. } | RiskDecision::Modified { .. } => true,
            RiskDecision::Rejected { .. } => false,
        }
    }

    /// The order to submit, if the decision carries one.
    pub fn order(&self) -> (r: Option<&OrderRequest>)
        ensures
            match r {
                Some(o) => (self matches RiskDecision::Approved { order, .. } && o == order) || (
                self matches RiskDecision::Modified { order, .. } && o == order),
                None => self matches RiskDecision::Rejected { .. },
            },
    {
        match self {
            RiskDecision::Approved { order, .. } => Some(order),
            RiskDecision::Modified { order, .. } => Some(order),
            RiskDecision::Rejected { .. } => None,
        }
    }
}

/// The side a signal maps to: buys and short-closes buy, sells and
/// long-closes sell; holds map to nothing.
pub open spec fn spec_signal_side(t: SignalType) -> Option<Side> {
    match t {
        SignalType::Buy => Some(Side::Buy),
        SignalType::Sell => Some(Side::Sell),
        SignalType::CloseLong => Some(Side::Sell),
        SignalType::CloseShort => Some(Side::Buy),
        SignalType::Hold => None,
    }
}

/// Map a signal to the side its order takes; holds map to nothing.
pub fn signal_side(t: SignalType) -> (r: Option<Side>)
    ensures
        r == spec_signal_side(t),
{
    match t {
        SignalType::Buy => Some(Side::Buy),
        SignalType::Sell => Some(Side::Sell),
        SignalType::CloseLong => Some(Side::Sell),
        SignalType::CloseShort => Some(Side::Buy),
        SignalType::Hold => None,
    }
}

/// Unified risk manager that combines position sizing, stop-loss, and limits.
#[derive(Debug, Clone, Copy, PartialEq, Eq, Structural)]
pub struct RiskManager {
    /// The configuration the manager was built with
    pub config: RiskConfig,
    /// The position sizer
    pub position_sizer: PositionSizer,
    /// The stop-loss manager
    pub stop_loss_manager: StopLossManager,
    /// Today's running P&L
    pub daily_pnl: Dec,
}

impl RiskManager {
    /// The manager's configuration invariant: the sizer never divides by a
    /// zero Kelly ratio, and the sizer mirrors the configuration.
    pub open spec fn wf(self) -> bool {
        &&& self.config.position_sizing.wf()
        &&& self.position_sizer.method == self.config.position_sizing
        &&& self.position_sizer.max_shares == self.config.max_shares
        &&& self.position_sizer.max_position_value is None
        &&& self.position_sizer.use_signal_strength == self.config.use_signal_strength
        &&& self.stop_loss_manager.method == self.config.stop_loss
    }

    /// Create a new risk manager.
    pub fn new(config: RiskConfig) -> (r: Self)
        requires
            config.position_sizing.wf(),
        ensures
            r.wf(),
            r.config == config,
            r.daily_pnl@ == 0,
            r.stop_loss_manager.current_atr is None,
    {
        let mut position_sizer = PositionSizer::new(config.position_sizing);
        if let Some(max) = &config.max_shares {
            position_sizer = position_sizer.with_max_shares(*max);
        }
        if !config.use_signal_strength {
            position_sizer = position_sizer.without_signal_strength();
        }

        let stop_loss_manager = StopLossManager::new(config.stop_loss);

        RiskManager { config, position_sizer, stop_loss_manager, daily_pnl: Dec::zero() }
    }

    /// Update the daily P&L tracking.
    pub fn update_daily_pnl(&mut self, pnl: Dec)
        requires
            old(self).wf(),
        ensures
            final(self).wf(),
            final(self).daily_pnl == pnl,
            final(self).config == old(self).config,
            final(self).stop_loss_manager == old(self).stop_loss_manager,
    {
        self.daily_pnl = pnl;
    }

    /// Reset daily P&L (call at start of trading day).
    pub fn reset_daily_pnl(&mut self)
        requires
            old(self).wf(),
        ensures
            final(self).wf(),
            final(self).daily_pnl@ == 0,
            final(self).config == old(self).config,
    {
        self.daily_pnl = Dec::zero();
    }

    /// Update ATR for stop-loss calculations.
    pub fn update_atr(&mut self, atr: Dec)
        requires
            old(self).wf(),
        ensures
            final(self).wf(),
            final(self).config == old(self).config,
            final(self).daily_pnl == old(self).daily_pnl,
            final(self).stop_loss_manager.current_atr == Some(atr),
    {
        self.stop_loss_manager.update_atr(atr);
    }

    /// Evaluate a signal into a decision, in the documented order: map the
    /// signal to a side (holds are rejected), quote a stop, size the
    /// position (rejecting non-positive sizes), then consult the limits:
    /// blocked rejects, reduced recomputes the quantity against the cap
    /// (rejecting zero), allowed approves at the computed quantity. Every
    /// approved or modified decision carries a market order on the mapped
    /// side with a positive whole-share quantity.
    pub fn evaluate_signal(
        &self,
        portfolio: &Portfolio,
        signal: &Signal,
        current_price: Dec,
    ) -> (r: RiskDecision)
        requires
            self.wf(),
            portfolio.equity@ != 0,
        ensures
            ({
                let side = spec_signal_side(signal.signal_type);
                let stop = spec_stop_price(
                    self.config.stop_loss,
                    self.stop_loss_manager.current_atr,
                    current_price@,
                    side->Some_0,
                );
                let qty = spec_position_size(
                    self.config.position_sizing,
                    opt_view(self.config.max_shares),
                    None,
                    self.config.use_signal_strength,
                    portfolio.equity@,
                    portfolio.buying_power@,
                    signal.strength,
                    current_price@,
                    stop,
                );
                match r {
                    RiskDecision::Rejected { reason } => {
                        ||| (side is None && reason == RejectReason::HoldSignal)
                        ||| (side is Some && qty <= 0 && reason == RejectReason::ZeroQuantity)
                        ||| (side is Some && qty > 0 && exists|b: BlockReason|
                            reason == RejectReason::Blocked { reason: b }
                                && spec_check_new_position(
                                self.config.limits,
                                *portfolio,
                                d_mul(qty, current_price@),
                                self.daily_pnl@,
                            ) == LimitOutcome::Blocked { reason: b })
                        ||| (side is Some && qty > 0 && exists|rr: ReduceReason, ms: int|
                            reason == RejectReason::TooSmallAfterReduction { reason: rr }
                                && spec_check_new_position(
                                self.config.limits,
                                *portfolio,
                                d_mul(qty, current_price@),
                                self.daily_pnl@,
                            ) == LimitOutcome::Reduced { max_size: ms, reason: rr }
                                && d_floor(d_div(ms, current_price@)) <= 0)
                    },
                    RiskDecision::Approved { order, stop_loss_price } => {
                        &&& side == Some(order.side)
                        &&& qty > 0
                        &&& order.quantity@ == qty
                        &&& order.order_type == OrderType::Market
                        &&& order.symbol@ == signal.symbol@
                        &&& spec_check_new_position(
                            self.config.limits,
                            *portfolio,
                            d_mul(qty, current_price@),
                            self.daily_pnl@,
                        ) == LimitOutcome::Allowed
                        &&& match stop_loss_price {
                            Some(p) => stop == Some(p@),
                            None => stop is None,
                        }
                    },
                    RiskDecision::Modified { order, stop_loss_price, reason } => {
                        &&& side == Some(order.side)
                        &&& qty > 0
                        &&& order.order_type == OrderType::Market
                        &&& order.symbol@ == signal.symbol@
                        &&& exists|ms: int|
                            spec_check_new_position(
                                self.config.limits,
                                *portfolio,
                                d_mul(qty, current_price@),
                                self.daily_pnl@,
                            ) == LimitOutcome::Reduced { max_size: ms, reason: reason }
                                && order.quantity@ == d_floor(d_div(ms, current_price@))
                                && order.quantity@ > 0
                        &&& match stop_loss_price {
                            Some(p) => stop == Some(p@),
                            None => stop is None,
                        }
                    },
                }
            }),
    {
        // Determine side based on signal
        let side = match signal.signal_type {
            SignalType::Buy => Side::Buy,
            SignalType::Sell => Side::Sell,
            SignalType::CloseLong => Side::Sell,
            SignalType::CloseShort => Side::Buy,
            SignalType::Hold => {
                return RiskDecision::Rejected { reason: RejectReason::HoldSignal };
            },
        };

        // Calculate stop-loss price
        let stop_loss_price = self.stop_loss_manager.calculate_stop_price(current_price, side);

        // Calculate position size
        let quantity = self.position_sizer.calculate(
            portfolio,
            signal,
            current_price,
            stop_loss_price,
        );

        let zero = Dec::zero();
        if quantity.le(&zero) {
            return RiskDecision::Rejected { reason: RejectReason::ZeroQuantity };
        }

        // Calculate position value
        let position_value = quantity.mul(&current_price);

        // Check portfolio limits
        let limit_check = self.config.limits.check_new_position(
            portfolio,
            position_value,
            self.daily_pnl,
        );

        match limit_check {
            LimitCheck::Blocked { reason } => {
                RiskDecision::Rejected { reason: RejectReason::Blocked { reason } }
            },
            LimitCheck::Reduced { max_size, reason } => {
                let reduced_quantity = max_size.div(&current_price).floor();
                if reduced_quantity.le(&zero) {
                    return RiskDecision::Rejected {
                        reason: RejectReason::TooSmallAfterReduction { reason },
                    };
                }

                let order = OrderRequest::market(signal.symbol.clone(), side, reduced_quantity);

                RiskDecision::Modified { order, stop_loss_price, reason }
            },
            LimitCheck::Allowed => {
                let order = OrderRequest::market(signal.symbol.clone(), side, quantity);

                RiskDecision::Approved { order, stop_loss_price }
            },
        }
    }

    /// Check if trading should be halted: exactly when a hard limit
    /// (daily loss or drawdown) is breached.
    pub fn should_halt(&self, portfolio: &Portfolio) -> (r: Option<BlockReason>)
        ensures
            r == if crate::risk::portfolio_limits::spec_daily_loss_breached(
                self.config.limits,
                portfolio.initial_capital@,
                self.daily_pnl@,
            ) {
                Some(BlockReason::DailyLossLimit)
            } else if crate::risk::portfolio_limits::spec_drawdown_breached(
                self.config.limits,
                portfolio.peak_equity@,
                portfolio.equity@,
            ) {
                Some(BlockReason::MaxDrawdown)
            } else {
                None::<BlockReason>
            },
    {
        self.config.limits.should_halt_trading(portfolio, self.daily_pnl)
    }

    /// Get the current configuration.
    pub fn config(&self) -> (r: &RiskConfig)
        ensures
            r == self.config,
    {
        &self.config
    }
}

} // verus!
