//! Portfolio-level risk limits.

use vstd::prelude::*;

use crate::fixed::{d_div, d_mul, d_neg, d_sub, Dec, DEC_SCALE};
use crate::position::{sum_market_value, Portfolio};

verus! {

/// Why a new position is blocked outright.
#[derive(Debug, Clone, Copy, PartialEq, Eq, Structural)]
pub enum BlockReason {
    /// Today's loss already breaches the daily loss limit.
    DailyLossLimit,
    /// The drawdown from peak breaches the drawdown limit.
    MaxDrawdown,
    /// The open-position count is at its cap.
    MaxPositions,
    /// The minimum cash cannot be maintained at any positive size.
    InsufficientCash,
    /// The exposure cap leaves no room at any positive size.
    MaxExposure,
    /// The per-position size cap leaves no room at any positive size.
    MaxPositionSize,
    /// The concentration cap leaves no room at any positive size.
    MaxConcentration,
}

impl BlockReason {
    /// A human-readable rendering of the reason.
    pub fn text(&self) -> (r: &'static str)
        ensures
            r@.len() > 0,
    {
        let s = match self {
            BlockReason::DailyLossLimit => "daily loss limit reached",
            BlockReason::MaxDrawdown => "max drawdown exceeded",
            BlockReason::MaxPositions => "max positions reached",
            BlockReason::InsufficientCash => "insufficient cash",
            BlockReason::MaxExposure => "max exposure reached",
            BlockReason::MaxPositionSize => "max position size leaves no room",
            BlockReason::MaxConcentration => "max concentration leaves no room",
        };
        proof {
            reveal_strlit("daily loss limit reached");
            reveal_strlit("max drawdown exceeded");
            reveal_strlit("max positions reached");
            reveal_strlit("insufficient cash");
            reveal_strlit("max exposure reached");
            reveal_strlit("max position size leaves no room");
            reveal_strlit("max concentration leaves no room");
        }
        s
    }
}

/// Which soft cap reduced the size instead of blocking it.
#[derive(Debug, Clone, Copy, PartialEq, Eq, Structural)]
pub enum ReduceReason {
    /// Limited by the minimum cash requirement.
    MinCash,
    /// Limited by the exposure cap.
    MaxExposure,
    /// Limited by the per-position size cap.
    MaxPositionSize,
    /// Limited by the concentration cap.
    MaxConcentration,
}

impl ReduceReason {
    /// A human-readable rendering of the reason.
    pub fn text(&self) -> (r: &'static str)
        ensures
            r@.len() > 0,
    {
        let s = match self {
            ReduceReason::MinCash => "limited by minimum cash requirement",
            ReduceReason::MaxExposure => "limited by max exposure",
            ReduceReason::MaxPositionSize => "limited by max position size",
            ReduceReason::MaxConcentration => "limited by max concentration",
        };
        proof {
            reveal_strlit("limited by minimum cash requirement");
            reveal_strlit("limited by max exposure");
            reveal_strlit("limited by max position size");
            reveal_strlit("limited by max concentration");
        }
        s
    }
}

/// Result of a limit check.
#[derive(Debug, Clone, Copy, PartialEq, Eq, Structural)]
pub enum LimitCheck {
    /// Trade allowed
    Allowed,
    /// Trade blocked with reason
    Blocked { reason: BlockReason },
    /// Trade allowed but with reduced size
    Reduced { max_size: Dec, reason: ReduceReason },
}

impl LimitCheck {
    /// Whether the trade may proceed (possibly at a reduced size).
    pub fn is_allowed(&self) -> (r: bool)
        ensures
            r == !(self matches LimitCheck::Blocked { .. }),
    {
        match self {
            LimitCheck::Allowed | LimitCheck::Reduced { .. } => true,
            LimitCheck::Blocked { .. } => false,
        }
    }

    /// Whether the trade is blocked outright.
    pub fn is_blocked(&self) -> (r: bool)
        ensures
            r == (self matches LimitCheck::Blocked { .. }),
    {
        match self {
            LimitCheck::Blocked { .. } => true,
            _ => false,
        }
    }
}

/// Portfolio-level limits configuration.
#[derive(Debug, Clone, Copy, PartialEq, Eq, Structural)]
pub struct PortfolioLimits {
    /// Maximum position size as percentage of equity
    pub max_position_pct: Dec,
    /// Maximum total exposure as percentage of equity
    pub max_exposure_pct: Dec,
    /// Maximum number of open positions
    pub max_positions: usize,
    /// Maximum loss per day as percentage of initial capital
    pub daily_loss_limit_pct: Dec,
    /// Maximum drawdown before stopping trading
    pub max_drawdown_pct: Dec,
    /// Minimum cash to maintain
    pub min_cash: Dec,
    /// Maximum concentration in any single position
    pub max_concentration_pct: Dec,
}

impl Default for PortfolioLimits {
    fn default() -> (r: Self)
        ensures
            r.max_position_pct@ == 10 * (DEC_SCALE as int),
            r.max_exposure_pct@ == 80 * (DEC_SCALE as int),
            r.max_positions == 10,
            r.daily_loss_limit_pct@ == 3 * (DEC_SCALE as int),
            r.max_drawdown_pct@ == 20 * (DEC_SCALE as int),
            r.min_cash@ == 1000 * (DEC_SCALE as int),
            r.max_concentration_pct@ == 25 * (DEC_SCALE as int),
    {
        PortfolioLimits {
            // 10% max per position
            max_position_pct: Dec::from_int(10),
            // 80% max invested
            max_exposure_pct: Dec::from_int(80),
            max_positions: 10,
            // Stop if down 3% today
            daily_loss_limit_pct: Dec::from_int(3),
            // Stop if 20% drawdown
            max_drawdown_pct: Dec::from_int(20),
            min_cash: Dec::from_int(1000),
            // No position > 25% of portfolio
            max_concentration_pct: Dec::from_int(25),
        }
    }
}

/// Today's loss as a percentage of the initial capital (zero when no
/// capital is recorded).
pub open spec fn spec_daily_loss_pct(initial_capital: int, daily_pnl: int) -> int {
    if initial_capital > 0 {
        d_mul(d_div(daily_pnl, initial_capital), 100000000)
    } else {
        0
    }
}

/// The drawdown from peak in percent, as the portfolio computes it.
pub open spec fn spec_drawdown(peak_equity: int, equity: int) -> int {
    if peak_equity == 0 {
        0
    } else {
        d_mul(d_div(d_sub(peak_equity, equity), peak_equity), 100000000)
    }
}

/// Whether the hard daily-loss limit is breached.
pub open spec fn spec_daily_loss_breached(
    limits: PortfolioLimits,
    initial_capital: int,
    daily_pnl: int,
) -> bool {
    spec_daily_loss_pct(initial_capital, daily_pnl) <= d_neg(limits.daily_loss_limit_pct@)
}

/// Whether the hard drawdown limit is breached.
pub open spec fn spec_drawdown_breached(
    limits: PortfolioLimits,
    peak_equity: int,
    equity: int,
) -> bool {
    spec_drawdown(peak_equity, equity) >= limits.max_drawdown_pct@
}

/// The specification-level mirror of [`LimitCheck`], carrying the reduced
/// size as a mathematical value.
pub enum LimitOutcome {
    /// Trade allowed
    Allowed,
    /// Trade blocked with reason
    Blocked { reason: BlockReason },
    /// Trade allowed up to `max_size` micro-units of value
    Reduced { max_size: int, reason: ReduceReason },
}

/// The full outcome of a new-position check, in the documented evaluation
/// order: hard blocks first (daily loss, drawdown, position count), then
/// the soft caps (minimum cash, exposure, position size, concentration),
/// where the first cap encountered wins. A cap whose residual size is not
/// positive blocks instead of reducing: a reduced outcome always carries
/// a positive size.
pub open spec fn spec_check_new_position(
    limits: PortfolioLimits,
    portfolio: Portfolio,
    position_value: int,
    daily_pnl: int,
) -> LimitOutcome {
    if spec_daily_loss_breached(limits, portfolio.initial_capital@, daily_pnl) {
        LimitOutcome::Blocked { reason: BlockReason::DailyLossLimit }
    } else if spec_drawdown_breached(limits, portfolio.peak_equity@, portfolio.equity@) {
        LimitOutcome::Blocked { reason: BlockReason::MaxDrawdown }
    } else if portfolio.positions@.len() >= limits.max_positions {
        LimitOutcome::Blocked { reason: BlockReason::MaxPositions }
    } else if d_sub(portfolio.cash@, position_value) < limits.min_cash@ {
        let max_allowed = d_sub(portfolio.cash@, limits.min_cash@);
        if max_allowed <= 0 {
            LimitOutcome::Blocked { reason: BlockReason::InsufficientCash }
        } else {
            LimitOutcome::Reduced {
                max_size: max_allowed,
                reason: ReduceReason::MinCash,
            }
        }
    } else {
        let current_exposure = sum_market_value(portfolio.positions@);
        let new_exposure = crate::fixed::d_add(current_exposure, position_value);
        let exposure_pct = d_mul(d_div(new_exposure, portfolio.equity@), 100000000);
        if exposure_pct > limits.max_exposure_pct@ {
            let max_additional = d_sub(
                d_div(d_mul(portfolio.equity@, limits.max_exposure_pct@), 100000000),
                current_exposure,
            );
            if max_additional <= 0 {
                LimitOutcome::Blocked { reason: BlockReason::MaxExposure }
            } else {
                LimitOutcome::Reduced {
                    max_size: max_additional,
                    reason: ReduceReason::MaxExposure,
                }
            }
        } else {
            let position_pct = d_mul(d_div(position_value, portfolio.equity@), 100000000);
            if position_pct > limits.max_position_pct@ {
                let max_position = d_div(
                    d_mul(portfolio.equity@, limits.max_position_pct@),
                    100000000,
                );
                if max_position <= 0 {
                    LimitOutcome::Blocked { reason: BlockReason::MaxPositionSize }
                } else {
                    LimitOutcome::Reduced {
                        max_size: max_position,
                        reason: ReduceReason::MaxPositionSize,
                    }
                }
            } else if position_pct > limits.max_concentration_pct@ {
                let max_position = d_div(
                    d_mul(portfolio.equity@, limits.max_concentration_pct@),
                    100000000,
                );
                if max_position <= 0 {
                    LimitOutcome::Blocked { reason: BlockReason::MaxConcentration }
                } else {
                    LimitOutcome::Reduced {
                        max_size: max_position,
                        reason: ReduceReason::MaxConcentration,
                    }
                }
            } else {
                LimitOutcome::Allowed
            }
        }
    }
}

impl PortfolioLimits {
    /// Check whether a new position of the given value may be opened, per
    /// [`spec_check_new_position`]. The portfolio's equity must be
    /// positive; the percent caps divide by it.
    pub fn check_new_position(
        &self,
        portfolio: &Portfolio,
        position_value: Dec,
        daily_pnl: Dec,
    ) -> (r: LimitCheck)
        requires
            portfolio.equity@ != 0,
        ensures
            limit_check_matches(
                r,
                spec_check_new_position(*self, *portfolio, position_value@, daily_pnl@),
            ),
    {
        // Check daily loss limit
        let zero = Dec::zero();
        let hundred = Dec::hundred();
        let daily_loss_pct = if portfolio.initial_capital.gt(&zero) {
            daily_pnl.div(&portfolio.initial_capital).mul(&hundred)
        } else {
            zero
        };

        if daily_loss_pct.le(&self.daily_loss_limit_pct.neg()) {
            return LimitCheck::Blocked { reason: BlockReason::DailyLossLimit };
        }

        // Check max drawdown
        let drawdown = portfolio.drawdown();
        if drawdown.ge(&self.max_drawdown_pct) {
            return LimitCheck::Blocked { reason: BlockReason::MaxDrawdown };
        }

        // Check max positions
        if portfolio.position_count() >= self.max_positions {
            return LimitCheck::Blocked { reason: BlockReason::MaxPositions };
        }

        // Check min cash
        if portfolio.cash.sub(&position_value).lt(&self.min_cash) {
            let max_allowed = portfolio.cash.sub(&self.min_cash);
            if max_allowed.le(&zero) {
                return LimitCheck::Blocked { reason: BlockReason::InsufficientCash };
            }
            return LimitCheck::Reduced { max_size: max_allowed, reason: ReduceReason::MinCash };
        }

        // Check max exposure
        let current_exposure = portfolio.total_market_value();
        let new_exposure = current_exposure.add(&position_value);
        let exposure_pct = new_exposure.div(&portfolio.equity).mul(&hundred);

        if exposure_pct.gt(&self.max_exposure_pct) {
            let max_additional = portfolio.equity.mul(&self.max_exposure_pct).div(&hundred).sub(
                &current_exposure,
            );
            if max_additional.le(&zero) {
                return LimitCheck::Blocked { reason: BlockReason::MaxExposure };
            }
            return LimitCheck::Reduced {
                max_size: max_additional,
                reason: ReduceReason::MaxExposure,
            };
        }

        // Check position size limit
        let position_pct = position_value.div(&portfolio.equity).mul(&hundred);
        if position_pct.gt(&self.max_position_pct) {
            let max_position = portfolio.equity.mul(&self.max_position_pct).div(&hundred);
            if max_position.le(&zero) {
                return LimitCheck::Blocked { reason: BlockReason::MaxPositionSize };
            }
            return LimitCheck::Reduced {
                max_size: max_position,
                reason: ReduceReason::MaxPositionSize,
            };
        }

        // Check concentration
        if position_pct.gt(&self.max_concentration_pct) {
            let max_position = portfolio.equity.mul(&self.max_concentration_pct).div(&hundred);
            if max_position.le(&zero) {
                return LimitCheck::Blocked { reason: BlockReason::MaxConcentration };
            }
            return LimitCheck::Reduced {
                max_size: max_position,
                reason: ReduceReason::MaxConcentration,
            };
        }

        LimitCheck::Allowed
    }

    /// Whether trading should be halted outright: only the two hard limits
    /// (daily loss and drawdown) halt, and halting only gates new
    /// positions.
    pub fn should_halt_trading(&self, portfolio: &Portfolio, daily_pnl: Dec) -> (r: Option<
        BlockReason,
    >)
        ensures
            r == if spec_daily_loss_breached(*self, portfolio.initial_capital@, daily_pnl@) {
                Some(BlockReason::DailyLossLimit)
            } else if spec_drawdown_breached(*self, portfolio.peak_equity@, portfolio.equity@) {
                Some(BlockReason::MaxDrawdown)
            } else {
                None::<BlockReason>
            },
    {
        let zero = Dec::zero();
        let hundred = Dec::hundred();
        let daily_loss_pct = if portfolio.initial_capital.gt(&zero) {
            daily_pnl.div(&portfolio.initial_capital).mul(&hundred)
        } else {
            zero
        };

        if daily_loss_pct.le(&self.daily_loss_limit_pct.neg()) {
            return Some(BlockReason::DailyLossLimit);
        }

        let drawdown = portfolio.drawdown();
        if drawdown.ge(&self.max_drawdown_pct) {
            return Some(BlockReason::MaxDrawdown);
        }

        None
    }
}

/// Whether an executable limit check matches the specified outcome: equal
/// variants and reasons, with the reduced size compared by value.
pub open spec fn limit_check_matches(r: LimitCheck, s: LimitOutcome) -> bool {
    match (r, s) {
        (LimitCheck::Allowed, LimitOutcome::Allowed) => true,
        (
            LimitCheck::Blocked { reason: r1 },
            LimitOutcome::Blocked { reason: r2 },
        ) => r1 == r2,
        (
            LimitCheck::Reduced { max_size: m1, reason: r1 },
            LimitOutcome::Reduced { max_size: m2, reason: r2 },
        ) => m1@ == m2 && r1 == r2,
        _ => false,
    }
}


/// A reduced outcome always allows something: every `Reduced` the check
/// yields carries a strictly positive maximum size.
pub proof fn lemma_reduced_is_positive(
    limits: PortfolioLimits,
    portfolio: Portfolio,
    position_value: int,
    daily_pnl: int,
)
    ensures
        match spec_check_new_position(limits, portfolio, position_value, daily_pnl) {
            LimitOutcome::Reduced { max_size, .. } => max_size > 0,
            _ => true,
        },
{
}

/// The daily-loss halt gates every new position: once the daily loss
/// limit is breached, the check blocks regardless of the requested size.
pub proof fn lemma_daily_loss_blocks_any_size(
    limits: PortfolioLimits,
    portfolio: Portfolio,
    position_value: int,
    daily_pnl: int,
)
    requires
        spec_daily_loss_breached(limits, portfolio.initial_capital@, daily_pnl),
    ensures
        spec_check_new_position(limits, portfolio, position_value, daily_pnl)
            == (LimitOutcome::Blocked { reason: BlockReason::DailyLossLimit }),
{
}

} // verus!
