//! Position sizing algorithms.

use vstd::prelude::*;

use crate::fixed::{abs_i, d_div, d_floor, d_max, d_min, d_mul, d_sub, Dec, DEC_SCALE};
use crate::position::Portfolio;
use crate::signal::{Signal, SignalStrength};

verus! {

/// Position sizing method.
#[derive(Debug, Clone, Copy, PartialEq, Eq, Structural)]
pub enum PositionSizingMethod {
    /// Fixed number of shares
    Fixed { shares: Dec },
    /// Fixed dollar amount
    FixedDollar { amount: Dec },
    /// Percentage of equity
    PercentEquity { percent: Dec },
    /// Risk-based (percentage of equity at risk per trade)
    RiskBased { risk_percent: Dec },
    /// Kelly criterion
    Kelly { win_rate: Dec, avg_win_loss_ratio: Dec },
}

impl PositionSizingMethod {
    /// The method never divides by the win/loss ratio zero; a Kelly method
    /// with a zero ratio is rejected at configuration time.
    pub open spec fn wf(self) -> bool {
        match self {
            PositionSizingMethod::Kelly { avg_win_loss_ratio, .. } => avg_win_loss_ratio@ != 0,
            _ => true,
        }
    }
}

impl Default for PositionSizingMethod {
    fn default() -> (r: Self)
        ensures
            r matches PositionSizingMethod::PercentEquity { percent } && percent@ == 2 * (
            DEC_SCALE as int),
            r.wf(),
    {
        PositionSizingMethod::PercentEquity { percent: Dec::from_int(2) }
    }
}

/// The value carried by an optional `Dec`.
pub open spec fn opt_view(o: Option<Dec>) -> Option<int> {
    match o {
        Some(d) => Some(d@),
        None => None,
    }
}

/// The sizing multiplier for a signal strength, in micro-units:
/// weak half, moderate unchanged, strong one-and-a-half.
pub open spec fn spec_strength_multiplier(s: SignalStrength) -> int {
    match s {
        SignalStrength::Weak => 500000,
        SignalStrength::Moderate => 1000000,
        SignalStrength::Strong => 1500000,
    }
}

/// The base size a method yields before adjustments, in micro-units of
/// shares, over the portfolio's equity.
pub open spec fn spec_base_size(
    m: PositionSizingMethod,
    equity: int,
    price: int,
    stop: Option<int>,
) -> int {
    match m {
        PositionSizingMethod::Fixed { shares } => shares@,
        PositionSizingMethod::FixedDollar { amount } => d_div(amount@, price),
        PositionSizingMethod::PercentEquity { percent } => d_div(
            d_mul(equity, d_div(percent@, 100000000)),
            price,
        ),
        PositionSizingMethod::RiskBased { risk_percent } => match stop {
            Some(stop_price) => {
                let risk_per_share = abs_i(d_sub(price, stop_price));
                if risk_per_share > 0 {
                    d_div(d_mul(equity, d_div(risk_percent@, 100000000)), risk_per_share)
                } else {
                    0
                }
            },
            None => d_div(d_mul(equity, d_div(risk_percent@, 100000000)), price),
        },
        PositionSizingMethod::Kelly { win_rate, avg_win_loss_ratio } => {
            let kelly = d_sub(win_rate@, d_div(d_sub(1000000, win_rate@), avg_win_loss_ratio@));
            let capped = d_min(d_max(kelly, 0), 250000);
            d_div(d_mul(equity, capped), price)
        },
    }
}

/// The final size: the strength-adjusted base, clamped to the optional
/// share and value caps and to the buying power, floored to whole shares.
pub open spec fn spec_position_size(
    m: PositionSizingMethod,
    max_shares: Option<int>,
    max_position_value: Option<int>,
    use_signal_strength: bool,
    equity: int,
    buying_power: int,
    strength: SignalStrength,
    price: int,
    stop: Option<int>,
) -> int {
    if price <= 0 {
        0
    } else {
        let base = spec_base_size(m, equity, price, stop);
        let adjusted = if use_signal_strength {
            d_mul(base, spec_strength_multiplier(strength))
        } else {
            base
        };
        let s1 = match max_shares {
            Some(mx) => d_min(adjusted, mx),
            None => adjusted,
        };
        let s2 = match max_position_value {
            Some(mv) => d_min(s1, d_div(mv, price)),
            None => s1,
        };
        let s3 = d_min(s2, d_div(buying_power, price));
        d_floor(s3)
    }
}

/// Position sizer calculates the appropriate position size.
#[derive(Debug, Clone, Copy, PartialEq, Eq, Structural)]
pub struct PositionSizer {
    /// The sizing method
    pub method: PositionSizingMethod,
    /// Optional cap on shares per position
    pub max_shares: Option<Dec>,
    /// Optional cap on position value
    pub max_position_value: Option<Dec>,
    /// Whether the signal strength scales the size
    pub use_signal_strength: bool,
}

impl PositionSizer {
    /// Create a new position sizer.
    pub fn new(method: PositionSizingMethod) -> (r: Self)
        ensures
            r.method == method,
            r.max_shares is None,
            r.max_position_value is None,
            r.use_signal_strength,
    {
        PositionSizer { method, max_shares: None, max_position_value: None, use_signal_strength: true }
    }

    /// Set maximum shares per position.
    pub fn with_max_shares(self, max: Dec) -> (r: Self)
        ensures
            r == (PositionSizer { max_shares: Some(max), ..self }),
    {
        PositionSizer { max_shares: Some(max), ..self }
    }

    /// Set maximum position value.
    pub fn with_max_position_value(self, max: Dec) -> (r: Self)
        ensures
            r == (PositionSizer { max_position_value: Some(max), ..self }),
    {
        PositionSizer { max_position_value: Some(max), ..self }
    }

    /// Disable signal strength adjustment.
    pub fn without_signal_strength(self) -> (r: Self)
        ensures
            r == (PositionSizer { use_signal_strength: false, ..self }),
    {
        PositionSizer { use_signal_strength: false, ..self }
    }

    /// Calculate the position size in whole shares, as
    /// [`spec_position_size`] lays it out: the method's base size, scaled
    /// by signal strength, clamped to the caps and the buying power,
    /// floored to whole shares. A non-positive price yields zero.
    pub fn calculate(
        &self,
        portfolio: &Portfolio,
        signal: &Signal,
        current_price: Dec,
        stop_loss_price: Option<Dec>,
    ) -> (r: Dec)
        requires
            self.method.wf(),
        ensures
            r@ == spec_position_size(
                self.method,
                opt_view(self.max_shares),
                opt_view(self.max_position_value),
                self.use_signal_strength,
                portfolio.equity@,
                portfolio.buying_power@,
                signal.strength,
                current_price@,
                opt_view(stop_loss_price),
            ),
    {
        let zero = Dec::zero();
        if current_price.le(&zero) {
            return zero;
        }

        let hundred = Dec::hundred();
        let base_size = match &self.method {
            PositionSizingMethod::Fixed { shares } => *shares,
            PositionSizingMethod::FixedDollar { amount } => amount.div(&current_price),
            PositionSizingMethod::PercentEquity { percent } => {
                let position_value = portfolio.equity.mul(&percent.div(&hundred));
                position_value.div(&current_price)
            },
            PositionSizingMethod::RiskBased { risk_percent } => {
                match &stop_loss_price {
                    Some(stop_price) => {
                        let risk_per_share = current_price.sub(stop_price).abs();
                        if risk_per_share.gt(&zero) {
                            let risk_amount = portfolio.equity.mul(&risk_percent.div(&hundred));
                            risk_amount.div(&risk_per_share)
                        } else {
                            zero
                        }
                    },
                    None => {
                        // Fall back to percent-equity semantics without a stop
                        let position_value = portfolio.equity.mul(&risk_percent.div(&hundred));
                        position_value.div(&current_price)
                    },
                }
            },
            PositionSizingMethod::Kelly { win_rate, avg_win_loss_ratio } => {
                // Kelly fraction = W - (1-W)/R, capped into [0, 0.25]
                let kelly_fraction = win_rate.sub(
                    &Dec::one().sub(win_rate).div(avg_win_loss_ratio),
                );
                let kelly_fraction = kelly_fraction.max(&zero).min(&Dec::from_micro(250000));
                let position_value = portfolio.equity.mul(&kelly_fraction);
                position_value.div(&current_price)
            },
        };

        // Apply signal strength multiplier
        let adjusted_size = if self.use_signal_strength {
            let multiplier = match signal.strength {
                SignalStrength::Weak => Dec::from_micro(500000),
                SignalStrength::Moderate => Dec::from_micro(1000000),
                SignalStrength::Strong => Dec::from_micro(1500000),
            };
            base_size.mul(&multiplier)
        } else {
            base_size
        };

        // Apply limits
        let mut final_size = adjusted_size;

        if let Some(max) = &self.max_shares {
            final_size = final_size.min(max);
        }

        if let Some(max_value) = &self.max_position_value {
            let max_shares = max_value.div(&current_price);
            final_size = final_size.min(&max_shares);
        }

        // Check buying power
        let max_affordable = portfolio.buying_power.div(&current_price);
        final_size = final_size.min(&max_affordable);

        // Round down to whole shares
        final_size.floor()
    }
}


/// The sizer's guarantees: every computed size is a whole number of
/// shares, and with a non-negative buying power the position's cost never
/// exceeds the buying power.
pub proof fn lemma_position_size_bounds(
    m: PositionSizingMethod,
    max_shares: Option<int>,
    max_position_value: Option<int>,
    use_signal_strength: bool,
    equity: int,
    buying_power: int,
    strength: SignalStrength,
    price: int,
    stop: Option<int>,
)
    requires
        buying_power >= 0,
    ensures
        spec_position_size(
            m,
            max_shares,
            max_position_value,
            use_signal_strength,
            equity,
            buying_power,
            strength,
            price,
            stop,
        ) % 1000000 == 0,
        d_mul(
            spec_position_size(
                m,
                max_shares,
                max_position_value,
                use_signal_strength,
                equity,
                buying_power,
                strength,
                price,
                stop,
            ),
            price,
        ) <= buying_power,
{
    let q = spec_position_size(
        m,
        max_shares,
        max_position_value,
        use_signal_strength,
        equity,
        buying_power,
        strength,
        price,
        stop,
    );
    if price <= 0 {
        assert(q == 0);
        assert(d_mul(0, price) == 0) by {
            assert(abs_i(0int) * abs_i(price) == 0) by (nonlinear_arith);
        }
    } else {
        let base = spec_base_size(m, equity, price, stop);
        let adjusted = if use_signal_strength {
            d_mul(base, spec_strength_multiplier(strength))
        } else {
            base
        };
        let s1 = match max_shares {
            Some(mx) => d_min(adjusted, mx),
            None => adjusted,
        };
        let s2 = match max_position_value {
            Some(mv) => d_min(s1, d_div(mv, price)),
            None => s1,
        };
        let s3 = d_min(s2, d_div(buying_power, price));
        crate::fixed::lemma_floor_whole(s3);
        assert(q <= d_div(buying_power, price));
        crate::fixed::lemma_affordable(q, price, buying_power);
    }
}

} // verus!
