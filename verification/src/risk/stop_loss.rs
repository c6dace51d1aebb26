//! Stop-loss management.

use vstd::prelude::*;

use crate::fixed::{abs_i, d_add, d_div, d_max, d_min, d_mul, d_sub, Dec, DEC_SCALE};
use crate::order::Side;
use crate::position::Position;

verus! {

/// Stop-loss calculation method.
#[derive(Debug, Clone, Copy, PartialEq, Eq, Structural)]
pub enum StopLossMethod {
    /// Fixed percentage below/above entry
    FixedPercent { percent: Dec },
    /// ATR-based stop
    Atr { multiplier: Dec },
    /// Fixed dollar amount
    FixedDollar { amount: Dec },
    /// Trailing stop (percentage)
    TrailingPercent { percent: Dec },
    /// Trailing stop (ATR-based)
    TrailingAtr { multiplier: Dec },
}

impl Default for StopLossMethod {
    fn default() -> (r: Self)
        ensures
            r matches StopLossMethod::FixedPercent { percent } && percent@ == 2 * (
            DEC_SCALE as int),
    {
        StopLossMethod::FixedPercent { percent: Dec::from_int(2) }
    }
}

/// The offset a method subtracts from (long) or adds to (short) the entry
/// price, if the method can quote one: percent methods scale the entry,
/// ATR methods scale the cached ATR, dollar methods are absolute.
pub open spec fn spec_stop_offset(
    method: StopLossMethod,
    current_atr: Option<Dec>,
    entry_price: int,
) -> Option<int> {
    match method {
        StopLossMethod::FixedPercent { percent } => Some(
            d_mul(entry_price, d_div(percent@, 100000000)),
        ),
        StopLossMethod::Atr { multiplier } => match current_atr {
            Some(atr) => Some(d_mul(atr@, multiplier@)),
            None => None,
        },
        StopLossMethod::FixedDollar { amount } => Some(amount@),
        StopLossMethod::TrailingPercent { percent } => Some(
            d_mul(entry_price, d_div(percent@, 100000000)),
        ),
        StopLossMethod::TrailingAtr { multiplier } => match current_atr {
            Some(atr) => Some(d_mul(atr@, multiplier@)),
            None => None,
        },
    }
}

/// The stop price for an entry: buys stop below the entry, sells above.
pub open spec fn spec_stop_price(
    method: StopLossMethod,
    current_atr: Option<Dec>,
    entry_price: int,
    side: Side,
) -> Option<int> {
    match spec_stop_offset(method, current_atr, entry_price) {
        Some(offset) => Some(
            if side == Side::Buy {
                d_sub(entry_price, offset)
            } else {
                d_add(entry_price, offset)
            },
        ),
        None => None,
    }
}

/// A stop-loss order to be placed.
#[derive(Debug, Clone, PartialEq)]
pub struct StopLossOrder {
    /// Symbol
    pub symbol: String,
    /// Stop price
    pub stop_price: Dec,
    /// Quantity
    pub quantity: Dec,
    /// Is this a trailing stop
    pub is_trailing: bool,
    /// Trail amount (for trailing stops)
    pub trail_amount: Option<Dec>,
}

/// Stop-loss manager.
#[derive(Debug, Clone, Copy, PartialEq, Eq, Structural)]
pub struct StopLossManager {
    /// The stop method
    pub method: StopLossMethod,
    /// The last ATR fed in, for ATR-based stops
    pub current_atr: Option<Dec>,
}

impl StopLossManager {
    /// Create a new stop-loss manager.
    pub fn new(method: StopLossMethod) -> (r: Self)
        ensures
            r.method == method,
            r.current_atr is None,
    {
        StopLossManager { method, current_atr: None }
    }

    /// Update the current ATR value (needed for ATR-based stops).
    pub fn update_atr(&mut self, atr: Dec)
        ensures
            final(self).method == old(self).method,
            final(self).current_atr == Some(atr),
    {
        self.current_atr = Some(atr);
    }

    /// Calculate the stop-loss price for a new position: the entry price
    /// minus the method's offset for longs, plus it for shorts. ATR-based
    /// methods yield nothing until an ATR has been cached.
    pub fn calculate_stop_price(&self, entry_price: Dec, side: Side) -> (r: Option<Dec>)
        ensures
            match r {
                Some(p) => spec_stop_price(self.method, self.current_atr, entry_price@, side)
                    == Some(p@),
                None => spec_stop_price(self.method, self.current_atr, entry_price@, side)
                    is None,
            },
    {
        let hundred = Dec::hundred();
        let offset: Option<Dec> = match &self.method {
            StopLossMethod::FixedPercent { percent } => Some(
                entry_price.mul(&percent.div(&hundred)),
            ),
            StopLossMethod::Atr { multiplier } => match &self.current_atr {
                Some(atr) => Some(atr.mul(multiplier)),
                None => None,
            },
            StopLossMethod::FixedDollar { amount } => Some(*amount),
            StopLossMethod::TrailingPercent { percent } => Some(
                entry_price.mul(&percent.div(&hundred)),
            ),
            StopLossMethod::TrailingAtr { multiplier } => match &self.current_atr {
                Some(atr) => Some(atr.mul(multiplier)),
                None => None,
            },
        };
        match offset {
            Some(off) => match side {
                Side::Buy => Some(entry_price.sub(&off)),
                Side::Sell => Some(entry_price.add(&off)),
            },
            None => None,
        }
    }

    /// Update a trailing stop against the current price. A long stop only
    /// ever ratchets upward, a short stop only ever downward; non-trailing
    /// methods leave the stop as it is.
    pub fn update_trailing_stop(&self, current_stop: Dec, current_price: Dec, side: Side) -> (r:
        Dec)
        ensures
            side == Side::Buy ==> r@ >= current_stop@,
            side == Side::Sell ==> r@ <= current_stop@,
            r@ == spec_trailing_update(
                self.method,
                self.current_atr,
                current_stop@,
                current_price@,
                side,
            ),
    {
        let hundred = Dec::hundred();
        match &self.method {
            StopLossMethod::TrailingPercent { percent } => {
                let offset = current_price.mul(&percent.div(&hundred));
                match side {
                    Side::Buy => {
                        // Long: move stop up if price moved up
                        let new_stop = current_price.sub(&offset);
                        new_stop.max(&current_stop)
                    },
                    Side::Sell => {
                        // Short: move stop down if price moved down
                        let new_stop = current_price.add(&offset);
                        new_stop.min(&current_stop)
                    },
                }
            },
            StopLossMethod::TrailingAtr { multiplier } => {
                match &self.current_atr {
                    Some(atr) => {
                        let offset = atr.mul(multiplier);
                        match side {
                            Side::Buy => {
                                let new_stop = current_price.sub(&offset);
                                new_stop.max(&current_stop)
                            },
                            Side::Sell => {
                                let new_stop = current_price.add(&offset);
                                new_stop.min(&current_stop)
                            },
                        }
                    },
                    None => current_stop,
                }
            },
            // Non-trailing stops don't update
            _ => current_stop,
        }
    }

    /// Check if a stop-loss is triggered: a long stops out at or below the
    /// stop, a short at or above it.
    pub fn is_triggered(&self, stop_price: Dec, current_price: Dec, side: Side) -> (r: bool)
        ensures
            side == Side::Buy ==> r == (current_price@ <= stop_price@),
            side == Side::Sell ==> r == (current_price@ >= stop_price@),
    {
        match side {
            Side::Buy => current_price.le(&stop_price),
            Side::Sell => current_price.ge(&stop_price),
        }
    }

    /// Create a stop-loss order for a position: stop price from the entry
    /// price on the position's own side, the position's absolute quantity,
    /// and the trail amount for trailing methods.
    pub fn create_stop_order(&self, position: &Position) -> (r: Option<StopLossOrder>)
        ensures
            ({
                let side = if position.quantity@ > 0 {
                    Side::Buy
                } else {
                    Side::Sell
                };
                match r {
                    Some(o) => {
                        &&& spec_stop_price(
                            self.method,
                            self.current_atr,
                            position.avg_entry_price@,
                            side,
                        ) == Some(o.stop_price@)
                        &&& o.symbol@ == position.symbol@
                        &&& o.quantity@ == abs_i(position.quantity@)
                        &&& o.is_trailing == (self.method matches StopLossMethod::TrailingPercent {
                            ..
                        } || self.method matches StopLossMethod::TrailingAtr { .. })
                    },
                    None => spec_stop_price(
                        self.method,
                        self.current_atr,
                        position.avg_entry_price@,
                        side,
                    ) is None,
                }
            }),
    {
        let side = if position.is_long() {
            Side::Buy
        } else {
            Side::Sell
        };
        let stop_price = match self.calculate_stop_price(position.avg_entry_price, side) {
            Some(p) => p,
            None => {
                return None;
            },
        };

        let is_trailing = match &self.method {
            StopLossMethod::TrailingPercent { .. } | StopLossMethod::TrailingAtr { .. } => true,
            _ => false,
        };

        let hundred = Dec::hundred();
        let trail_amount = match &self.method {
            StopLossMethod::TrailingPercent { percent } => Some(
                position.avg_entry_price.mul(&percent.div(&hundred)),
            ),
            StopLossMethod::TrailingAtr { multiplier } => match &self.current_atr {
                Some(atr) => Some(atr.mul(multiplier)),
                None => None,
            },
            _ => None,
        };

        Some(
            StopLossOrder {
                symbol: position.symbol.clone(),
                stop_price,
                quantity: position.quantity.abs(),
                is_trailing,
                trail_amount,
            },
        )
    }
}

/// What a trailing update yields: the recomputed stop, ratcheted against
/// the current one; non-trailing methods and a missing ATR leave the stop
/// unchanged.
pub open spec fn spec_trailing_update(
    method: StopLossMethod,
    current_atr: Option<Dec>,
    current_stop: int,
    current_price: int,
    side: Side,
) -> int {
    match method {
        StopLossMethod::TrailingPercent { percent } => {
            let offset = d_mul(current_price, d_div(percent@, 100000000));
            if side == Side::Buy {
                d_max(d_sub(current_price, offset), current_stop)
            } else {
                d_min(d_add(current_price, offset), current_stop)
            }
        },
        StopLossMethod::TrailingAtr { multiplier } => match current_atr {
            Some(atr) => {
                let offset = d_mul(atr@, multiplier@);
                if side == Side::Buy {
                    d_max(d_sub(current_price, offset), current_stop)
                } else {
                    d_min(d_add(current_price, offset), current_stop)
                }
            },
            None => current_stop,
        },
        _ => current_stop,
    }
}

/// The trailing ratchet law: across any run of trailing updates, a long
/// stop never decreases and a short stop never increases.
pub proof fn lemma_trailing_stop_monotone(
    method: StopLossMethod,
    current_atr: Option<Dec>,
    current_stop: int,
    current_price: int,
    side: Side,
)
    ensures
        side == Side::Buy ==> spec_trailing_update(
            method,
            current_atr,
            current_stop,
            current_price,
            side,
        ) >= current_stop,
        side == Side::Sell ==> spec_trailing_update(
            method,
            current_atr,
            current_stop,
            current_price,
            side,
        ) <= current_stop,
{
}

} // verus!
