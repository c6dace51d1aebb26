//! Position and portfolio types.

use vstd::prelude::*;

use crate::fixed::{abs_i, d_add, d_div, d_max, d_min, d_mul, d_neg, d_sub, Dec};
use crate::order::{Order, OrderStatus, Side};

verus! {

/// A position in a single security.
#[derive(Debug, PartialEq)]
pub struct Position {
    /// Symbol
    pub symbol: String,
    /// Number of shares (positive for long, negative for short)
    pub quantity: Dec,
    /// Average entry price
    pub avg_entry_price: Dec,
    /// Current market price
    pub current_price: Dec,
    /// Market value (quantity * current_price)
    pub market_value: Dec,
    /// Cost basis (quantity * avg_entry_price)
    pub cost_basis: Dec,
    /// Unrealized profit/loss
    pub unrealized_pnl: Dec,
    /// Unrealized P&L as a percentage
    pub unrealized_pnl_percent: Dec,
    /// Realized profit/loss from closed portions
    pub realized_pnl: Dec,
}

/// The signed share count a fill contributes: buys add, sells subtract.
pub open spec fn fill_signed_qty(side: Side, quantity: int) -> int {
    if side == Side::Buy {
        quantity
    } else {
        d_neg(quantity)
    }
}

/// Whether a signed fill quantity moves in the direction the position
/// already points.
pub open spec fn same_direction(oldq: int, fq: int) -> bool {
    (oldq > 0 && fq > 0) || (oldq < 0 && fq < 0)
}

/// What a fill does to a position's quantity and average entry price, and
/// the realized P&L of the closed portion: `(new_qty, new_avg, realized)`,
/// all in micro-units, computed in saturating fixed-point exactly as
/// `Position::apply_fill` computes them.
pub open spec fn fill_outcome(oldq: int, oldavg: int, side: Side, quantity: int, price: int) -> (
    int,
    int,
    int,
) {
    let fq = fill_signed_qty(side, quantity);
    if same_direction(oldq, fq) || oldq == 0 {
        let total_cost = d_add(d_mul(oldq, oldavg), d_mul(fq, price));
        let newq = d_add(oldq, fq);
        let newavg = if newq != 0 {
            d_div(total_cost, newq)
        } else {
            oldavg
        };
        (newq, newavg, 0)
    } else {
        let close = d_min(abs_i(fq), abs_i(oldq));
        let realized = if oldq > 0 {
            d_mul(close, d_sub(price, oldavg))
        } else {
            d_mul(close, d_sub(oldavg, price))
        };
        let remaining = d_sub(abs_i(fq), close);
        if remaining > 0 {
            let newq = if fq >= 0 {
                remaining
            } else {
                d_neg(remaining)
            };
            (newq, price, realized)
        } else {
            (d_add(oldq, fq), oldavg, realized)
        }
    }
}

impl Position {
    /// The derived fields follow the primary ones: market value, cost basis
    /// and unrealized P&L are recomputed after every mutation.
    pub open spec fn wf(self) -> bool {
        &&& self.market_value@ == d_mul(self.quantity@, self.current_price@)
        &&& self.cost_basis@ == d_mul(self.quantity@, self.avg_entry_price@)
        &&& self.unrealized_pnl@ == d_sub(self.market_value@, self.cost_basis@)
    }

    /// Create a new position; the current price starts at the entry price.
    pub fn new(symbol: String, quantity: Dec, avg_entry_price: Dec) -> (r: Position)
        ensures
            r.wf(),
            r.symbol == symbol,
            r.quantity == quantity,
            r.avg_entry_price == avg_entry_price,
            r.current_price == avg_entry_price,
            r.realized_pnl@ == 0,
            r.unrealized_pnl_percent@ == 0,
    {
        let current_price = avg_entry_price;
        let market_value = quantity.mul(&current_price);
        let cost_basis = quantity.mul(&avg_entry_price);
        let unrealized_pnl = market_value.sub(&cost_basis);
        Position {
            symbol,
            quantity,
            avg_entry_price,
            current_price,
            market_value,
            cost_basis,
            unrealized_pnl,
            unrealized_pnl_percent: Dec::zero(),
            realized_pnl: Dec::zero(),
        }
    }

    /// Check if this is a long position.
    pub fn is_long(&self) -> (r: bool)
        ensures
            r == (self.quantity@ > 0),
    {
        self.quantity.gt(&Dec::zero())
    }

    /// Check if this is a short position.
    pub fn is_short(&self) -> (r: bool)
        ensures
            r == (self.quantity@ < 0),
    {
        self.quantity.lt(&Dec::zero())
    }

    /// Check if the position is flat (no shares).
    pub fn is_flat(&self) -> (r: bool)
        ensures
            r == (self.quantity@ == 0),
    {
        self.quantity.is_zero()
    }

    /// Get the absolute quantity.
    pub fn abs_quantity(&self) -> (r: Dec)
        ensures
            r@ == abs_i(self.quantity@),
    {
        self.quantity.abs()
    }

    /// A position is long, short, or flat, and exactly one of the three.
    pub proof fn lemma_direction_partition(p: Position)
        ensures
            (p.quantity@ > 0) || (p.quantity@ < 0) || (p.quantity@ == 0),
            !((p.quantity@ > 0) && (p.quantity@ < 0)),
            !((p.quantity@ > 0) && (p.quantity@ == 0)),
            !((p.quantity@ < 0) && (p.quantity@ == 0)),
    {
    }

    /// Update the current market price and recalculate the derived values.
    pub fn update_price(&mut self, price: Dec)
        ensures
            final(self).wf(),
            final(self).current_price == price,
            final(self).market_value@ == d_mul(old(self).quantity@, price@),
            final(self).unrealized_pnl@ == d_sub(
                final(self).market_value@,
                final(self).cost_basis@,
            ),
            final(self).quantity == old(self).quantity,
            final(self).avg_entry_price == old(self).avg_entry_price,
            final(self).realized_pnl == old(self).realized_pnl,
            final(self).symbol == old(self).symbol,
            final(self).cost_basis@ == d_mul(old(self).quantity@, old(self).avg_entry_price@),
    {
        self.current_price = price;
        self.market_value = self.quantity.mul(&price);
        // Re-derive the cost basis so well-formedness holds of any input.
        self.cost_basis = self.quantity.mul(&self.avg_entry_price);
        self.unrealized_pnl = self.market_value.sub(&self.cost_basis);

        if !self.cost_basis.is_zero() {
            self.unrealized_pnl_percent = self.unrealized_pnl.div(&self.cost_basis.abs()).mul(
                &Dec::hundred(),
            );
        }
    }

    /// Apply a fill to the position and return the realized P&L of the
    /// closed portion. Adding in the position's direction reprices the
    /// average entry; reducing realizes P&L on the closed quantity;
    /// crossing zero reverses the position at the fill price.
    pub fn apply_fill(&mut self, side: Side, quantity: Dec, price: Dec) -> (realized: Dec)
        requires
            quantity@ >= 0,
        ensures
            ({
                let (newq, newavg, r) = fill_outcome(
                    old(self).quantity@,
                    old(self).avg_entry_price@,
                    side,
                    quantity@,
                    price@,
                );
                &&& realized@ == r
                &&& final(self).quantity@ == newq
                &&& final(self).avg_entry_price@ == newavg
                &&& final(self).realized_pnl@ == d_add(old(self).realized_pnl@, r)
            }),
            final(self).wf(),
            final(self).symbol == old(self).symbol,
            final(self).current_price == old(self).current_price,
            final(self).market_value@ == d_mul(final(self).quantity@, old(self).current_price@),
    {
        proof {
            use_type_invariant(self.realized_pnl);
        }
        let fill_qty = match side {
            Side::Buy => quantity,
            Side::Sell => quantity.neg(),
        };

        let mut realized = Dec::zero();

        // Check if this is increasing or decreasing the position
        let zero = Dec::zero();
        let is_same_direction = (self.quantity.gt(&zero) && fill_qty.gt(&zero)) || (self.quantity.lt(
            &zero,
        ) && fill_qty.lt(&zero));

        if is_same_direction || self.quantity.is_zero() {
            // Adding to position - update average entry price
            let total_cost = self.quantity.mul(&self.avg_entry_price).add(
                &fill_qty.mul(&price),
            );
            let new_quantity = self.quantity.add(&fill_qty);

            if !new_quantity.is_zero() {
                self.avg_entry_price = total_cost.div(&new_quantity);
            }
            self.quantity = new_quantity;
        } else {
            // Reducing or reversing position
            let close_qty = fill_qty.abs().min(&self.quantity.abs());

            // Calculate realized P&L on the closed portion
            if self.quantity.gt(&zero) {
                // Was long, now selling
                realized = close_qty.mul(&price.sub(&self.avg_entry_price));
            } else {
                // Was short, now buying
                realized = close_qty.mul(&self.avg_entry_price.sub(&price));
            }

            // Update quantity
            let remaining = fill_qty.abs().sub(&close_qty);
            if remaining.gt(&zero) {
                // Position reversed
                self.quantity = if fill_qty.ge(&zero) {
                    remaining
                } else {
                    remaining.neg()
                };
                self.avg_entry_price = price;
            } else {
                self.quantity = self.quantity.add(&fill_qty);
            }
        }

        self.realized_pnl = self.realized_pnl.add(&realized);

        // Update derived values
        self.cost_basis = self.quantity.mul(&self.avg_entry_price);
        let current = self.current_price;
        self.update_price(current);

        realized
    }
}

/// The market values of a list of positions, summed left to right in
/// saturating fixed-point.
pub open spec fn sum_market_value(s: Seq<Position>) -> int
    decreases s.len(),
{
    if s.len() == 0 {
        0
    } else {
        d_add(sum_market_value(s.drop_last()), s.last().market_value@)
    }
}

/// The unrealized P&L of a list of positions, summed left to right.
pub open spec fn sum_unrealized(s: Seq<Position>) -> int
    decreases s.len(),
{
    if s.len() == 0 {
        0
    } else {
        d_add(sum_unrealized(s.drop_last()), s.last().unrealized_pnl@)
    }
}

/// Portfolio containing cash and positions.
#[derive(Debug, PartialEq)]
pub struct Portfolio {
    /// Available cash
    pub cash: Dec,
    /// Buying power (may be different from cash due to margin)
    pub buying_power: Dec,
    /// Total equity (cash + market value of positions)
    pub equity: Dec,
    /// Open positions; flat positions are removed
    pub positions: Vec<Position>,
    /// Total unrealized P&L across all positions
    pub total_unrealized_pnl: Dec,
    /// Total realized P&L across all positions
    pub total_realized_pnl: Dec,
    /// Initial capital (for calculating returns)
    pub initial_capital: Dec,
    /// Highest equity reached (for drawdown calculation)
    pub peak_equity: Dec,
}

impl Portfolio {
    /// The portfolio's accounting invariant: position symbols are distinct,
    /// no position is flat, every position is well-formed, the equity is
    /// the cash plus the summed market values, the unrealized total is the
    /// summed unrealized P&L, and the peak equity never lags the equity.
    pub open spec fn wf(self) -> bool {
        &&& forall|i: int, j: int|
            0 <= i < j < self.positions@.len() ==> self.positions@[i].symbol@
                != self.positions@[j].symbol@
        &&& forall|i: int|
            0 <= i < self.positions@.len() ==> (#[trigger] self.positions@[i]).wf()
        &&& forall|i: int|
            0 <= i < self.positions@.len() ==> (#[trigger] self.positions@[i]).quantity@ != 0
        &&& self.equity@ == d_add(self.cash@, sum_market_value(self.positions@))
        &&& self.total_unrealized_pnl@ == sum_unrealized(self.positions@)
        &&& self.peak_equity@ >= self.equity@
    }

    /// Create a new portfolio with initial cash.
    pub fn new(initial_capital: Dec) -> (r: Portfolio)
        ensures
            r.wf(),
            r.cash == initial_capital,
            r.buying_power == initial_capital,
            r.equity == initial_capital,
            r.positions@.len() == 0,
            r.total_realized_pnl@ == 0,
            r.initial_capital == initial_capital,
            r.peak_equity == initial_capital,
    {
        proof {
            use_type_invariant(initial_capital);
        }
        Portfolio {
            cash: initial_capital,
            buying_power: initial_capital,
            equity: initial_capital,
            positions: Vec::new(),
            total_unrealized_pnl: Dec::zero(),
            total_realized_pnl: Dec::zero(),
            initial_capital,
            peak_equity: initial_capital,
        }
    }

    /// The index of the position in `symbol`, if the portfolio holds one.
    pub fn find_position(&self, symbol: &str) -> (r: Option<usize>)
        ensures
            match r {
                Some(i) => i < self.positions@.len() && self.positions@[i as int].symbol@
                    == symbol@,
                None => forall|i: int|
                    0 <= i < self.positions@.len() ==> (
                    #[trigger] self.positions@[i]).symbol@ != symbol@,
            },
    {
        let mut i: usize = 0;
        while i < self.positions.len()
            invariant
                i <= self.positions@.len(),
                forall|j: int|
                    0 <= j < i ==> (#[trigger] self.positions@[j]).symbol@ != symbol@,
            decreases self.positions@.len() - i,
        {
            if crate::timeframe::str_eq(self.positions[i].symbol.as_str(), symbol) {
                return Some(i);
            }
            i += 1;
        }
        None
    }

    /// Get a position by symbol.
    pub fn get_position(&self, symbol: &str) -> (r: Option<&Position>)
        ensures
            match r {
                Some(p) => exists|i: int|
                    0 <= i < self.positions@.len() && self.positions@[i] == *p && p.symbol@
                        == symbol@,
                None => forall|i: int|
                    0 <= i < self.positions@.len() ==> (
                    #[trigger] self.positions@[i]).symbol@ != symbol@,
            },
    {
        match self.find_position(symbol) {
            Some(i) => Some(&self.positions[i]),
            None => None,
        }
    }

    /// Check if we have a position in a symbol. Flat positions are removed
    /// on the spot, so holding a position means a non-flat one.
    pub fn has_position(&self, symbol: &str) -> (r: bool)
        ensures
            r == exists|i: int|
                0 <= i < self.positions@.len() && (#[trigger] self.positions@[i]).symbol@
                    == symbol@,
    {
        match self.find_position(symbol) {
            Some(_) => true,
            None => false,
        }
    }

    /// Get the total market value of all positions.
    pub fn total_market_value(&self) -> (r: Dec)
        ensures
            r@ == sum_market_value(self.positions@),
    {
        let mut acc = Dec::zero();
        let mut i: usize = 0;
        while i < self.positions.len()
            invariant
                i <= self.positions@.len(),
                acc@ == sum_market_value(self.positions@.take(i as int)),
            decreases self.positions@.len() - i,
        {
            proof {
                assert(self.positions@.take(i + 1 as int).drop_last() =~= self.positions@.take(
                    i as int,
                ));
            }
            acc = acc.add(&self.positions[i].market_value);
            i += 1;
        }
        proof {
            assert(self.positions@.take(self.positions@.len() as int) =~= self.positions@);
        }
        acc
    }

    /// The total unrealized P&L over all positions.
    fn total_unrealized(&self) -> (r: Dec)
        ensures
            r@ == sum_unrealized(self.positions@),
    {
        let mut acc = Dec::zero();
        let mut i: usize = 0;
        while i < self.positions.len()
            invariant
                i <= self.positions@.len(),
                acc@ == sum_unrealized(self.positions@.take(i as int)),
            decreases self.positions@.len() - i,
        {
            proof {
                assert(self.positions@.take(i + 1 as int).drop_last() =~= self.positions@.take(
                    i as int,
                ));
            }
            acc = acc.add(&self.positions[i].unrealized_pnl);
            i += 1;
        }
        proof {
            assert(self.positions@.take(self.positions@.len() as int) =~= self.positions@);
        }
        acc
    }

    /// Update the equity, the unrealized total and the peak equity.
    pub fn update_equity(&mut self)
        ensures
            final(self).equity@ == d_add(
                old(self).cash@,
                sum_market_value(old(self).positions@),
            ),
            final(self).total_unrealized_pnl@ == sum_unrealized(old(self).positions@),
            final(self).peak_equity@ == d_max(old(self).peak_equity@, final(self).equity@),
            final(self).positions == old(self).positions,
            final(self).cash == old(self).cash,
            final(self).buying_power == old(self).buying_power,
            final(self).total_realized_pnl == old(self).total_realized_pnl,
            final(self).initial_capital == old(self).initial_capital,
    {
        let market_value = self.total_market_value();
        self.equity = self.cash.add(&market_value);

        self.total_unrealized_pnl = self.total_unrealized();

        // Update peak equity for drawdown calculation
        if self.equity.gt(&self.peak_equity) {
            self.peak_equity = self.equity;
        }
    }

    /// Calculate current drawdown from peak, in percent.
    pub fn drawdown(&self) -> (r: Dec)
        ensures
            r@ == if self.peak_equity@ == 0 {
                0
            } else {
                d_mul(d_div(d_sub(self.peak_equity@, self.equity@), self.peak_equity@), 100000000)
            },
    {
        if self.peak_equity.is_zero() {
            return Dec::zero();
        }
        self.peak_equity.sub(&self.equity).div(&self.peak_equity).mul(&Dec::hundred())
    }

    /// Calculate total return percentage over the initial capital.
    pub fn total_return(&self) -> (r: Dec)
        ensures
            r@ == if self.initial_capital@ == 0 {
                0
            } else {
                d_mul(
                    d_div(d_sub(self.equity@, self.initial_capital@), self.initial_capital@),
                    100000000,
                )
            },
    {
        if self.initial_capital.is_zero() {
            return Dec::zero();
        }
        self.equity.sub(&self.initial_capital).div(&self.initial_capital).mul(&Dec::hundred())
    }

    /// Apply a filled order to the portfolio: debit or credit the cash by
    /// the fill value, apply the fill to the symbol's position (creating it
    /// on first contact), drop the position if it went flat, accumulate the
    /// realized P&L, and recompute equity and peak. An order that is not
    /// `Filled` leaves the portfolio untouched.
    #[verifier::rlimit(100)]
    pub fn apply_order(&mut self, order: &Order)
        requires
            old(self).wf(),
            order.filled_quantity@ >= 0,
        ensures
            final(self).wf(),
            final(self).peak_equity@ >= old(self).peak_equity@,
            final(self).buying_power == old(self).buying_power,
            final(self).initial_capital == old(self).initial_capital,
            order.status != OrderStatus::Filled ==> *final(self) == *old(self),
            order.status == OrderStatus::Filled ==> ({
                let avg = match order.filled_avg_price {
                    Some(a) => a@,
                    None => 0,
                };
                let fv = d_mul(avg, order.filled_quantity@);
                let (oq, oa) = match spec_position_of(old(self).positions@, order.symbol@) {
                    Some(p) => (p.quantity@, p.avg_entry_price@),
                    None => (0, 0),
                };
                let (nq, na, r) = fill_outcome(oq, oa, order.side, order.filled_quantity@, avg);
                &&& final(self).cash@ == if order.side == Side::Buy {
                    d_sub(old(self).cash@, fv)
                } else {
                    d_add(old(self).cash@, fv)
                }
                &&& final(self).total_realized_pnl@ == d_add(old(self).total_realized_pnl@, r)
                &&& if nq == 0 {
                    spec_position_of(final(self).positions@, order.symbol@) is None
                } else {
                    match spec_position_of(final(self).positions@, order.symbol@) {
                        Some(p) => p.quantity@ == nq && p.avg_entry_price@ == na,
                        None => false,
                    }
                }
            }),
    {
        if !order.is_filled() {
            return ;
        }

        let avg_price = match &order.filled_avg_price {
            Some(a) => *a,
            None => Dec::zero(),
        };
        let fill_value = avg_price.mul(&order.filled_quantity);

        // Update cash
        match order.side {
            Side::Buy => {
                self.cash = self.cash.sub(&fill_value);
            },
            Side::Sell => {
                self.cash = self.cash.add(&fill_value);
            },
        }

        // Update or create the position
        let idx: usize = match self.find_position(order.symbol.as_str()) {
            Some(i) => {
                proof {
                    lemma_position_of_found(old(self).positions@, order.symbol@, i as int);
                }
                i
            },
            None => {
                proof {
                    lemma_position_of_missing(old(self).positions@, order.symbol@);
                }
                let ghost n = self.positions@.len();
                self.positions.push(
                    Position::new(order.symbol.clone(), Dec::zero(), Dec::zero()),
                );
                proof {
                    assert(self.positions@[n as int].symbol@ == order.symbol@);
                    assert(forall|j: int|
                        0 <= j < n ==> (#[trigger] self.positions@[j]).symbol@
                            != order.symbol@);
                }
                self.positions.len() - 1
            },
        };

        let realized = {
            let pos = &mut self.positions[idx];
            pos.apply_fill(order.side, order.filled_quantity, avg_price)
        };

        self.total_realized_pnl = self.total_realized_pnl.add(&realized);

        // Remove flat positions
        if self.positions[idx].is_flat() {
            self.positions.remove(idx);
            proof {
                assert(forall|j: int|
                    0 <= j < self.positions@.len() ==> (#[trigger] self.positions@[j]).symbol@
                        != order.symbol@);
                lemma_position_of_missing(self.positions@, order.symbol@);
            }
        } else {
            proof {
                lemma_position_of_found(self.positions@, order.symbol@, idx as int);
            }
        }

        self.update_equity();
    }

    /// Mark all open positions to the given per-symbol prices; a symbol
    /// without a quote keeps its last price. Equity and peak are
    /// recomputed afterwards.
    pub fn update_prices(&mut self, prices: &Vec<(String, Dec)>)
        requires
            old(self).wf(),
        ensures
            final(self).wf(),
            final(self).peak_equity@ >= old(self).peak_equity@,
            final(self).cash == old(self).cash,
            final(self).buying_power == old(self).buying_power,
            final(self).total_realized_pnl == old(self).total_realized_pnl,
            final(self).initial_capital == old(self).initial_capital,
            final(self).positions@.len() == old(self).positions@.len(),
            forall|i: int|
                0 <= i < final(self).positions@.len() ==> {
                    let p = old(self).positions@[i];
                    let np = #[trigger] final(self).positions@[i];
                    &&& np.symbol@ == p.symbol@
                    &&& np.quantity == p.quantity
                    &&& np.avg_entry_price == p.avg_entry_price
                    &&& np.current_price@ == match spec_price_of(prices@, p.symbol@) {
                        Some(px) => px@,
                        None => p.current_price@,
                    }
                },
    {
        let mut i: usize = 0;
        while i < self.positions.len()
            invariant
                old(self).wf(),
                i <= self.positions@.len(),
                self.positions@.len() == old(self).positions@.len(),
                self.cash == old(self).cash,
                self.buying_power == old(self).buying_power,
                self.total_realized_pnl == old(self).total_realized_pnl,
                self.initial_capital == old(self).initial_capital,
                self.peak_equity == old(self).peak_equity,
                self.equity == old(self).equity,
                self.total_unrealized_pnl == old(self).total_unrealized_pnl,
                forall|j: int|
                    i <= j < self.positions@.len() ==> #[trigger] self.positions@[j] == old(
                        self,
                    ).positions@[j],
                forall|j: int|
                    0 <= j < i ==> {
                        let p = old(self).positions@[j];
                        let np = #[trigger] self.positions@[j];
                        &&& np.wf()
                        &&& np.symbol@ == p.symbol@
                        &&& np.quantity == p.quantity
                        &&& np.avg_entry_price == p.avg_entry_price
                        &&& np.quantity@ != 0
                        &&& np.current_price@ == match spec_price_of(prices@, p.symbol@) {
                            Some(px) => px@,
                            None => p.current_price@,
                        }
                    },
            decreases self.positions@.len() - i,
        {
            let symbol_matches = lookup_price(prices, self.positions[i].symbol.as_str());
            if let Some(px) = symbol_matches {
                let pos = &mut self.positions[i];
                pos.update_price(px);
            }
            i += 1;
        }
        proof {
            assert(forall|i: int, j: int|
                0 <= i < j < self.positions@.len() ==> (#[trigger] self.positions@[i]).symbol@
                    != (#[trigger] self.positions@[j]).symbol@);
        }
        self.update_equity();
    }

    /// The portfolio accounting facts: equity is the cash plus the summed
    /// market value of the open positions, and the peak equity never lags
    /// the equity.
    pub proof fn lemma_portfolio_accounting(p: Portfolio)
        requires
            p.wf(),
        ensures
            p.equity@ == d_add(p.cash@, sum_market_value(p.positions@)),
            p.peak_equity@ >= p.equity@,
    {
    }

    /// Get the number of open positions.
    pub fn position_count(&self) -> (r: usize)
        ensures
            r == self.positions@.len(),
    {
        self.positions.len()
    }

    /// Get all symbols with open positions.
    pub fn symbols(&self) -> (r: Vec<String>)
        ensures
            r@.len() == self.positions@.len(),
            forall|i: int|
                0 <= i < r@.len() ==> r@[i]@ == (#[trigger] self.positions@[i]).symbol@,
    {
        let mut v: Vec<String> = Vec::new();
        let mut i: usize = 0;
        while i < self.positions.len()
            invariant
                i <= self.positions@.len(),
                v@.len() == i,
                forall|j: int|
                    0 <= j < i ==> v@[j]@ == (#[trigger] self.positions@[j]).symbol@,
            decreases self.positions@.len() - i,
        {
            v.push(self.positions[i].symbol.clone());
            i += 1;
        }
        v
    }
}

/// The first position in the list whose symbol matches, if any.
pub open spec fn spec_position_of(s: Seq<Position>, sym: Seq<char>) -> Option<Position>
    decreases s.len(),
{
    if s.len() == 0 {
        None
    } else if s[0].symbol@ == sym {
        Some(s[0])
    } else {
        spec_position_of(s.subrange(1, s.len() as int), sym)
    }
}

/// The first price in the list whose symbol matches, if any.
pub open spec fn spec_price_of(s: Seq<(String, Dec)>, sym: Seq<char>) -> Option<Dec>
    decreases s.len(),
{
    if s.len() == 0 {
        None
    } else if s[0].0@ == sym {
        Some(s[0].1)
    } else {
        spec_price_of(s.subrange(1, s.len() as int), sym)
    }
}

/// Look up the first quote for a symbol.
pub fn lookup_price(prices: &Vec<(String, Dec)>, symbol: &str) -> (r: Option<Dec>)
    ensures
        r == spec_price_of(prices@, symbol@),
{
    proof {
        assert(prices@.subrange(0, prices@.len() as int) =~= prices@);
    }
    let mut i: usize = 0;
    while i < prices.len()
        invariant
            i <= prices@.len(),
            forall|j: int| 0 <= j < i ==> (#[trigger] prices@[j]).0@ != symbol@,
            spec_price_of(prices@, symbol@) == spec_price_of(
                prices@.subrange(i as int, prices@.len() as int),
                symbol@,
            ),
        decreases prices@.len() - i,
    {
        proof {
            assert(prices@.subrange(i as int, prices@.len() as int).subrange(
                1,
                (prices@.len() - i) as int,
            ) =~= prices@.subrange(i + 1, prices@.len() as int));
        }
        if crate::timeframe::str_eq(prices[i].0.as_str(), symbol) {
            return Some(prices[i].1);
        }
        i += 1;
    }
    proof {
        assert(prices@.subrange(prices@.len() as int, prices@.len() as int).len() == 0);
    }
    None
}

/// If index `i` holds the first occurrence of `sym`, the first-match search
/// finds exactly that element.
pub proof fn lemma_position_of_found(s: Seq<Position>, sym: Seq<char>, i: int)
    requires
        0 <= i < s.len(),
        s[i].symbol@ == sym,
        forall|j: int| 0 <= j < i ==> (#[trigger] s[j]).symbol@ != sym,
    ensures
        spec_position_of(s, sym) == Some(s[i]),
    decreases s.len(),
{
    if i == 0 {
    } else {
        assert(s[0].symbol@ != sym);
        let t = s.subrange(1, s.len() as int);
        assert(t[i - 1] == s[i]);
        assert(forall|j: int| 0 <= j < i - 1 ==> #[trigger] t[j] == s[j + 1]);
        lemma_position_of_found(t, sym, i - 1);
    }
}

/// If no element matches, the first-match search finds nothing.
pub proof fn lemma_position_of_missing(s: Seq<Position>, sym: Seq<char>)
    requires
        forall|j: int| 0 <= j < s.len() ==> (#[trigger] s[j]).symbol@ != sym,
    ensures
        spec_position_of(s, sym) is None,
    decreases s.len(),
{
    if s.len() == 0 {
    } else {
        let t = s.subrange(1, s.len() as int);
        assert(forall|j: int| 0 <= j < t.len() ==> #[trigger] t[j] == s[j + 1]);
        lemma_position_of_missing(t, sym);
    }
}




impl Clone for Position {
    /// An exact copy.
    fn clone(&self) -> (r: Self)
        ensures
            r == *self,
    {
        Position {
            symbol: self.symbol.clone(),
            quantity: self.quantity,
            avg_entry_price: self.avg_entry_price,
            current_price: self.current_price,
            market_value: self.market_value,
            cost_basis: self.cost_basis,
            unrealized_pnl: self.unrealized_pnl,
            unrealized_pnl_percent: self.unrealized_pnl_percent,
            realized_pnl: self.realized_pnl,
        }
    }
}

/// Copy a position list element by element.
pub fn clone_positions(v: &Vec<Position>) -> (r: Vec<Position>)
    ensures
        r@ == v@,
{
    let mut r: Vec<Position> = Vec::new();
    let mut i: usize = 0;
    while i < v.len()
        invariant
            i <= v@.len(),
            r@ == v@.take(i as int),
        decreases v@.len() - i,
    {
        proof {
            assert(v@.take(i + 1 as int) =~= v@.take(i as int).push(v@[i as int]));
        }
        r.push(v[i].clone());
        i += 1;
    }
    proof {
        assert(v@.take(v@.len() as int) =~= v@);
    }
    r
}

impl Clone for Portfolio {
    /// An exact copy (the position list is copied element by element).
    fn clone(&self) -> (r: Self)
        ensures
            r.positions@ == self.positions@,
            r == (Portfolio { positions: r.positions, ..*self }),
    {
        Portfolio {
            cash: self.cash,
            buying_power: self.buying_power,
            equity: self.equity,
            positions: clone_positions(&self.positions),
            total_unrealized_pnl: self.total_unrealized_pnl,
            total_realized_pnl: self.total_realized_pnl,
            initial_capital: self.initial_capital,
            peak_equity: self.peak_equity,
        }
    }
}

} // verus!
