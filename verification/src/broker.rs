//! Paper trading broker for backtesting and simulation.

use vstd::prelude::*;

use crate::errors::BrokerError;
use crate::fixed::{d_add, d_div, d_mul, d_sub, Dec};
use crate::order::{Order, OrderRequest, OrderStatus, OrderType, Side};
use crate::position::{fill_outcome, spec_position_of, Portfolio, Position};
use crate::sys::now_millis;

verus! {

/// The slipped fill price: buys fill above the reference price, sells
/// below, by the slippage percentage.
pub open spec fn spec_fill_price(side: Side, market_price: int, slippage_pct: int) -> int {
    if side == Side::Buy {
        d_mul(market_price, d_add(1000000, d_div(slippage_pct, 100000000)))
    } else {
        d_mul(market_price, d_sub(1000000, d_div(slippage_pct, 100000000)))
    }
}

/// Whether a limit order cannot fill at the slipped price: a buy cannot
/// fill above its limit, a sell cannot fill below.
pub open spec fn spec_limit_infeasible(o: Order, fill_price: int) -> bool {
    o.order_type == OrderType::Limit && match o.limit_price {
        Some(limit) => (o.side == Side::Buy && fill_price > limit@) || (o.side == Side::Sell
            && fill_price < limit@),
        None => false,
    }
}

/// Paper trading broker: an in-memory portfolio and order list, with
/// slippage and per-share commission. Execution is driven externally by
/// [`PaperBroker::execute_at_price`].
#[derive(Debug)]
pub struct PaperBroker {
    /// The simulated portfolio
    pub portfolio: Portfolio,
    /// Every order ever submitted, in submission order
    pub orders: Vec<Order>,
    /// The next order id to assign
    pub next_id: u64,
    /// Slippage in percent of the reference price
    pub slippage_pct: Dec,
    /// Commission charged per share
    pub commission_per_share: Dec,
}

impl PaperBroker {
    /// The broker's invariant: the portfolio is well-formed, every order
    /// is well-formed with a positive quantity and an id below `next_id`,
    /// ids are distinct, and an order not yet terminal has no fills.
    pub open spec fn wf(self) -> bool {
        &&& self.portfolio.wf()
        &&& forall|i: int| 0 <= i < self.orders@.len() ==> (#[trigger] self.orders@[i]).wf()
        &&& forall|i: int|
            0 <= i < self.orders@.len() ==> (#[trigger] self.orders@[i]).quantity@ > 0
        &&& forall|i: int|
            0 <= i < self.orders@.len() ==> (#[trigger] self.orders@[i]).id < self.next_id
        &&& forall|i: int, j: int|
            0 <= i < j < self.orders@.len() ==> self.orders@[i].id != self.orders@[j].id
        &&& forall|i: int|
            0 <= i < self.orders@.len() ==> (!(#[trigger] self.orders@[i]).status.spec_terminal()
                ==> self.orders@[i].filled_quantity@ == 0)
    }

    /// Create a new paper broker with initial capital, 0.05% slippage and
    /// no commission.
    pub fn new(initial_capital: Dec) -> (r: PaperBroker)
        ensures
            r.wf(),
            r.portfolio.cash == initial_capital,
            r.portfolio.equity == initial_capital,
            r.portfolio.buying_power == initial_capital,
            r.portfolio.positions@.len() == 0,
            r.orders@.len() == 0,
            r.next_id == 0,
            r.slippage_pct@ == 50000,
            r.commission_per_share@ == 0,
    {
        PaperBroker {
            portfolio: Portfolio::new(initial_capital),
            orders: Vec::new(),
            next_id: 0,
            // 0.05% slippage
            slippage_pct: Dec::from_micro(50000),
            commission_per_share: Dec::zero(),
        }
    }

    /// Set slippage percentage.
    pub fn with_slippage(self, slippage_pct: Dec) -> (r: PaperBroker)
        requires
            self.wf(),
        ensures
            r.wf(),
            r == (PaperBroker { slippage_pct, ..self }),
    {
        PaperBroker { slippage_pct, ..self }
    }

    /// Set commission per share.
    pub fn with_commission(self, commission: Dec) -> (r: PaperBroker)
        requires
            self.wf(),
        ensures
            r.wf(),
            r == (PaperBroker { commission_per_share: commission, ..self }),
    {
        PaperBroker { commission_per_share: commission, ..self }
    }

    /// The index of the order with the given id, if any.
    fn find_order(&self, order_id: u64) -> (r: Option<usize>)
        ensures
            match r {
                Some(i) => i < self.orders@.len() && self.orders@[i as int].id == order_id,
                None => forall|i: int|
                    0 <= i < self.orders@.len() ==> (#[trigger] self.orders@[i]).id != order_id,
            },
    {
        let mut i: usize = 0;
        while i < self.orders.len()
            invariant
                i <= self.orders@.len(),
                forall|j: int| 0 <= j < i ==> (#[trigger] self.orders@[j]).id != order_id,
            decreases self.orders@.len() - i,
        {
            if self.orders[i].id == order_id {
                return Some(i);
            }
            i += 1;
        }
        None
    }

    /// Submit an order: submission is always accepted, and the order is
    /// placed in `Pending` under a fresh id.
    pub fn submit_order(&mut self, request: &OrderRequest) -> (r: Result<Order, BrokerError>)
        requires
            old(self).wf(),
            request.quantity@ > 0,
            old(self).next_id < 0xFFFF_FFFF_FFFF_FFFF,
        ensures
            final(self).wf(),
            final(self).portfolio == old(self).portfolio,
            final(self).next_id == old(self).next_id + 1,
            match r {
                Ok(o) => {
                    &&& o.id == old(self).next_id
                    &&& o.symbol@ == request.symbol@
                    &&& o.side == request.side
                    &&& o.order_type == request.order_type
                    &&& o.quantity == request.quantity
                    &&& o.limit_price == request.limit_price
                    &&& o.status == OrderStatus::Pending
                    &&& o.filled_quantity@ == 0
                    &&& final(self).orders@.len() == old(self).orders@.len() + 1
                    &&& final(self).orders@.last().id == o.id
                    &&& final(self).orders@.last().quantity == o.quantity
                    &&& final(self).orders@.last().side == o.side
                    &&& final(self).orders@.last().symbol@ == o.symbol@
                    &&& final(self).orders@.last().status == o.status
                    &&& final(self).orders@.last().order_type == o.order_type
                    &&& final(self).orders@.last().limit_price == o.limit_price
                    &&& forall|i: int|
                        0 <= i < old(self).orders@.len() ==> final(self).orders@[i] == old(
                            self,
                        ).orders@[i]
                },
                Err(_) => false,
            },
    {
        let order = Order::from_request(request, self.next_id);
        let copy = order.clone();

        self.orders.push(order);
        self.next_id = self.next_id + 1;

        Ok(copy)
    }

    /// Simulate execution of an order at a market price. A missing id is
    /// an error; a terminal order is returned unchanged; an infeasible
    /// limit leaves the order and the portfolio untouched; a buy without
    /// the cash to cover the slipped fill value fails with the amounts;
    /// otherwise the order fills in full at the slipped price: the fill is
    /// recorded, cash moves by the fill value and commission, the position
    /// absorbs the fill (flat positions are dropped), equity and peak are
    /// recomputed, and the buying power tracks the cash.
    #[verifier::rlimit(100)]
    pub fn execute_at_price(&mut self, order_id: u64, market_price: Dec) -> (r: Result<
        Order,
        BrokerError,
    >)
        requires
            old(self).wf(),
        ensures
            final(self).wf(),
            ({
                let found = exists|i: int|
                    0 <= i < old(self).orders@.len() && (#[trigger] old(self).orders@[i]).id
                        == order_id;
                if !found {
                    &&& r matches Err(BrokerError::OrderNotFound(_))
                    &&& final(self).portfolio == old(self).portfolio
                    &&& final(self).orders@ == old(self).orders@
                } else {
                    let i = choose|i: int|
                        0 <= i < old(self).orders@.len() && (#[trigger] old(self).orders@[i]).id
                            == order_id;
                    let o = old(self).orders@[i];
                    let fp = spec_fill_price(o.side, market_price@, old(self).slippage_pct@);
                    let commission = d_mul(old(self).commission_per_share@, o.quantity@);
                    let fv = d_mul(fp, o.quantity@);
                    if o.status.spec_terminal() || spec_limit_infeasible(o, fp) {
                        // Terminal and infeasible-limit orders change nothing;
                        // the returned copy is the stored order.
                        &&& r matches Ok(ret) && ret.id == o.id && ret.status == o.status
                            && ret.filled_quantity == o.filled_quantity
                            && ret.filled_avg_price == o.filled_avg_price && ret.fills@
                            == o.fills@ && ret.symbol@ == o.symbol@ && ret.side == o.side
                            && ret.quantity == o.quantity && ret.limit_price == o.limit_price
                        &&& final(self).portfolio == old(self).portfolio
                        &&& final(self).orders@ == old(self).orders@
                    } else if o.side == Side::Buy && fv > old(self).portfolio.cash@ {
                        &&& r matches Err(BrokerError::InsufficientFunds {
                            required,
                            available,
                        }) && required@ == fv && available@ == old(self).portfolio.cash@
                        &&& final(self).portfolio == old(self).portfolio
                        &&& final(self).orders@ == old(self).orders@
                    } else {
                        let (oq, oa) = match spec_position_of(
                            old(self).portfolio.positions@,
                            o.symbol@,
                        ) {
                            Some(p) => (p.quantity@, p.avg_entry_price@),
                            None => (0, 0),
                        };
                        let (nq, na, realized) = fill_outcome(oq, oa, o.side, o.quantity@, fp);
                        &&& r matches Ok(ret) && ret.id == o.id && ret.status
                            == OrderStatus::Filled && ret.filled_quantity@ == o.quantity@
                            && ret.fills@.len() == o.fills@.len() + 1 && match ret
                            .filled_avg_price {
                            Some(avg) => avg@ == d_div(d_mul(fp, o.quantity@), o.quantity@),
                            None => false,
                        }
                        &&& final(self).portfolio.cash@ == if o.side == Side::Buy {
                            d_sub(old(self).portfolio.cash@, d_add(fv, commission))
                        } else {
                            d_add(old(self).portfolio.cash@, d_sub(fv, commission))
                        }
                        &&& final(self).portfolio.buying_power == final(self).portfolio.cash
                        &&& if nq == 0 {
                            spec_position_of(final(self).portfolio.positions@, o.symbol@)
                                is None
                        } else {
                            match spec_position_of(final(self).portfolio.positions@, o.symbol@) {
                                Some(p) => p.quantity@ == nq && p.avg_entry_price@ == na,
                                None => false,
                            }
                        }
                        &&& final(self).orders@.len() == old(self).orders@.len()
                    }
                }
            }),
    {
        let idx = match self.find_order(order_id) {
            Some(i) => i,
            None => {
                return Err(
                    BrokerError::OrderNotFound(crate::fmt::u64_to_string(order_id)),
                );
            },
        };

        proof {
            assert(old(self).orders@[idx as int].id == order_id);
            let wi = choose|i: int|
                0 <= i < old(self).orders@.len() && (#[trigger] old(self).orders@[i]).id
                    == order_id;
            assert(0 <= wi < old(self).orders@.len() && old(self).orders@[wi].id == order_id);
            assert(wi == idx as int);
        }

        if self.orders[idx].status.is_terminal() {
            return Ok(self.orders[idx].clone());
        }

        // Apply slippage
        let one = Dec::one();
        let hundred = Dec::hundred();
        let slip = self.slippage_pct.div(&hundred);
        let fill_price = match self.orders[idx].side {
            Side::Buy => market_price.mul(&one.add(&slip)),
            Side::Sell => market_price.mul(&one.sub(&slip)),
        };

        // Check if a limit order can be filled
        if self.orders[idx].order_type == OrderType::Limit {
            if let Some(limit) = &self.orders[idx].limit_price {
                let limit = *limit;
                match self.orders[idx].side {
                    Side::Buy => {
                        if fill_price.gt(&limit) {
                            // Can't fill above limit
                            return Ok(self.orders[idx].clone());
                        }
                    },
                    Side::Sell => {
                        if fill_price.lt(&limit) {
                            // Can't fill below limit
                            return Ok(self.orders[idx].clone());
                        }
                    },
                }
            }
        }

        let quantity = self.orders[idx].quantity;
        let side = self.orders[idx].side;

        // Check buying power for buys
        let cost = fill_price.mul(&quantity);
        if side == Side::Buy {
            if cost.gt(&self.portfolio.cash) {
                return Err(
                    BrokerError::InsufficientFunds {
                        required: cost,
                        available: self.portfolio.cash,
                    },
                );
            }
        }

        // Calculate commission
        let commission = self.commission_per_share.mul(&quantity);

        // Create and record the fill
        let fill = crate::order::Fill {
            id: crate::sys::fresh_uuid_string(),
            order_id,
            quantity,
            price: fill_price,
            commission,
            timestamp: now_millis(),
        };

        let qcheck: Dec = self.orders[idx].quantity;
        let ghost prev_fills = self.orders@[idx as int].fills@;
        proof {
            use_type_invariant(qcheck);
        }
        let order_ref = &mut self.orders[idx];
        order_ref.add_fill(fill);
        proof {
            let nf = self.orders@[idx as int].fills@;
            assert(nf.drop_last() =~= prev_fills);
            assert(nf.last() == fill);
            assert(crate::order::replay_fills(prev_fills).0 == 0);
            let pa: int = match crate::order::replay_fills(prev_fills).1 {
                Some(a) => a,
                None => 0,
            };
            assert(d_mul(pa, 0) == 0);
            let fvq = d_mul(fill.price@, fill.quantity@);
            assert(d_add(d_mul(pa, 0), fvq) == fvq);
            assert(d_add(0, fill.quantity@) == fill.quantity@);
            assert(crate::order::replay_fills(nf).1 == Some(d_div(fvq, fill.quantity@)));
        }
        let updated = self.orders[idx].clone();

        // Update cash
        let fill_value = fill_price.mul(&quantity);
        match side {
            Side::Buy => {
                self.portfolio.cash = self.portfolio.cash.sub(&fill_value.add(&commission));
            },
            Side::Sell => {
                self.portfolio.cash = self.portfolio.cash.add(&fill_value.sub(&commission));
            },
        }

        // Update the position
        let symbol = updated.symbol.clone();
        let pidx: usize = match self.portfolio.find_position(symbol.as_str()) {
            Some(i) => {
                proof {
                    crate::position::lemma_position_of_found(
                        old(self).portfolio.positions@,
                        symbol@,
                        i as int,
                    );
                }
                i
            },
            None => {
                proof {
                    crate::position::lemma_position_of_missing(
                        old(self).portfolio.positions@,
                        symbol@,
                    );
                }
                let ghost n = self.portfolio.positions@.len();
                self.portfolio.positions.push(
                    Position::new(symbol.clone(), Dec::zero(), Dec::zero()),
                );
                self.portfolio.positions.len() - 1
            },
        };

        {
            let pos = &mut self.portfolio.positions[pidx];
            pos.apply_fill(side, quantity, fill_price);
        }

        if self.portfolio.positions[pidx].is_flat() {
            self.portfolio.positions.remove(pidx);
            proof {
                assert(forall|j: int|
                    0 <= j < self.portfolio.positions@.len() ==> (
                    #[trigger] self.portfolio.positions@[j]).symbol@ != symbol@);
                crate::position::lemma_position_of_missing(
                    self.portfolio.positions@,
                    symbol@,
                );
            }
        } else {
            proof {
                crate::position::lemma_position_of_found(
                    self.portfolio.positions@,
                    symbol@,
                    pidx as int,
                );
            }
        }

        self.portfolio.update_equity();
        // Simplified: no margin
        self.portfolio.buying_power = self.portfolio.cash;

        proof {
            let o = old(self).orders@[idx as int];
            let fp = spec_fill_price(o.side, market_price@, old(self).slippage_pct@);
            let commission_s = d_mul(old(self).commission_per_share@, o.quantity@);
            let fv = d_mul(fp, o.quantity@);
            assert(fill_price@ == fp);
            assert(updated.status == OrderStatus::Filled);
            assert(updated.filled_quantity@ == o.quantity@);
            assert(updated.fills@.len() == o.fills@.len() + 1);
            assert(match updated.filled_avg_price {
                Some(avg) => avg@ == d_div(d_mul(fp, o.quantity@), o.quantity@),
                None => false,
            });
            assert(self.portfolio.cash@ == if o.side == Side::Buy {
                d_sub(old(self).portfolio.cash@, d_add(fv, commission_s))
            } else {
                d_add(old(self).portfolio.cash@, d_sub(fv, commission_s))
            });
            let (oq, oa) = match spec_position_of(old(self).portfolio.positions@, o.symbol@) {
                Some(p) => (p.quantity@, p.avg_entry_price@),
                None => (0, 0),
            };
            let (nq, na, realized) = fill_outcome(oq, oa, o.side, o.quantity@, fp);
            assert(if nq == 0 {
                spec_position_of(self.portfolio.positions@, o.symbol@) is None
            } else {
                match spec_position_of(self.portfolio.positions@, o.symbol@) {
                    Some(p) => p.quantity@ == nq && p.avg_entry_price@ == na,
                    None => false,
                }
            });
        }

        Ok(updated)
    }

    /// Mark all open positions to the given per-symbol prices.
    pub fn update_prices(&mut self, prices: &Vec<(String, Dec)>)
        requires
            old(self).wf(),
        ensures
            final(self).wf(),
            final(self).orders@ == old(self).orders@,
            final(self).portfolio.cash == old(self).portfolio.cash,
            final(self).portfolio.peak_equity@ >= old(self).portfolio.peak_equity@,
    {
        self.portfolio.update_prices(prices);
    }

    /// Get a snapshot of the portfolio.
    pub fn portfolio_snapshot(&self) -> (r: Portfolio)
        requires
            self.wf(),
        ensures
            r.wf(),
            r.positions@ == self.portfolio.positions@,
            r.cash == self.portfolio.cash,
            r.equity == self.portfolio.equity,
            r.buying_power == self.portfolio.buying_power,
            r.peak_equity == self.portfolio.peak_equity,
            r.initial_capital == self.portfolio.initial_capital,
            r.total_realized_pnl == self.portfolio.total_realized_pnl,
    {
        self.portfolio.clone()
    }

    /// Get the account state (the portfolio).
    pub fn get_account(&self) -> (r: Result<Portfolio, BrokerError>)
        requires
            self.wf(),
        ensures
            match r {
                Ok(p) => p.wf() && p.positions@ == self.portfolio.positions@ && p.cash
                    == self.portfolio.cash && p.equity == self.portfolio.equity
                    && p.buying_power == self.portfolio.buying_power,
                Err(_) => false,
            },
    {
        Ok(self.portfolio.clone())
    }

    /// Cancel an order: a missing id or a terminal order is an error;
    /// otherwise the order moves to `Canceled`.
    pub fn cancel_order(&mut self, order_id: u64) -> (r: Result<(), BrokerError>)
        requires
            old(self).wf(),
        ensures
            final(self).wf(),
            final(self).portfolio == old(self).portfolio,
            final(self).orders@.len() == old(self).orders@.len(),
            match r {
                Ok(_) => exists|i: int|
                    0 <= i < old(self).orders@.len() && (#[trigger] old(self).orders@[i]).id
                        == order_id && !old(self).orders@[i].status.spec_terminal()
                        && final(self).orders@[i].status == OrderStatus::Canceled,
                Err(BrokerError::OrderNotFound(_)) => forall|i: int|
                    0 <= i < old(self).orders@.len() ==> (#[trigger] old(self).orders@[i]).id
                        != order_id,
                Err(BrokerError::OrderRejected(_)) => exists|i: int|
                    0 <= i < old(self).orders@.len() && (#[trigger] old(self).orders@[i]).id
                        == order_id && old(self).orders@[i].status.spec_terminal(),
                Err(_) => false,
            },
    {
        let idx = match self.find_order(order_id) {
            Some(i) => i,
            None => {
                return Err(
                    BrokerError::OrderNotFound(crate::fmt::u64_to_string(order_id)),
                );
            },
        };

        if self.orders[idx].status.is_terminal() {
            return Err(BrokerError::OrderRejected(order_already_terminal_text()));
        }

        let order_ref = &mut self.orders[idx];
        order_ref.status = OrderStatus::Canceled;
        order_ref.canceled_at = Some(now_millis());

        Ok(())
    }

    /// Get an order by id.
    pub fn get_order(&self, order_id: u64) -> (r: Result<Order, BrokerError>)
        ensures
            match r {
                Ok(o) => exists|i: int|
                    0 <= i < self.orders@.len() && (#[trigger] self.orders@[i]).id == order_id
                        && o.id == order_id && o.status == self.orders@[i].status,
                Err(BrokerError::OrderNotFound(_)) => forall|i: int|
                    0 <= i < self.orders@.len() ==> (#[trigger] self.orders@[i]).id != order_id,
                Err(_) => false,
            },
    {
        match self.find_order(order_id) {
            Some(i) => Ok(self.orders[i].clone()),
            None => Err(BrokerError::OrderNotFound(crate::fmt::u64_to_string(order_id))),
        }
    }

    /// Get all orders that are still active.
    pub fn get_open_orders(&self) -> (r: Result<Vec<Order>, BrokerError>)
        ensures
            match r {
                Ok(v) => forall|i: int|
                    0 <= i < v@.len() ==> !(#[trigger] v@[i]).status.spec_terminal(),
                Err(_) => false,
            },
    {
        let mut v: Vec<Order> = Vec::new();
        let mut i: usize = 0;
        while i < self.orders.len()
            invariant
                i <= self.orders@.len(),
                forall|j: int| 0 <= j < v@.len() ==> !(#[trigger] v@[j]).status.spec_terminal(),
            decreases self.orders@.len() - i,
        {
            if self.orders[i].status.is_active() {
                v.push(self.orders[i].clone());
            }
            i += 1;
        }
        Ok(v)
    }

    /// Get all open positions.
    pub fn get_positions(&self) -> (r: Result<Vec<Position>, BrokerError>)
        ensures
            match r {
                Ok(v) => v@ == self.portfolio.positions@,
                Err(_) => false,
            },
    {
        Ok(crate::position::clone_positions(&self.portfolio.positions))
    }

    /// Get the position in a symbol, if the portfolio holds one.
    pub fn get_position(&self, symbol: &str) -> (r: Result<Option<Position>, BrokerError>)
        ensures
            match r {
                Ok(Some(p)) => exists|i: int|
                    0 <= i < self.portfolio.positions@.len() && self.portfolio.positions@[i] == p
                        && p.symbol@ == symbol@,
                Ok(None) => forall|i: int|
                    0 <= i < self.portfolio.positions@.len() ==> (
                    #[trigger] self.portfolio.positions@[i]).symbol@ != symbol@,
                Err(_) => false,
            },
    {
        match self.portfolio.find_position(symbol) {
            Some(i) => Ok(Some(self.portfolio.positions[i].clone())),
            None => Ok(None),
        }
    }

    /// Close the position in a symbol by submitting a market order of the
    /// opposite side for the absolute quantity.
    pub fn close_position(&mut self, symbol: &str) -> (r: Result<Order, BrokerError>)
        requires
            old(self).wf(),
            old(self).next_id < 0xFFFF_FFFF_FFFF_FFFF,
        ensures
            final(self).wf(),
            final(self).portfolio == old(self).portfolio,
            match r {
                Ok(o) => {
                    &&& o.order_type == OrderType::Market
                    &&& o.symbol@ == symbol@
                    &&& o.status == OrderStatus::Pending
                    &&& exists|i: int|
                        0 <= i < old(self).portfolio.positions@.len() && (#[trigger] old(
                            self,
                        ).portfolio.positions@[i]).symbol@ == symbol@ && o.quantity@
                            == crate::fixed::abs_i(old(self).portfolio.positions@[i].quantity@)
                            && o.side == (if old(self).portfolio.positions@[i].quantity@ > 0 {
                            Side::Sell
                        } else {
                            Side::Buy
                        })
                },
                Err(BrokerError::PositionNotFound(_)) => forall|i: int|
                    0 <= i < old(self).portfolio.positions@.len() ==> (#[trigger] old(
                        self,
                    ).portfolio.positions@[i]).symbol@ != symbol@,
                Err(_) => false,
            },
    {
        let idx = match self.portfolio.find_position(symbol) {
            Some(i) => i,
            None => {
                return Err(BrokerError::PositionNotFound(symbol.to_owned()));
            },
        };

        let side = if self.portfolio.positions[idx].is_long() {
            Side::Sell
        } else {
            Side::Buy
        };
        let quantity = self.portfolio.positions[idx].quantity.abs();

        let request = OrderRequest::market(symbol.to_owned(), side, quantity);
        self.submit_order(&request)
    }

    /// The market is always open for paper trading.
    pub fn is_market_open(&self) -> (r: Result<bool, BrokerError>)
        ensures
            r == Ok::<bool, BrokerError>(true),
    {
        Ok(true)
    }

    /// The broker's display name.
    pub fn name(&self) -> (r: &'static str)
        ensures
            r@ == "Paper Broker"@,
    {
        "Paper Broker"
    }
}

/// The rejection message for canceling a terminal order.
fn order_already_terminal_text() -> (r: String)
    ensures
        r@.len() > 0,
{
    proof {
        reveal_strlit("order already terminal");
    }
    "order already terminal".to_owned()
}

} // verus!
