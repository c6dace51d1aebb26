//! Order types: sides, order kinds, time in force, status, requests,
//! fills and the full order record.

use vstd::prelude::*;

use crate::fixed::{d_add, d_div, d_mul, Dec, DEC_SCALE};
use crate::sys::{fresh_uuid_string, now_millis};

verus! {

/// Order side (buy or sell).
#[derive(Debug, Clone, Copy, PartialEq, Eq, Structural, Hash)]
pub enum Side {
    Buy,
    Sell,
}

impl Side {
    /// Get the opposite side.
    pub fn opposite(&self) -> (r: Self)
        ensures
            self == Side::Buy ==> r == Side::Sell,
            self == Side::Sell ==> r == Side::Buy,
    {
        match self {
            Side::Buy => Side::Sell,
            Side::Sell => Side::Buy,
        }
    }

    /// Get the sign for position calculations (+1 for buy, -1 for sell).
    pub fn sign(&self) -> (r: Dec)
        ensures
            self == Side::Buy ==> r@ == DEC_SCALE as int,
            self == Side::Sell ==> r@ == -(DEC_SCALE as int),
    {
        match self {
            Side::Buy => Dec::one(),
            Side::Sell => Dec::one().neg(),
        }
    }

    /// Upper-case label for display.
    pub fn label(&self) -> (r: &'static str)
        ensures
            self == Side::Buy ==> r@ == "BUY"@,
            self == Side::Sell ==> r@ == "SELL"@,
    {
        match self {
            Side::Buy => "BUY",
            Side::Sell => "SELL",
        }
    }
}

/// Order type.
#[derive(Debug, Clone, Copy, PartialEq, Eq, Structural, Hash)]
pub enum OrderType {
    /// Market order - execute immediately at best available price
    Market,
    /// Limit order - execute at specified price or better
    Limit,
    /// Stop order - becomes market order when stop price is reached
    Stop,
    /// Stop-limit order - becomes limit order when stop price is reached
    StopLimit,
    /// Trailing stop order - stop price trails the market
    TrailingStop,
}

/// Time in force for orders.
#[derive(Debug, Clone, Copy, PartialEq, Eq, Structural, Hash)]
pub enum TimeInForce {
    /// Valid for the trading day only
    Day,
    /// Good til canceled
    GTC,
    /// Immediate or cancel
    IOC,
    /// Fill or kill
    FOK,
    /// At market open
    OPG,
    /// At market close
    CLS,
}

impl Default for TimeInForce {
    fn default() -> (r: Self)
        ensures
            r == TimeInForce::Day,
    {
        TimeInForce::Day
    }
}

/// Order status.
#[derive(Debug, Clone, Copy, PartialEq, Eq, Structural, Hash)]
pub enum OrderStatus {
    /// Order created but not yet submitted
    Pending,
    /// Order submitted to broker
    Submitted,
    /// Order accepted by broker/exchange
    Accepted,
    /// Order partially filled
    PartiallyFilled,
    /// Order completely filled
    Filled,
    /// Order canceled
    Canceled,
    /// Order rejected
    Rejected,
    /// Order expired
    Expired,
}

impl OrderStatus {
    /// The terminal set: once here, an order is immutable.
    pub open spec fn spec_terminal(self) -> bool {
        self == OrderStatus::Filled || self == OrderStatus::Canceled
            || self == OrderStatus::Rejected || self == OrderStatus::Expired
    }

    /// Check if the order is in a terminal state.
    pub fn is_terminal(&self) -> (r: bool)
        ensures
            r == self.spec_terminal(),
    {
        match self {
            OrderStatus::Filled | OrderStatus::Canceled | OrderStatus::Rejected
            | OrderStatus::Expired => true,
            _ => false,
        }
    }

    /// Check if the order is active (can still be filled).
    pub fn is_active(&self) -> (r: bool)
        ensures
            r == !self.spec_terminal(),
    {
        match self {
            OrderStatus::Pending | OrderStatus::Submitted | OrderStatus::Accepted
            | OrderStatus::PartiallyFilled => true,
            _ => false,
        }
    }

    /// Every status is terminal or active, never both.
    pub proof fn lemma_terminal_active_partition(s: OrderStatus)
        ensures
            s.spec_terminal() <==> !(s == OrderStatus::Pending || s == OrderStatus::Submitted
                || s == OrderStatus::Accepted || s == OrderStatus::PartiallyFilled),
    {
    }
}

/// Order request for submitting new orders.
#[derive(Debug, Clone, PartialEq)]
pub struct OrderRequest {
    /// Symbol to trade
    pub symbol: String,
    /// Buy or sell
    pub side: Side,
    /// Type of order
    pub order_type: OrderType,
    /// Quantity to trade
    pub quantity: Dec,
    /// Limit price (for limit and stop-limit orders)
    pub limit_price: Option<Dec>,
    /// Stop price (for stop and stop-limit orders)
    pub stop_price: Option<Dec>,
    /// Trailing amount (for trailing stop orders)
    pub trail_amount: Option<Dec>,
    /// Time in force
    pub time_in_force: TimeInForce,
    /// Client-provided order ID
    pub client_order_id: Option<String>,
    /// Extended hours trading
    pub extended_hours: bool,
}

impl OrderRequest {
    /// Create a market order request.
    pub fn market(symbol: String, side: Side, quantity: Dec) -> (r: Self)
        ensures
            r.symbol == symbol,
            r.side == side,
            r.order_type == OrderType::Market,
            r.quantity == quantity,
            r.limit_price is None,
            r.stop_price is None,
            r.trail_amount is None,
            r.time_in_force == TimeInForce::Day,
            r.client_order_id is None,
            !r.extended_hours,
    {
        OrderRequest {
            symbol,
            side,
            order_type: OrderType::Market,
            quantity,
            limit_price: None,
            stop_price: None,
            trail_amount: None,
            time_in_force: TimeInForce::Day,
            client_order_id: None,
            extended_hours: false,
        }
    }

    /// Create a limit order request.
    pub fn limit(symbol: String, side: Side, quantity: Dec, limit_price: Dec) -> (r: Self)
        ensures
            r.symbol == symbol,
            r.side == side,
            r.order_type == OrderType::Limit,
            r.quantity == quantity,
            r.limit_price == Some(limit_price),
            r.stop_price is None,
            r.time_in_force == TimeInForce::Day,
    {
        OrderRequest {
            symbol,
            side,
            order_type: OrderType::Limit,
            quantity,
            limit_price: Some(limit_price),
            stop_price: None,
            trail_amount: None,
            time_in_force: TimeInForce::Day,
            client_order_id: None,
            extended_hours: false,
        }
    }

    /// Create a stop order request.
    pub fn stop(symbol: String, side: Side, quantity: Dec, stop_price: Dec) -> (r: Self)
        ensures
            r.symbol == symbol,
            r.side == side,
            r.order_type == OrderType::Stop,
            r.quantity == quantity,
            r.limit_price is None,
            r.stop_price == Some(stop_price),
            r.time_in_force == TimeInForce::GTC,
    {
        OrderRequest {
            symbol,
            side,
            order_type: OrderType::Stop,
            quantity,
            limit_price: None,
            stop_price: Some(stop_price),
            trail_amount: None,
            time_in_force: TimeInForce::GTC,
            client_order_id: None,
            extended_hours: false,
        }
    }

    /// Create a stop-limit order request.
    pub fn stop_limit(
        symbol: String,
        side: Side,
        quantity: Dec,
        stop_price: Dec,
        limit_price: Dec,
    ) -> (r: Self)
        ensures
            r.symbol == symbol,
            r.side == side,
            r.order_type == OrderType::StopLimit,
            r.quantity == quantity,
            r.limit_price == Some(limit_price),
            r.stop_price == Some(stop_price),
            r.time_in_force == TimeInForce::GTC,
    {
        OrderRequest {
            symbol,
            side,
            order_type: OrderType::StopLimit,
            quantity,
            limit_price: Some(limit_price),
            stop_price: Some(stop_price),
            trail_amount: None,
            time_in_force: TimeInForce::GTC,
            client_order_id: None,
            extended_hours: false,
        }
    }

    /// Set the time in force.
    pub fn with_time_in_force(self, tif: TimeInForce) -> (r: Self)
        ensures
            r == (OrderRequest { time_in_force: tif, ..self }),
    {
        OrderRequest { time_in_force: tif, ..self }
    }

    /// Set a client order ID.
    pub fn with_client_order_id(self, id: String) -> (r: Self)
        ensures
            r == (OrderRequest { client_order_id: Some(id), ..self }),
    {
        OrderRequest { client_order_id: Some(id), ..self }
    }

    /// Enable extended hours trading.
    pub fn with_extended_hours(self) -> (r: Self)
        ensures
            r == (OrderRequest { extended_hours: true, ..self }),
    {
        OrderRequest { extended_hours: true, ..self }
    }
}

/// A fill represents a partial or complete execution of an order.
#[derive(Debug, PartialEq)]
pub struct Fill {
    /// Fill ID
    pub id: String,
    /// Order ID this fill belongs to
    pub order_id: u64,
    /// Quantity filled
    pub quantity: Dec,
    /// Price at which the fill occurred
    pub price: Dec,
    /// Commission charged
    pub commission: Dec,
    /// Timestamp of the fill, milliseconds since the epoch
    pub timestamp: i64,
}

/// Replay the fill-averaging recurrence over a list of fills: the result is
/// the total filled quantity (in micro-units) and the running
/// quantity-weighted average price, both computed in saturating fixed-point
/// exactly as `Order::add_fill` computes them.
pub open spec fn replay_fills(fills: Seq<Fill>) -> (int, Option<int>)
    decreases fills.len(),
{
    if fills.len() == 0 {
        (0, None)
    } else {
        let (q0, a0) = replay_fills(fills.drop_last());
        let f = fills.last();
        let prev_avg: int = match a0 {
            Some(a) => a,
            None => 0,
        };
        let total_value = d_add(d_mul(prev_avg, q0), d_mul(f.price@, f.quantity@));
        let total_qty = d_add(q0, f.quantity@);
        (total_qty, Some(d_div(total_value, total_qty)))
    }
}

/// Complete order with status and fill information.
#[derive(Debug, PartialEq)]
pub struct Order {
    /// Unique order ID, assigned by the owning broker
    pub id: u64,
    /// Client-provided order ID
    pub client_order_id: String,
    /// Symbol traded
    pub symbol: String,
    /// Buy or sell
    pub side: Side,
    /// Type of order
    pub order_type: OrderType,
    /// Original quantity
    pub quantity: Dec,
    /// Limit price
    pub limit_price: Option<Dec>,
    /// Stop price
    pub stop_price: Option<Dec>,
    /// Trail amount
    pub trail_amount: Option<Dec>,
    /// Time in force
    pub time_in_force: TimeInForce,
    /// Current status
    pub status: OrderStatus,
    /// Quantity filled so far
    pub filled_quantity: Dec,
    /// Average fill price
    pub filled_avg_price: Option<Dec>,
    /// List of fills
    pub fills: Vec<Fill>,
    /// When the order was created (epoch milliseconds)
    pub created_at: i64,
    /// When the order was last updated
    pub updated_at: i64,
    /// When the order was submitted
    pub submitted_at: Option<i64>,
    /// When the order was filled
    pub filled_at: Option<i64>,
    /// When the order expired
    pub expired_at: Option<i64>,
    /// When the order was canceled
    pub canceled_at: Option<i64>,
    /// Extended hours flag
    pub extended_hours: bool,
}

impl Order {
    /// The order's accounting invariant: the filled quantity never exceeds
    /// the ordered quantity, a `Filled` order is filled in full, and the
    /// filled quantity and average price are exactly the replay of its
    /// fill list.
    pub open spec fn wf(self) -> bool {
        &&& 0 <= self.filled_quantity@ <= self.quantity@
        &&& self.status == OrderStatus::Filled ==> self.filled_quantity@ == self.quantity@
        &&& replay_fills(self.fills@).0 == self.filled_quantity@
        &&& match self.filled_avg_price {
            Some(avg) => replay_fills(self.fills@).1 == Some(avg@),
            None => replay_fills(self.fills@).1 is None,
        }
    }

    /// Create a new order from a request, under a broker-assigned id.
    /// A missing client order id is replaced by a fresh UUID.
    pub fn from_request(request: &OrderRequest, id: u64) -> (r: Order)
        requires
            request.quantity@ >= 0,
        ensures
            r.wf(),
            r.id == id,
            r.symbol == request.symbol,
            r.side == request.side,
            r.order_type == request.order_type,
            r.quantity == request.quantity,
            r.limit_price == request.limit_price,
            r.stop_price == request.stop_price,
            r.trail_amount == request.trail_amount,
            r.time_in_force == request.time_in_force,
            r.status == OrderStatus::Pending,
            r.filled_quantity@ == 0,
            r.filled_avg_price is None,
            r.fills@.len() == 0,
            r.extended_hours == request.extended_hours,
            match request.client_order_id {
                Some(cid) => r.client_order_id == cid,
                None => true,
            },
    {
        let now = now_millis();
        let client_order_id = match &request.client_order_id {
            Some(cid) => cid.clone(),
            None => fresh_uuid_string(),
        };
        Order {
            id,
            client_order_id,
            symbol: request.symbol.clone(),
            side: request.side,
            order_type: request.order_type,
            quantity: request.quantity,
            limit_price: request.limit_price,
            stop_price: request.stop_price,
            trail_amount: request.trail_amount,
            time_in_force: request.time_in_force,
            status: OrderStatus::Pending,
            filled_quantity: Dec::zero(),
            filled_avg_price: None,
            fills: Vec::new(),
            created_at: now,
            updated_at: now,
            submitted_at: None,
            filled_at: None,
            expired_at: None,
            canceled_at: None,
            extended_hours: request.extended_hours,
        }
    }

    /// Get the remaining quantity to be filled.
    pub fn remaining_quantity(&self) -> (r: Dec)
        ensures
            r@ == crate::fixed::d_sub(self.quantity@, self.filled_quantity@),
    {
        self.quantity.sub(&self.filled_quantity)
    }

    /// Check if the order is completely filled.
    pub fn is_filled(&self) -> (r: bool)
        ensures
            r == (self.status == OrderStatus::Filled),
    {
        self.status == OrderStatus::Filled
    }

    /// Check if the order can be canceled.
    pub fn is_cancelable(&self) -> (r: bool)
        ensures
            r == !self.status.spec_terminal(),
    {
        self.status.is_active()
    }

    /// Calculate the total value of the order: average fill price times
    /// filled quantity, if any fill has happened.
    pub fn value(&self) -> (r: Option<Dec>)
        ensures
            match self.filled_avg_price {
                Some(avg) => r matches Some(v) && v@ == d_mul(avg@, self.filled_quantity@),
                None => r is None,
            },
    {
        match &self.filled_avg_price {
            Some(price) => Some(price.mul(&self.filled_quantity)),
            None => None,
        }
    }

    /// Add a fill to the order, updating the weighted average price, the
    /// filled quantity and the status. A fill never exceeds the remaining
    /// quantity, so `Filled` is reached exactly when the order is filled
    /// in full.
    pub fn add_fill(&mut self, fill: Fill)
        requires
            old(self).wf(),
            !old(self).status.spec_terminal(),
            fill.quantity@ > 0,
            d_add(old(self).filled_quantity@, fill.quantity@) <= old(self).quantity@,
        ensures
            final(self).wf(),
            final(self).fills@ == old(self).fills@.push(fill),
            final(self).filled_quantity@ == d_add(old(self).filled_quantity@, fill.quantity@),
            final(self).status == if final(self).filled_quantity@ == final(self).quantity@ {
                OrderStatus::Filled
            } else {
                OrderStatus::PartiallyFilled
            },
            final(self).status == OrderStatus::Filled ==> final(self).filled_at is Some,
            final(self).status != OrderStatus::Filled ==> final(self).filled_at == old(
                self,
            ).filled_at,
            final(self).quantity == old(self).quantity,
            final(self).side == old(self).side,
            final(self).symbol == old(self).symbol,
            final(self).id == old(self).id,
            final(self).order_type == old(self).order_type,
            final(self).limit_price == old(self).limit_price,
    {
        let prev_avg = match &self.filled_avg_price {
            Some(avg) => *avg,
            None => Dec::zero(),
        };
        let total_qty = self.filled_quantity.add(&fill.quantity);
        let total_value = prev_avg.mul(&self.filled_quantity).add(&fill.price.mul(&fill.quantity));

        assert(total_qty@ > 0);
        self.filled_avg_price = Some(total_value.div(&total_qty));
        self.filled_quantity = total_qty;
        self.fills.push(fill);
        self.updated_at = now_millis();

        if self.filled_quantity.ge(&self.quantity) {
            self.status = OrderStatus::Filled;
            self.filled_at = Some(now_millis());
        } else {
            self.status = OrderStatus::PartiallyFilled;
        }
        proof {
            assert(self.fills@ =~= old(self).fills@.push(fill));
            assert(self.fills@.drop_last() =~= old(self).fills@);
            assert(self.fills@.last() == fill);
        }
    }

    /// The order invariant spells out the universal order facts: the filled
    /// quantity is bounded by the ordered quantity, a `Filled` order is
    /// filled exactly, and the average price is the quantity-weighted mean
    /// of the fills as fixed-point arithmetic computes it.
    pub proof fn lemma_order_invariant(o: Order)
        requires
            o.wf(),
        ensures
            o.filled_quantity@ <= o.quantity@,
            o.status == OrderStatus::Filled ==> o.filled_quantity@ == o.quantity@,
            o.filled_avg_price matches Some(avg) ==> replay_fills(o.fills@) == (
                o.filled_quantity@,
                Some(avg@),
            ),
    {
    }
}


impl Clone for Fill {
    /// An exact copy.
    fn clone(&self) -> (r: Self)
        ensures
            r == *self,
    {
        Fill {
            id: self.id.clone(),
            order_id: self.order_id,
            quantity: self.quantity,
            price: self.price,
            commission: self.commission,
            timestamp: self.timestamp,
        }
    }
}

/// Copy a fill list element by element.
fn clone_fills(v: &Vec<Fill>) -> (r: Vec<Fill>)
    ensures
        r@ == v@,
{
    let mut r: Vec<Fill> = Vec::new();
    let mut i: usize = 0;
    while i < v.len()
        invariant
            i <= v@.len(),
            r@ == v@.take(i as int),
        decreases v@.len() - i,
    {
        proof {
            assert(v@.take(i + 1 as int) =~= v@.take(i as int).push(v@[i as int]));
        }
        r.push(v[i].clone());
        i += 1;
    }
    proof {
        assert(v@.take(v@.len() as int) =~= v@);
    }
    r
}

impl Clone for Order {
    /// An exact copy (the fill list is copied element by element).
    fn clone(&self) -> (r: Self)
        ensures
            r.fills@ == self.fills@,
            r == (Order { fills: r.fills, ..*self }),
    {
        Order {
            id: self.id,
            client_order_id: self.client_order_id.clone(),
            symbol: self.symbol.clone(),
            side: self.side,
            order_type: self.order_type,
            quantity: self.quantity,
            limit_price: self.limit_price,
            stop_price: self.stop_price,
            trail_amount: self.trail_amount,
            time_in_force: self.time_in_force,
            status: self.status,
            filled_quantity: self.filled_quantity,
            filled_avg_price: self.filled_avg_price,
            fills: clone_fills(&self.fills),
            created_at: self.created_at,
            updated_at: self.updated_at,
            submitted_at: self.submitted_at,
            filled_at: self.filled_at,
            expired_at: self.expired_at,
            canceled_at: self.canceled_at,
            extended_hours: self.extended_hours,
        }
    }
}

} // verus!
