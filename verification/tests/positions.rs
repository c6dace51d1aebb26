use trading_system::fixed::Dec;
use trading_system::order::Side;
use trading_system::position::{Portfolio, Position};
use trading_system::order::{Order, OrderRequest};

#[test]
fn test_position_long() {
    let mut position = Position::new("AAPL".to_string(), Dec::from_int(100), Dec::from_int(150));
    assert!(position.is_long());
    assert_eq!(position.cost_basis, Dec::from_int(15000));

    position.update_price(Dec::from_int(160));
    assert_eq!(position.market_value, Dec::from_int(16000));
    assert_eq!(position.unrealized_pnl, Dec::from_int(1000));
}

#[test]
fn test_position_apply_fill_increase() {
    let mut position = Position::new("AAPL".to_string(), Dec::from_int(100), Dec::from_int(150));

    // Add more shares at a different price
    let realized = position.apply_fill(Side::Buy, Dec::from_int(100), Dec::from_int(160));
    assert_eq!(realized, Dec::zero());
    assert_eq!(position.quantity, Dec::from_int(200));
    // Average of 150 and 160
    assert_eq!(position.avg_entry_price, Dec::from_int(155));
}

#[test]
fn test_position_apply_fill_close() {
    let mut position = Position::new("AAPL".to_string(), Dec::from_int(100), Dec::from_int(150));
    position.update_price(Dec::from_int(160));

    // Sell all shares at 160
    let realized = position.apply_fill(Side::Sell, Dec::from_int(100), Dec::from_int(160));
    // 100 shares of ten profit each
    assert_eq!(realized, Dec::from_int(1000));
    assert!(position.is_flat());
}

#[test]
fn test_position_direction_partition() {
    // A position is long, short, or flat, and exactly one of the three.
    let long = Position::new("A".to_string(), Dec::from_int(5), Dec::from_int(10));
    let short = Position::new("B".to_string(), Dec::from_int(-5), Dec::from_int(10));
    let flat = Position::new("C".to_string(), Dec::zero(), Dec::from_int(10));
    assert!(long.is_long() && !long.is_short() && !long.is_flat());
    assert!(!short.is_long() && short.is_short() && !short.is_flat());
    assert!(!flat.is_long() && !flat.is_short() && flat.is_flat());
}

#[test]
fn test_position_reversal() {
    // Selling more than held reverses the position at the fill price.
    let mut position = Position::new("AAPL".to_string(), Dec::from_int(100), Dec::from_int(150));
    let realized = position.apply_fill(Side::Sell, Dec::from_int(150), Dec::from_int(160));
    assert_eq!(realized, Dec::from_int(1000));
    assert_eq!(position.quantity, Dec::from_int(-50));
    assert_eq!(position.avg_entry_price, Dec::from_int(160));
}

#[test]
fn test_portfolio_creation() {
    let portfolio = Portfolio::new(Dec::from_int(100000));
    assert_eq!(portfolio.cash, Dec::from_int(100000));
    assert_eq!(portfolio.equity, Dec::from_int(100000));
    assert_eq!(portfolio.position_count(), 0);
}

#[test]
fn test_portfolio_drawdown() {
    let mut portfolio = Portfolio::new(Dec::from_int(100000));
    portfolio.peak_equity = Dec::from_int(110000);
    portfolio.equity = Dec::from_int(99000);

    let dd = portfolio.drawdown();
    assert!(dd.sub(&Dec::from_int(10)).abs().lt(&Dec::from_micro(10_000)));
}

#[test]
fn test_portfolio_total_return() {
    let mut portfolio = Portfolio::new(Dec::from_int(100000));
    portfolio.equity = Dec::from_int(120000);

    let ret = portfolio.total_return();
    // 20% return
    assert_eq!(ret, Dec::from_int(20));
}

#[test]
fn test_portfolio_apply_order_equity() {
    // After a filled order the equity equals cash plus summed market value.
    let mut portfolio = Portfolio::new(Dec::from_int(100000));
    let request = OrderRequest::market("AAPL".to_string(), Side::Buy, Dec::from_int(10));
    let mut order = Order::from_request(&request, 0);
    let fill = trading_system::order::Fill {
        id: "f".to_string(),
        order_id: 0,
        quantity: Dec::from_int(10),
        price: Dec::from_int(100),
        commission: Dec::zero(),
        timestamp: 0,
    };
    order.add_fill(fill);
    portfolio.apply_order(&order);

    assert_eq!(portfolio.cash, Dec::from_int(99000));
    let pos = portfolio.get_position("AAPL").unwrap();
    assert_eq!(pos.quantity, Dec::from_int(10));
    // current price starts at zero until a quote arrives, so equity is cash
    let mv = portfolio.total_market_value();
    assert_eq!(portfolio.equity, portfolio.cash.add(&mv));
    assert!(portfolio.peak_equity.ge(&portfolio.equity));

    portfolio.update_prices(&vec![("AAPL".to_string(), Dec::from_int(110))]);
    let mv2 = portfolio.total_market_value();
    assert_eq!(mv2, Dec::from_int(1100));
    assert_eq!(portfolio.equity, portfolio.cash.add(&mv2));
    assert!(portfolio.peak_equity.ge(&portfolio.equity));
}

#[test]
fn test_portfolio_flat_positions_removed() {
    let mut portfolio = Portfolio::new(Dec::from_int(100000));
    let buy = OrderRequest::market("AAPL".to_string(), Side::Buy, Dec::from_int(10));
    let mut order = Order::from_request(&buy, 0);
    order.add_fill(trading_system::order::Fill {
        id: "f1".to_string(),
        order_id: 0,
        quantity: Dec::from_int(10),
        price: Dec::from_int(100),
        commission: Dec::zero(),
        timestamp: 0,
    });
    portfolio.apply_order(&order);
    assert!(portfolio.has_position("AAPL"));

    let sell = OrderRequest::market("AAPL".to_string(), Side::Sell, Dec::from_int(10));
    let mut order2 = Order::from_request(&sell, 1);
    order2.add_fill(trading_system::order::Fill {
        id: "f2".to_string(),
        order_id: 1,
        quantity: Dec::from_int(10),
        price: Dec::from_int(105),
        commission: Dec::zero(),
        timestamp: 0,
    });
    portfolio.apply_order(&order2);
    assert!(!portfolio.has_position("AAPL"));
    assert_eq!(portfolio.total_realized_pnl, Dec::from_int(50));
}
