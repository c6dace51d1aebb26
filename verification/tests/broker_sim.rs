use trading_system::broker::PaperBroker;
use trading_system::errors::BrokerError;
use trading_system::fixed::Dec;
use trading_system::order::{OrderRequest, OrderStatus, Side};

#[test]
fn test_paper_broker_buy() {
    let mut broker = PaperBroker::new(Dec::from_int(100000));

    let request = OrderRequest::market("AAPL".to_string(), Side::Buy, Dec::from_int(100));
    let order = broker.submit_order(&request).unwrap();

    assert_eq!(order.status, OrderStatus::Pending);
    assert_eq!(order.symbol, "AAPL");

    // Execute at price
    let filled = broker.execute_at_price(order.id, Dec::from_int(150)).unwrap();
    assert_eq!(filled.status, OrderStatus::Filled);

    // Check portfolio
    let portfolio = broker.get_account().unwrap();
    assert!(portfolio.has_position("AAPL"));
}

#[test]
fn test_paper_broker_close_position() {
    let mut broker = PaperBroker::new(Dec::from_int(100000));

    // Buy
    let buy = OrderRequest::market("AAPL".to_string(), Side::Buy, Dec::from_int(100));
    let order = broker.submit_order(&buy).unwrap();
    broker.execute_at_price(order.id, Dec::from_int(150)).unwrap();

    // Close
    let close_order = broker.close_position("AAPL").unwrap();
    broker
        .execute_at_price(close_order.id, Dec::from_int(155))
        .unwrap();

    // Check position closed
    let pos = broker.get_position("AAPL").unwrap();
    assert!(pos.is_none());
}

#[test]
fn test_limit_infeasibility() {
    // A buy limit at 100 with 0.05% slippage cannot fill at market 101
    // (slipped to 101.0505): the order stays pending, the cash untouched.
    let mut broker = PaperBroker::new(Dec::from_int(100000));
    let request = OrderRequest::limit(
        "AAPL".to_string(),
        Side::Buy,
        Dec::from_int(10),
        Dec::from_int(100),
    );
    let order = broker.submit_order(&request).unwrap();

    let after = broker.execute_at_price(order.id, Dec::from_int(101)).unwrap();
    assert_eq!(after.status, OrderStatus::Pending);
    assert_eq!(after.filled_quantity, Dec::zero());

    let portfolio = broker.get_account().unwrap();
    assert_eq!(portfolio.cash, Dec::from_int(100000));
    assert_eq!(portfolio.position_count(), 0);
}

#[test]
fn test_slippage_applied_to_fill() {
    // A buy market order at 101 with the default 0.05% slippage fills at
    // exactly 101.0505.
    let mut broker = PaperBroker::new(Dec::from_int(100000));
    let request = OrderRequest::market("AAPL".to_string(), Side::Buy, Dec::from_int(1));
    let order = broker.submit_order(&request).unwrap();
    let filled = broker.execute_at_price(order.id, Dec::from_int(101)).unwrap();
    assert_eq!(filled.filled_avg_price, Some(Dec::from_micro(101_050_500)));
}

#[test]
fn test_execute_terminal_order_unchanged() {
    // Executing a terminal order returns it unchanged and moves nothing.
    let mut broker = PaperBroker::new(Dec::from_int(100000));
    let request = OrderRequest::market("AAPL".to_string(), Side::Buy, Dec::from_int(10));
    let order = broker.submit_order(&request).unwrap();
    let first = broker.execute_at_price(order.id, Dec::from_int(100)).unwrap();
    assert_eq!(first.status, OrderStatus::Filled);
    let cash_after = broker.get_account().unwrap().cash;

    let second = broker.execute_at_price(order.id, Dec::from_int(250)).unwrap();
    assert_eq!(second.status, first.status);
    assert_eq!(second.filled_quantity, first.filled_quantity);
    assert_eq!(second.filled_avg_price, first.filled_avg_price);
    assert_eq!(broker.get_account().unwrap().cash, cash_after);
}

#[test]
fn test_insufficient_funds() {
    let mut broker = PaperBroker::new(Dec::from_int(100));
    let request = OrderRequest::market("AAPL".to_string(), Side::Buy, Dec::from_int(100));
    let order = broker.submit_order(&request).unwrap();
    match broker.execute_at_price(order.id, Dec::from_int(50)) {
        Err(BrokerError::InsufficientFunds {
            required,
            available,
        }) => {
            assert!(required.gt(&available));
            assert_eq!(available, Dec::from_int(100));
        }
        other => panic!("expected insufficient funds, got {:?}", other),
    }
}

#[test]
fn test_order_not_found() {
    let mut broker = PaperBroker::new(Dec::from_int(1000));
    match broker.execute_at_price(42, Dec::from_int(50)) {
        Err(BrokerError::OrderNotFound(text)) => assert_eq!(text, "42"),
        other => panic!("expected order-not-found, got {:?}", other),
    }
}

#[test]
fn test_cancel_rules() {
    let mut broker = PaperBroker::new(Dec::from_int(100000));
    let request = OrderRequest::market("AAPL".to_string(), Side::Buy, Dec::from_int(1));
    let order = broker.submit_order(&request).unwrap();

    // An active order cancels; a terminal one is rejected.
    broker.cancel_order(order.id).unwrap();
    match broker.cancel_order(order.id) {
        Err(BrokerError::OrderRejected(_)) => {}
        other => panic!("expected rejection, got {:?}", other),
    }

    // A missing id is not found.
    match broker.cancel_order(999) {
        Err(BrokerError::OrderNotFound(_)) => {}
        other => panic!("expected order-not-found, got {:?}", other),
    }
}

#[test]
fn test_position_not_found() {
    let mut broker = PaperBroker::new(Dec::from_int(1000));
    match broker.close_position("NONE") {
        Err(BrokerError::PositionNotFound(sym)) => assert_eq!(sym, "NONE"),
        other => panic!("expected position-not-found, got {:?}", other),
    }
}

#[test]
fn test_commission_charged() {
    let mut broker = PaperBroker::new(Dec::from_int(100000))
        .with_slippage(Dec::zero())
        .with_commission(Dec::from_micro(10_000));
    let request = OrderRequest::market("AAPL".to_string(), Side::Buy, Dec::from_int(100));
    let order = broker.submit_order(&request).unwrap();
    broker.execute_at_price(order.id, Dec::from_int(100)).unwrap();
    // 100 shares at 100 plus a cent per share of commission
    let portfolio = broker.get_account().unwrap();
    assert_eq!(portfolio.cash, Dec::from_int(100000 - 10000 - 1));
    assert_eq!(portfolio.buying_power, portfolio.cash);
}

#[test]
fn test_market_always_open() {
    let broker = PaperBroker::new(Dec::from_int(1000));
    assert_eq!(broker.is_market_open().unwrap(), true);
    assert_eq!(broker.name(), "Paper Broker");
}
