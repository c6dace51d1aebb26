use trading_system::bar::{Bar, BarSeries};
use trading_system::fixed::Dec;
use trading_system::order::{Fill, Order, OrderRequest, OrderStatus, OrderType, Side, TimeInForce};
use trading_system::timeframe::Timeframe;
use trading_system::bar::PreciseBar;
use trading_system::fcmp::{eq_bits, le_bits, lt_bits};

#[test]
fn test_timeframe_duration() {
    assert_eq!(Timeframe::Minute1.as_secs(), 60);
    assert_eq!(Timeframe::Hour1.as_secs(), 3600);
    assert_eq!(Timeframe::Daily.as_secs(), 86400);
}

#[test]
fn test_timeframe_parse() {
    assert_eq!(Timeframe::parse_str("1m").unwrap(), Timeframe::Minute1);
    assert_eq!(Timeframe::parse_str("1d").unwrap(), Timeframe::Daily);
    assert_eq!(Timeframe::parse_str("daily").unwrap(), Timeframe::Daily);
}

#[test]
fn test_timeframe_display() {
    assert_eq!(Timeframe::Minute1.canonical_str(), "1m");
    assert_eq!(Timeframe::Daily.canonical_str(), "1d");
}

#[test]
fn test_is_intraday() {
    assert!(Timeframe::Minute1.is_intraday());
    assert!(Timeframe::Hour4.is_intraday());
    assert!(!Timeframe::Daily.is_intraday());
    assert!(!Timeframe::Weekly.is_intraday());
}

#[test]
fn test_timeframe_round_trip_all() {
    // The parse/display round trip is the identity on every canonical form.
    for tf in Timeframe::all() {
        assert_eq!(Timeframe::parse_str(tf.canonical_str()).unwrap(), tf);
    }
    assert_eq!(Timeframe::parse_str("1M").unwrap(), Timeframe::Monthly);
    assert!(Timeframe::parse_str("1x").is_err());
}

#[test]
fn test_side_opposite() {
    assert_eq!(Side::Buy.opposite(), Side::Sell);
    assert_eq!(Side::Sell.opposite(), Side::Buy);
}

#[test]
fn test_order_request_market() {
    let request = OrderRequest::market("AAPL".to_string(), Side::Buy, Dec::from_int(100));
    assert_eq!(request.symbol, "AAPL");
    assert_eq!(request.side, Side::Buy);
    assert_eq!(request.order_type, OrderType::Market);
    assert_eq!(request.quantity, Dec::from_int(100));
}

#[test]
fn test_order_request_limit() {
    let request = OrderRequest::limit(
        "AAPL".to_string(),
        Side::Sell,
        Dec::from_int(50),
        Dec::from_int(150),
    );
    assert_eq!(request.order_type, OrderType::Limit);
    assert_eq!(request.limit_price, Some(Dec::from_int(150)));
    assert_eq!(request.time_in_force, TimeInForce::Day);
}

#[test]
fn test_order_from_request() {
    let request = OrderRequest::market("AAPL".to_string(), Side::Buy, Dec::from_int(100));
    let order = Order::from_request(&request, 0);

    assert_eq!(order.symbol, "AAPL");
    assert_eq!(order.status, OrderStatus::Pending);
    assert_eq!(order.filled_quantity, Dec::zero());
    // The generated client order id is a 36-character UUID rendering.
    assert_eq!(order.client_order_id.chars().count(), 36);
}

#[test]
fn test_order_add_fill() {
    let request = OrderRequest::market("AAPL".to_string(), Side::Buy, Dec::from_int(100));
    let mut order = Order::from_request(&request, 1);

    let fill = Fill {
        id: "fill1".to_string(),
        order_id: order.id,
        quantity: Dec::from_int(50),
        price: Dec::from_int(150),
        commission: Dec::zero(),
        timestamp: 0,
    };

    order.add_fill(fill);
    assert_eq!(order.filled_quantity, Dec::from_int(50));
    assert_eq!(order.filled_avg_price, Some(Dec::from_int(150)));
    assert_eq!(order.status, OrderStatus::PartiallyFilled);

    let fill2 = Fill {
        id: "fill2".to_string(),
        order_id: order.id,
        quantity: Dec::from_int(50),
        price: Dec::from_int(151),
        commission: Dec::zero(),
        timestamp: 0,
    };

    order.add_fill(fill2);
    assert_eq!(order.filled_quantity, Dec::from_int(100));
    assert_eq!(order.status, OrderStatus::Filled);
    // The average price is the quantity-weighted mean of the fills.
    assert_eq!(order.filled_avg_price, Some(Dec::from_micro(150_500_000)));
}

#[test]
fn test_order_status_sets() {
    assert!(OrderStatus::Filled.is_terminal());
    assert!(OrderStatus::Canceled.is_terminal());
    assert!(OrderStatus::Rejected.is_terminal());
    assert!(OrderStatus::Expired.is_terminal());
    assert!(OrderStatus::Pending.is_active());
    assert!(OrderStatus::Submitted.is_active());
    assert!(OrderStatus::Accepted.is_active());
    assert!(OrderStatus::PartiallyFilled.is_active());
    assert!(!OrderStatus::Filled.is_active());
}

fn bar(ts: i64, open: f64, high: f64, low: f64, close: f64, volume: f64) -> Bar {
    Bar::new(
        ts,
        open.to_bits(),
        high.to_bits(),
        low.to_bits(),
        close.to_bits(),
        volume.to_bits(),
    )
}

#[test]
fn test_bar_series_capacity() {
    let mut series = BarSeries::with_capacity("AAPL".to_string(), Timeframe::Daily, 3);

    series.push(bar(1, 100.0, 101.0, 99.0, 100.5, 1000.0));
    series.push(bar(2, 100.5, 102.0, 100.0, 101.5, 1000.0));
    series.push(bar(3, 101.5, 103.0, 101.0, 102.5, 1000.0));
    assert_eq!(series.len(), 3);

    // Should remove oldest when at capacity
    series.push(bar(4, 102.5, 104.0, 102.0, 103.5, 1000.0));
    assert_eq!(series.len(), 3);
    assert_eq!(series.get(0).unwrap().timestamp, 2);
    // The last-pushed bar is at the back.
    assert_eq!(series.last().unwrap().timestamp, 4);
}

#[test]
fn test_bar_series_extractions() {
    let mut series = BarSeries::new("AAPL".to_string(), Timeframe::Daily);
    series.push(bar(1, 100.0, 101.0, 99.0, 100.5, 1000.0));
    series.push(bar(2, 100.5, 102.0, 100.0, 101.5, 2000.0));

    let closes = series.closes();
    assert_eq!(closes, vec![(100.5f64).to_bits(), (101.5f64).to_bits()]);

    let volumes = series.volumes();
    assert_eq!(volumes, vec![(1000.0f64).to_bits(), (2000.0f64).to_bits()]);
}

#[test]
fn test_float_bit_comparisons() {
    // The integer comparison of encoded doubles matches IEEE-754.
    let nan = f64::NAN.to_bits();
    assert!(lt_bits((1.0f64).to_bits(), (2.0f64).to_bits()));
    assert!(!lt_bits((2.0f64).to_bits(), (1.0f64).to_bits()));
    assert!(le_bits((-0.0f64).to_bits(), (0.0f64).to_bits()));
    assert!(le_bits((0.0f64).to_bits(), (-0.0f64).to_bits()));
    assert!(eq_bits((0.0f64).to_bits(), (-0.0f64).to_bits()));
    assert!(lt_bits((-3.5f64).to_bits(), (-1.25f64).to_bits()));
    assert!(!le_bits(nan, (1.0f64).to_bits()));
    assert!(!le_bits((1.0f64).to_bits(), nan));
    assert!(lt_bits((1.0e308f64).to_bits(), f64::INFINITY.to_bits()));
}

#[test]
fn test_precise_bar_conversion_lossless() {
    // Bar to PreciseBar is lossless for finite values within range.
    let b = bar(7, 101.5, 102.25, 100.125, 101.0505, 1000.0);
    let p = PreciseBar::from_bar(&b);
    assert_eq!(p.timestamp, 7);
    assert_eq!(p.open.micro(), 101_500_000);
    assert_eq!(p.high.micro(), 102_250_000);
    assert_eq!(p.low.micro(), 100_125_000);
    assert_eq!(p.close.micro(), 101_050_499);
    assert_eq!(p.volume.micro(), 1_000_000_000);
}

#[test]
fn test_precise_bar_conversion_fallback() {
    // Non-finite fields fall back to zero, the documented policy.
    let b = Bar::new(
        1,
        f64::NAN.to_bits(),
        f64::INFINITY.to_bits(),
        (1.0f64).to_bits(),
        (2.0f64).to_bits(),
        (0.0f64).to_bits(),
    );
    let p = PreciseBar::from_bar(&b);
    assert_eq!(p.open.micro(), 0);
    assert_eq!(p.high.micro(), 0);
    assert_eq!(p.low.micro(), 1_000_000);
    assert_eq!(p.close.micro(), 2_000_000);
}
