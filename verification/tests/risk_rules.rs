use trading_system::fixed::Dec;
use trading_system::order::Side;
use trading_system::position::{Portfolio, Position};
use trading_system::risk::portfolio_limits::{LimitCheck, PortfolioLimits};
use trading_system::risk::position_sizer::{PositionSizer, PositionSizingMethod};
use trading_system::risk::risk_manager::{RiskConfig, RiskDecision, RiskManager};
use trading_system::risk::stop_loss::{StopLossManager, StopLossMethod};
use trading_system::signal::{Signal, SignalMetadata, SignalStrength, SignalType};

fn create_portfolio(equity: Dec, buying_power: Dec) -> Portfolio {
    let mut portfolio = Portfolio::new(equity);
    portfolio.buying_power = buying_power;
    portfolio
}

fn create_signal() -> Signal {
    Signal {
        symbol: "TEST".to_string(),
        signal_type: SignalType::Buy,
        strength: SignalStrength::Moderate,
        price: (100.0f64).to_bits(),
        timestamp: 0,
        confidence: (1.0f64).to_bits(),
        metadata: SignalMetadata::empty(),
    }
}

#[test]
fn test_fixed_shares() {
    let sizer = PositionSizer::new(PositionSizingMethod::Fixed { shares: Dec::from_int(100) })
        .without_signal_strength();
    let portfolio = create_portfolio(Dec::from_int(100000), Dec::from_int(100000));
    let signal = create_signal();

    let size = sizer.calculate(&portfolio, &signal, Dec::from_int(50), None);
    assert_eq!(size, Dec::from_int(100));
}

#[test]
fn test_percent_equity() {
    let sizer = PositionSizer::new(PositionSizingMethod::PercentEquity {
        percent: Dec::from_int(5),
    })
    .without_signal_strength();
    let portfolio = create_portfolio(Dec::from_int(100000), Dec::from_int(100000));
    let signal = create_signal();

    let size = sizer.calculate(&portfolio, &signal, Dec::from_int(100), None);
    // 5% of 100000 = 5000, at $100/share = 50 shares
    assert_eq!(size, Dec::from_int(50));
}

#[test]
fn test_risk_based() {
    let sizer = PositionSizer::new(PositionSizingMethod::RiskBased {
        risk_percent: Dec::from_int(1),
    })
    .without_signal_strength();
    let portfolio = create_portfolio(Dec::from_int(100000), Dec::from_int(100000));
    let signal = create_signal();

    // Risk 1% = $1000, stop loss $5 away = 200 shares
    let size = sizer.calculate(
        &portfolio,
        &signal,
        Dec::from_int(100),
        Some(Dec::from_int(95)),
    );
    assert_eq!(size, Dec::from_int(200));
}

#[test]
fn test_signal_strength_adjustment() {
    let sizer = PositionSizer::new(PositionSizingMethod::Fixed { shares: Dec::from_int(100) });
    let portfolio = create_portfolio(Dec::from_int(100000), Dec::from_int(100000));

    let mut weak_signal = create_signal();
    weak_signal.strength = SignalStrength::Weak;
    let weak_size = sizer.calculate(&portfolio, &weak_signal, Dec::from_int(50), None);

    let mut strong_signal = create_signal();
    strong_signal.strength = SignalStrength::Strong;
    let strong_size = sizer.calculate(&portfolio, &strong_signal, Dec::from_int(50), None);

    // 100 * 0.5 and 100 * 1.5
    assert_eq!(weak_size, Dec::from_int(50));
    assert_eq!(strong_size, Dec::from_int(150));
}

#[test]
fn test_max_shares_limit() {
    let sizer = PositionSizer::new(PositionSizingMethod::Fixed { shares: Dec::from_int(1000) })
        .with_max_shares(Dec::from_int(100))
        .without_signal_strength();
    let portfolio = create_portfolio(Dec::from_int(1000000), Dec::from_int(1000000));
    let signal = create_signal();

    let size = sizer.calculate(&portfolio, &signal, Dec::from_int(50), None);
    assert_eq!(size, Dec::from_int(100));
}

#[test]
fn test_buying_power_limit() {
    let sizer = PositionSizer::new(PositionSizingMethod::Fixed { shares: Dec::from_int(1000) })
        .without_signal_strength();
    // Only $5000 buying power
    let portfolio = create_portfolio(Dec::from_int(100000), Dec::from_int(5000));
    let signal = create_signal();

    let size = sizer.calculate(&portfolio, &signal, Dec::from_int(100), None);
    // Can only afford 50 shares
    assert_eq!(size, Dec::from_int(50));
}

#[test]
fn test_sizer_never_exceeds_buying_power() {
    // The size times the price never exceeds the buying power, and the
    // size is always a whole number of shares.
    let sizer = PositionSizer::new(PositionSizingMethod::PercentEquity {
        percent: Dec::from_int(90),
    });
    let portfolio = create_portfolio(Dec::from_int(100000), Dec::from_int(7333));
    let signal = create_signal();
    let price = Dec::from_micro(33_330_000);

    let size = sizer.calculate(&portfolio, &signal, price, None);
    assert_eq!(size.micro() % 1_000_000, 0);
    assert!(size.mul(&price).le(&portfolio.buying_power));
}

#[test]
fn test_fixed_percent_stop() {
    let manager = StopLossManager::new(StopLossMethod::FixedPercent { percent: Dec::from_int(5) });

    // Long position: 5% below
    let stop = manager
        .calculate_stop_price(Dec::from_int(100), Side::Buy)
        .unwrap();
    assert_eq!(stop, Dec::from_int(95));

    // Short position: 5% above
    let stop = manager
        .calculate_stop_price(Dec::from_int(100), Side::Sell)
        .unwrap();
    assert_eq!(stop, Dec::from_int(105));
}

#[test]
fn test_atr_stop() {
    let mut manager = StopLossManager::new(StopLossMethod::Atr {
        multiplier: Dec::from_int(2),
    });
    // ATR = 5
    manager.update_atr(Dec::from_int(5));

    let stop = manager
        .calculate_stop_price(Dec::from_int(100), Side::Buy)
        .unwrap();
    // 2 * 5 = 10 below
    assert_eq!(stop, Dec::from_int(90));
}

#[test]
fn test_trailing_stop_update() {
    let manager = StopLossManager::new(StopLossMethod::TrailingPercent {
        percent: Dec::from_int(5),
    });

    // Long position, price moved up: 5% below 110
    let current_stop = Dec::from_int(95);
    let new_stop = manager.update_trailing_stop(current_stop, Dec::from_int(110), Side::Buy);
    assert_eq!(new_stop, Dec::from_micro(104_500_000));

    // Price moved down - stop shouldn't move down
    let new_stop2 = manager.update_trailing_stop(new_stop, Dec::from_int(105), Side::Buy);
    assert_eq!(new_stop2, Dec::from_micro(104_500_000));
}

#[test]
fn test_trailing_stop_short_monotone() {
    // A short trailing stop only ever ratchets downward.
    let manager = StopLossManager::new(StopLossMethod::TrailingPercent {
        percent: Dec::from_int(5),
    });
    let mut stop = Dec::from_int(105);
    for price in [100i64, 95, 98, 90, 93] {
        let next = manager.update_trailing_stop(stop, Dec::from_int(price), Side::Sell);
        assert!(next.le(&stop));
        stop = next;
    }
}

#[test]
fn test_stop_triggered() {
    let manager = StopLossManager::new(StopLossMethod::FixedPercent { percent: Dec::from_int(5) });

    // Long position
    assert!(manager.is_triggered(Dec::from_int(95), Dec::from_int(94), Side::Buy));
    assert!(manager.is_triggered(Dec::from_int(95), Dec::from_int(95), Side::Buy));
    assert!(!manager.is_triggered(Dec::from_int(95), Dec::from_int(96), Side::Buy));

    // Short position
    assert!(manager.is_triggered(Dec::from_int(105), Dec::from_int(106), Side::Sell));
    assert!(!manager.is_triggered(Dec::from_int(105), Dec::from_int(104), Side::Sell));
}

fn limits_portfolio(equity: Dec, cash: Dec, positions: usize) -> Portfolio {
    let mut portfolio = Portfolio::new(equity);
    portfolio.cash = cash;
    portfolio.equity = equity;
    for i in 0..positions {
        let mut pos = Position::new(format!("SYM{}", i), Dec::from_int(10), Dec::from_int(100));
        pos.market_value = Dec::from_int(1000);
        portfolio.positions.push(pos);
    }
    portfolio
}

#[test]
fn test_allowed_position() {
    let limits = PortfolioLimits::default();
    let portfolio = limits_portfolio(Dec::from_int(100000), Dec::from_int(50000), 2);

    let check = limits.check_new_position(&portfolio, Dec::from_int(5000), Dec::zero());
    assert!(check.is_allowed());
}

#[test]
fn test_max_positions_blocked() {
    let limits = PortfolioLimits {
        max_positions: 3,
        ..Default::default()
    };
    let portfolio = limits_portfolio(Dec::from_int(100000), Dec::from_int(50000), 3);

    let check = limits.check_new_position(&portfolio, Dec::from_int(5000), Dec::zero());
    assert!(check.is_blocked());
}

#[test]
fn test_daily_loss_limit() {
    let limits = PortfolioLimits::default();
    let portfolio = limits_portfolio(Dec::from_int(100000), Dec::from_int(50000), 0);

    // Down 5% today (exceeds 3% limit)
    let check = limits.check_new_position(&portfolio, Dec::from_int(5000), Dec::from_int(-5000));
    assert!(check.is_blocked());
}

#[test]
fn test_position_size_reduced() {
    let limits = PortfolioLimits {
        // 5% max
        max_position_pct: Dec::from_int(5),
        ..Default::default()
    };
    let portfolio = limits_portfolio(Dec::from_int(100000), Dec::from_int(100000), 0);

    // Trying to buy 10% position
    let check = limits.check_new_position(&portfolio, Dec::from_int(10000), Dec::zero());
    match check {
        LimitCheck::Reduced { max_size, .. } => {
            // Reduced to 5%
            assert_eq!(max_size, Dec::from_int(5000));
        }
        _ => panic!("expected a reduced outcome"),
    }
}

#[test]
fn test_daily_loss_halt_blocks_any_size() {
    // With the daily loss limit breached, any size is blocked and the
    // halt check reports a reason.
    let limits = PortfolioLimits::default();
    let portfolio = limits_portfolio(Dec::from_int(100000), Dec::from_int(100000), 0);
    let pnl = Dec::from_int(-5000);

    assert!(limits.should_halt_trading(&portfolio, pnl).is_some());
    for size in [1i64, 100, 5000, 50000] {
        let check = limits.check_new_position(&portfolio, Dec::from_int(size), pnl);
        assert!(check.is_blocked());
    }
}

#[test]
fn test_zero_residual_cap_blocks() {
    // A cap whose residual truncates to nothing blocks instead of
    // offering a zero-size reduction.
    let limits = PortfolioLimits {
        min_cash: Dec::zero(),
        ..Default::default()
    };
    let mut portfolio = Portfolio::new(Dec::from_micro(5));
    portfolio.equity = Dec::from_micro(5);
    portfolio.cash = Dec::from_micro(5);

    let check = limits.check_new_position(&portfolio, Dec::from_micro(3), Dec::zero());
    assert!(check.is_blocked());
}

fn manager_portfolio() -> Portfolio {
    let mut portfolio = Portfolio::new(Dec::from_int(100000));
    portfolio.cash = Dec::from_int(100000);
    portfolio.buying_power = Dec::from_int(100000);
    portfolio
}

fn manager_signal(signal_type: SignalType) -> Signal {
    Signal {
        symbol: "TEST".to_string(),
        signal_type,
        strength: SignalStrength::Moderate,
        price: (100.0f64).to_bits(),
        timestamp: 0,
        confidence: (1.0f64).to_bits(),
        metadata: SignalMetadata::empty(),
    }
}

#[test]
fn test_approved_signal() {
    let config = RiskConfig::default();
    let manager = RiskManager::new(config);
    let portfolio = manager_portfolio();
    let signal = manager_signal(SignalType::Buy);

    let decision = manager.evaluate_signal(&portfolio, &signal, Dec::from_int(100));
    assert!(decision.is_approved());

    if let RiskDecision::Approved {
        order,
        stop_loss_price,
    } = decision
    {
        assert_eq!(order.symbol, "TEST");
        assert_eq!(order.side, Side::Buy);
        assert!(order.quantity.gt(&Dec::zero()));
        assert!(stop_loss_price.is_some());
    }
}

#[test]
fn test_hold_signal_rejected() {
    let config = RiskConfig::default();
    let manager = RiskManager::new(config);
    let portfolio = manager_portfolio();
    let signal = manager_signal(SignalType::Hold);

    let decision = manager.evaluate_signal(&portfolio, &signal, Dec::from_int(100));
    assert!(!decision.is_approved());
}

#[test]
fn test_daily_loss_halt() {
    let config = RiskConfig::default();
    let mut manager = RiskManager::new(config);
    let portfolio = manager_portfolio();

    // No halt initially
    assert!(manager.should_halt(&portfolio).is_none());

    // Update with a 5% loss
    manager.update_daily_pnl(Dec::from_int(-5000));

    // Should halt now
    assert!(manager.should_halt(&portfolio).is_some());
}
