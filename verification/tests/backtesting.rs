use trading_system::backtest::engine::{BacktestConfig, BacktestEngine};
use trading_system::backtest::report::BacktestReport;
use trading_system::backtest::statistics::BacktestStats;
use trading_system::bar::{Bar, BarSeries};
use trading_system::fixed::Dec;
use trading_system::order::Order;
use trading_system::position::Portfolio;
use trading_system::signal::Signal;
use trading_system::strategies::ma_crossover::{MACrossoverConfig, MACrossoverStrategy};
use trading_system::strategy::{Strategy, StrategyState};
use trading_system::backtest::statistics::TradeRecord;
use trading_system::order::Side;
use trading_system::signal::SignalType;

/// The exponential moving averages of a close series, last value only,
/// computed exactly as the indicator engine computes them.
fn ema_last(closes: &[u64], period: usize) -> Option<f64> {
    if closes.len() < period {
        return None;
    }
    let data: Vec<f64> = closes.iter().map(|b| f64::from_bits(*b)).collect();
    let multiplier = 2.0 / (period as f64 + 1.0);
    let initial_sma: f64 = data[..period].iter().sum::<f64>() / period as f64;
    let mut ema = initial_sma;
    for &price in &data[period..] {
        ema = price * multiplier + ema * (1.0 - multiplier);
    }
    Some(ema)
}

/// An MA-crossover strategy: the verified decision core fed by
/// floating-point EMAs computed here.
struct MaCross {
    core: MACrossoverStrategy,
    symbols: Vec<String>,
}

impl MaCross {
    fn new(fast: usize, slow: usize, symbols: Vec<String>) -> MaCross {
        let config = MACrossoverConfig {
            symbols: symbols.clone(),
            fast_period: fast,
            slow_period: slow,
            use_ema: true,
            signal_threshold: (0.0f64).to_bits(),
        };
        config.validate().unwrap();
        MaCross {
            core: MACrossoverStrategy::new(config),
            symbols,
        }
    }
}

impl Strategy for MaCross {
    fn name(&self) -> &str {
        "MA Crossover"
    }

    fn on_bar(&mut self, series: &BarSeries) -> Option<Signal> {
        let bar = series.last()?;
        let closes = series.closes();
        let warmup = self.core.config.slow_period + 1;
        let mas = if closes.len() >= warmup {
            let fast = ema_last(&closes, self.core.config.fast_period)?;
            let slow = ema_last(&closes, self.core.config.slow_period)?;
            let magnitude = if slow != 0.0 {
                ((fast - slow) / slow).abs()
            } else {
                0.0
            };
            Some((fast.to_bits(), slow.to_bits(), magnitude.to_bits()))
        } else {
            None
        };
        self.core
            .step(&series.symbol, bar.close, bar.timestamp, mas)
    }

    fn on_fill(&mut self, _order: &Order) {}

    fn reset(&mut self) {
        self.core.reset();
    }

    fn state(&self) -> StrategyState {
        self.core.state()
    }

    fn warmup_period(&self) -> usize {
        self.core.config.slow_period + 1
    }

    fn symbols(&self) -> &Vec<String> {
        &self.symbols
    }

    fn description(&self) -> &str {
        "signals on fast/slow moving average crossovers"
    }
}

fn generate_test_data() -> Vec<(String, Vec<Bar>)> {
    let bars: Vec<Bar> = (0..100)
        .map(|i| {
            let price = 100.0 + (i as f64 * 0.5).sin() * 10.0;
            Bar::new(
                i as i64 * 86400000,
                price.to_bits(),
                (price + 2.0).to_bits(),
                (price - 2.0).to_bits(),
                (price + 1.0).to_bits(),
                (1000000.0f64).to_bits(),
            )
        })
        .collect();
    vec![("TEST".to_string(), bars)]
}

#[test]
fn test_backtest_runs() {
    let config = BacktestConfig::default();
    let engine = BacktestEngine::new(config);

    let mut strategy = MaCross::new(5, 10, vec!["TEST".to_string()]);

    let data = generate_test_data();
    let report = engine.run(&mut strategy, &data);

    assert!(report.stats.bars_processed > 0);
}

#[test]
fn test_backtest_smoke_full() {
    // One hundred sinusoidal daily bars through an MA crossover: at least
    // one trade, one equity point per bar, and every closing leg carries
    // a realized P&L (open positions are closed at the last bar).
    let config = BacktestConfig::default();
    let engine = BacktestEngine::new(config);
    let mut strategy = MaCross::new(5, 10, vec!["TEST".to_string()]);
    let data = generate_test_data();

    let report = engine.run(&mut strategy, &data);

    assert_eq!(report.stats.bars_processed, 100);
    assert_eq!(report.stats.equity_curve.len(), 100);
    assert!(report.stats.total_trades >= 1);
    for trade in &report.stats.trades {
        if trade.side == trading_system::order::Side::Sell {
            assert!(trade.pnl.is_some());
        }
    }
}

#[test]
fn test_report_summary() {
    let config = BacktestConfig::default();
    let mut stats = BacktestStats::new(Dec::from_int(100000));
    stats.final_equity = Dec::from_int(110000);
    stats.total_return_pct = Dec::from_int(10);
    stats.max_drawdown_pct = Dec::from_int(5);
    stats.total_trades = 10;

    let report = BacktestReport {
        config,
        stats,
        final_portfolio: Portfolio::new(Dec::from_int(110000)),
    };

    let summary = report.summary();
    assert!(summary.contains("Total Return"));
    assert!(summary.contains("10.00%"));
    assert!(summary.contains("Sharpe Ratio"));
    assert!(summary.contains("Sortino Ratio"));
    assert!(summary.contains("Annualized Return"));
}

/// A strategy that signals a buy on every bar, to exercise the driver's
/// duplicate-signal gate.
struct AlwaysBuy {
    symbols: Vec<String>,
}

impl Strategy for AlwaysBuy {
    fn name(&self) -> &str {
        "always-buy"
    }

    fn on_bar(&mut self, series: &BarSeries) -> Option<Signal> {
        let bar = series.last()?;
        Some(Signal {
            symbol: series.symbol.clone(),
            signal_type: trading_system::signal::SignalType::Buy,
            strength: trading_system::signal::SignalStrength::Moderate,
            price: bar.close,
            timestamp: bar.timestamp,
            confidence: (1.0f64).to_bits(),
            metadata: trading_system::signal::SignalMetadata::empty(),
        })
    }

    fn on_fill(&mut self, _order: &Order) {}

    fn reset(&mut self) {}

    fn state(&self) -> StrategyState {
        StrategyState::empty()
    }

    fn warmup_period(&self) -> usize {
        0
    }

    fn symbols(&self) -> &Vec<String> {
        &self.symbols
    }

    fn description(&self) -> &str {
        ""
    }
}

#[test]
fn test_duplicate_buy_signals_gated() {
    // With a strategy that signals a buy every bar and nothing ever
    // selling, the driver's gate lets exactly one buy through.
    let config = BacktestConfig::default();
    let engine = BacktestEngine::new(config);
    let mut strategy = AlwaysBuy {
        symbols: vec!["TEST".to_string()],
    };
    let bars: Vec<Bar> = (0..10)
        .map(|i| {
            let price = 100.0f64;
            Bar::new(
                i as i64 * 86400000,
                price.to_bits(),
                price.to_bits(),
                price.to_bits(),
                price.to_bits(),
                (1000.0f64).to_bits(),
            )
        })
        .collect();
    let data = vec![("TEST".to_string(), bars)];

    let report = engine.run(&mut strategy, &data);

    let buys = report
        .stats
        .trades
        .iter()
        .filter(|t| t.signal_type == trading_system::signal::SignalType::Buy)
        .count();
    assert_eq!(buys, 1);
    // The lot left open is closed at the last bar with a realized P&L.
    for trade in &report.stats.trades {
        if trade.side == trading_system::order::Side::Sell {
            assert!(trade.pnl.is_some());
        }
    }
}

#[test]
fn test_dec_round_half_to_even() {
    // Rounding to whole shares goes to the nearest, ties to even.
    assert_eq!(Dec::from_micro(7_500_000).round(), Dec::from_int(8));
    assert_eq!(Dec::from_micro(6_500_000).round(), Dec::from_int(6));
    assert_eq!(Dec::from_micro(7_400_000).round(), Dec::from_int(7));
    assert_eq!(Dec::from_micro(7_600_000).round(), Dec::from_int(8));
    assert_eq!(Dec::from_micro(-7_500_000).round(), Dec::from_int(-8));
    assert_eq!(Dec::from_micro(-6_500_000).round(), Dec::from_int(-6));
}

#[test]
fn test_equity_csv_projection() {
    let config = BacktestConfig::default();
    let mut stats = BacktestStats::new(Dec::from_int(1000));
    stats.record_equity(1, Dec::from_int(1000));
    stats.record_equity(2, Dec::from_micro(1_010_500_000));
    let report = BacktestReport {
        config,
        stats,
        final_portfolio: Portfolio::new(Dec::from_int(1000)),
    };
    let csv = report.equity_to_csv();
    assert_eq!(
        csv,
        "timestamp,equity\n1,1000.000000\n2,1010.500000\n"
    );
}

#[test]
fn test_stats_finalize() {

    let mut stats = BacktestStats::new(Dec::from_int(100000));
    stats.record_equity(1, Dec::from_int(100000));
    stats.record_equity(2, Dec::from_int(101000));
    stats.record_equity(3, Dec::from_int(100500));

    for (pnl, ts) in [(500i64, 1i64), (-200, 2), (300, 3)] {
        stats.add_trade(TradeRecord {
            symbol: "TEST".to_string(),
            side: Side::Sell,
            quantity: Dec::from_int(1),
            price: Dec::from_int(100),
            timestamp: ts,
            signal_type: SignalType::CloseLong,
            pnl: Some(Dec::from_int(pnl)),
        });
    }

    let mut portfolio = Portfolio::new(Dec::from_int(100000));
    portfolio.equity = Dec::from_int(100600);
    stats.finalize(&portfolio);

    assert_eq!(stats.final_equity, Dec::from_int(100600));
    assert_eq!(stats.winning_trades, 2);
    assert_eq!(stats.losing_trades, 1);
    // 0.6% total return
    assert_eq!(stats.total_return_pct, Dec::from_micro(600_000));
    // Two of three trades won
    assert_eq!(stats.win_rate_pct.micro(), 66_666_666);
    assert_eq!(stats.avg_win, Dec::from_int(400));
    assert_eq!(stats.avg_loss, Dec::from_int(200));
    assert_eq!(stats.profit_factor, Dec::from_int(4));
}

#[test]
fn test_stats_drawdown_tracking() {
    let mut stats = BacktestStats::new(Dec::from_int(1000));
    stats.record_equity(1, Dec::from_int(1100));
    stats.record_equity(2, Dec::from_int(990));
    stats.record_equity(3, Dec::from_int(1050));
    // Peak 1100, trough 990: a 10% drawdown
    assert_eq!(stats.peak_equity, Dec::from_int(1100));
    assert_eq!(stats.max_drawdown_pct, Dec::from_int(10));
}
