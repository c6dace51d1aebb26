use trading_system::bar::BarSeries;
use trading_system::order::Order;
use trading_system::signal::{Signal, SignalStrength, SignalType};
use trading_system::strategies::ma_crossover::{MACrossoverConfig, MACrossoverStrategy};
use trading_system::strategies::mean_reversion::{
    BandSnapshot, MeanReversionConfig, MeanReversionStrategy,
};
use trading_system::strategies::momentum::{MomentumConfig, MomentumSnapshot, MomentumStrategy};
use trading_system::strategies::registry::StrategyRegistry;
use trading_system::strategies::rsi_strategy::{PositionState, RsiConfig, RsiStrategy};
use trading_system::strategy::{Strategy, StrategyState};
use trading_system::errors::IndicatorError;
use trading_system::indicators::{validate_data_len, Atr, Macd, Rsi, Sma, StdDev, Stochastic};
use trading_system::strategies::rsi_strategy::rsi_strength;

fn ma_config() -> MACrossoverConfig {
    MACrossoverConfig {
        symbols: vec!["AAPL".to_string()],
        ..Default::default()
    }
}

#[test]
fn ma_crossover_test_config_validation() {
    let mut config = ma_config();
    assert!(config.validate().is_ok());

    config.fast_period = 30;
    config.slow_period = 20;
    assert!(config.validate().is_err());
}

#[test]
fn momentum_test_config_validation() {
    let mut config = MomentumConfig {
        symbols: vec!["AAPL".to_string()],
        ..Default::default()
    };
    assert!(config.validate().is_ok());

    config.fast_ema_period = 30;
    config.slow_ema_period = 20;
    assert!(config.validate().is_err());
}

#[test]
fn mean_reversion_test_config_validation() {
    let mut config = MeanReversionConfig {
        symbols: vec!["AAPL".to_string()],
        ..Default::default()
    };
    assert!(config.validate().is_ok());

    config.bb_std_dev = (-1.0f64).to_bits();
    assert!(config.validate().is_err());
}

#[test]
fn rsi_strategy_test_config_validation() {
    let mut config = RsiConfig {
        symbols: vec!["AAPL".to_string()],
        ..Default::default()
    };
    assert!(config.validate().is_ok());

    config.overbought = (20.0f64).to_bits();
    config.oversold = (30.0f64).to_bits();
    assert!(config.validate().is_err());

    let mut nan_config = RsiConfig {
        symbols: vec!["AAPL".to_string()],
        ..Default::default()
    };
    nan_config.overbought = f64::NAN.to_bits();
    assert!(nan_config.validate().is_err());
}

#[test]
fn test_ma_crossover_signals() {
    // Fast crossing above slow emits a buy; crossing below emits a sell.
    let config = MACrossoverConfig {
        symbols: vec!["TEST".to_string()],
        fast_period: 3,
        slow_period: 5,
        use_ema: false,
        signal_threshold: (0.0f64).to_bits(),
    };
    let mut strategy = MACrossoverStrategy::new(config);
    let symbol = "TEST".to_string();

    // Establish a previous pair with fast below slow.
    let none = strategy.step(
        &symbol,
        (100.0f64).to_bits(),
        1,
        Some(((99.0f64).to_bits(), (100.0f64).to_bits(), (0.01f64).to_bits())),
    );
    assert!(none.is_none());

    // Fast moves above slow: a buy.
    let buy = strategy
        .step(
            &symbol,
            (101.0f64).to_bits(),
            2,
            Some(((101.0f64).to_bits(), (100.0f64).to_bits(), (0.01f64).to_bits())),
        )
        .unwrap();
    assert_eq!(buy.signal_type, SignalType::Buy);
    assert_eq!(buy.strength, SignalStrength::Weak);

    // Fast moves back below slow: a sell.
    let sell = strategy
        .step(
            &symbol,
            (99.0f64).to_bits(),
            3,
            Some(((99.0f64).to_bits(), (100.0f64).to_bits(), (0.015f64).to_bits())),
        )
        .unwrap();
    assert_eq!(sell.signal_type, SignalType::Sell);
    assert_eq!(sell.strength, SignalStrength::Moderate);
}

#[test]
fn ma_crossover_test_reset() {
    let config = MACrossoverConfig {
        symbols: vec!["TEST".to_string()],
        fast_period: 3,
        slow_period: 5,
        use_ema: true,
        signal_threshold: (0.0f64).to_bits(),
    };
    let mut strategy = MACrossoverStrategy::new(config.clone());
    let symbol = "TEST".to_string();

    strategy.step(
        &symbol,
        (100.0f64).to_bits(),
        1,
        Some(((99.0f64).to_bits(), (100.0f64).to_bits(), (0.01f64).to_bits())),
    );

    assert!(strategy.prev_fast.is_some());
    assert!(strategy.bars_processed > 0);

    strategy.reset();

    assert!(strategy.prev_fast.is_none());
    assert_eq!(strategy.bars_processed, 0);
    // Reset leaves the same state as a fresh construction.
    assert_eq!(strategy, MACrossoverStrategy::new(config));
}

#[test]
fn rsi_strategy_test_oversold_entry() {
    // RSI crossing up through the oversold level enters long.
    let config = RsiConfig {
        symbols: vec!["TEST".to_string()],
        ..Default::default()
    };
    let mut strategy = RsiStrategy::new(config);
    let symbol = "TEST".to_string();

    let none = strategy.step(&symbol, (100.0f64).to_bits(), 1, Some((28.0f64).to_bits()));
    assert!(none.is_none());

    let buy = strategy
        .step(&symbol, (101.0f64).to_bits(), 2, Some((33.0f64).to_bits()))
        .unwrap();
    assert_eq!(buy.signal_type, SignalType::Buy);
    assert_eq!(strategy.position, PositionState::Long);

    // Reaching the exit level closes the long.
    let close = strategy
        .step(&symbol, (108.0f64).to_bits(), 3, Some((71.0f64).to_bits()))
        .unwrap();
    assert_eq!(close.signal_type, SignalType::CloseLong);
    assert_eq!(strategy.position, PositionState::Flat);
}

#[test]
fn rsi_strategy_test_reset() {
    let config = RsiConfig {
        symbols: vec!["TEST".to_string()],
        ..Default::default()
    };
    let mut strategy = RsiStrategy::new(config.clone());
    let symbol = "TEST".to_string();
    strategy.step(&symbol, (100.0f64).to_bits(), 1, Some((28.0f64).to_bits()));
    strategy.step(&symbol, (101.0f64).to_bits(), 2, Some((33.0f64).to_bits()));
    assert_eq!(strategy.position, PositionState::Long);

    strategy.reset();
    assert_eq!(strategy.position, PositionState::Flat);
    assert!(strategy.prev_rsi.is_none());
    assert_eq!(strategy.bars_processed, 0);
    assert_eq!(strategy, RsiStrategy::new(config));
}

#[test]
fn test_signal_strength() {
    assert_eq!(rsi_strength((15.0f64).to_bits()), SignalStrength::Strong);
    assert_eq!(rsi_strength((85.0f64).to_bits()), SignalStrength::Strong);
    assert_eq!(rsi_strength((25.0f64).to_bits()), SignalStrength::Moderate);
    assert_eq!(rsi_strength((75.0f64).to_bits()), SignalStrength::Moderate);
    assert_eq!(rsi_strength((50.0f64).to_bits()), SignalStrength::Weak);
}

fn band_snapshot(percent_b: f64, entry_threshold: f64) -> BandSnapshot {
    let distance = if percent_b < 0.5 {
        percent_b
    } else {
        1.0 - percent_b
    };
    BandSnapshot {
        upper: (110.0f64).to_bits(),
        middle: (100.0f64).to_bits(),
        lower: (90.0f64).to_bits(),
        bandwidth: (0.2f64).to_bits(),
        percent_b: percent_b.to_bits(),
        distance: distance.to_bits(),
        short_entry_level: (1.0 - entry_threshold).to_bits(),
        long_stop: (88.0f64).to_bits(),
        short_stop: (112.0f64).to_bits(),
    }
}

#[test]
fn mean_reversion_test_oversold_entry() {
    // %B at the lower band enters long with the suggested stop and the
    // middle band as take-profit; re-crossing the exit level closes.
    let config = MeanReversionConfig {
        symbols: vec!["TEST".to_string()],
        ..Default::default()
    };
    let mut strategy = MeanReversionStrategy::new(config);
    let symbol = "TEST".to_string();

    let buy = strategy
        .step(&symbol, (90.5f64).to_bits(), 1, Some(band_snapshot(0.02, 0.05)))
        .unwrap();
    assert_eq!(buy.signal_type, SignalType::Buy);
    assert_eq!(buy.strength, SignalStrength::Strong);
    assert_eq!(buy.metadata.stop_loss, Some((88.0f64).to_bits()));
    assert_eq!(buy.metadata.take_profit, Some((100.0f64).to_bits()));
    assert_eq!(strategy.position, PositionState::Long);

    let close = strategy
        .step(&symbol, (100.2f64).to_bits(), 2, Some(band_snapshot(0.55, 0.05)))
        .unwrap();
    assert_eq!(close.signal_type, SignalType::CloseLong);
    assert_eq!(strategy.position, PositionState::Flat);
}

#[test]
fn test_momentum_entry_and_exit() {
    let config = MomentumConfig {
        symbols: vec!["TEST".to_string()],
        ..Default::default()
    };
    let mut strategy = MomentumStrategy::new(config);
    let symbol = "TEST".to_string();

    let snap = MomentumSnapshot {
        momentum: (0.04f64).to_bits(),
        trend: (0.01f64).to_bits(),
        rsi: (60.0f64).to_bits(),
        mom_abs: (0.04f64).to_bits(),
        rsi_extreme: (10.0f64).to_bits(),
        confidence: (0.4f64).to_bits(),
    };
    let buy = strategy
        .step(&symbol, (100.0f64).to_bits(), 1, Some(snap))
        .unwrap();
    assert_eq!(buy.signal_type, SignalType::Buy);
    assert_eq!(strategy.position, PositionState::Long);

    let flip = MomentumSnapshot {
        momentum: (-0.01f64).to_bits(),
        trend: (0.01f64).to_bits(),
        rsi: (55.0f64).to_bits(),
        mom_abs: (0.01f64).to_bits(),
        rsi_extreme: (5.0f64).to_bits(),
        confidence: (0.1f64).to_bits(),
    };
    let close = strategy
        .step(&symbol, (99.0f64).to_bits(), 2, Some(flip))
        .unwrap();
    assert_eq!(close.signal_type, SignalType::CloseLong);
    assert_eq!(strategy.position, PositionState::Flat);
}

#[test]
fn test_momentum_reset_matches_fresh() {
    let config = MomentumConfig {
        symbols: vec!["TEST".to_string()],
        ..Default::default()
    };
    let mut strategy = MomentumStrategy::new(config.clone());
    let symbol = "TEST".to_string();
    let snap = MomentumSnapshot {
        momentum: (0.04f64).to_bits(),
        trend: (0.01f64).to_bits(),
        rsi: (60.0f64).to_bits(),
        mom_abs: (0.04f64).to_bits(),
        rsi_extreme: (10.0f64).to_bits(),
        confidence: (0.4f64).to_bits(),
    };
    strategy.step(&symbol, (100.0f64).to_bits(), 1, Some(snap));
    strategy.reset();
    assert_eq!(strategy, MomentumStrategy::new(config));
}

#[test]
fn test_mean_reversion_reset_matches_fresh() {
    let config = MeanReversionConfig {
        symbols: vec!["TEST".to_string()],
        ..Default::default()
    };
    let mut strategy = MeanReversionStrategy::new(config.clone());
    let symbol = "TEST".to_string();
    strategy.step(&symbol, (90.5f64).to_bits(), 1, Some(band_snapshot(0.02, 0.05)));
    strategy.reset();
    assert_eq!(strategy, MeanReversionStrategy::new(config));
}

#[test]
fn test_registry_get() {
    let registry = StrategyRegistry::new();
    let info = registry.get("ma_crossover").unwrap();
    assert_eq!(info.name, "MA Crossover");
    assert!(registry.get("unknown").is_none());
}

#[test]
fn test_registry_list() {
    let registry = StrategyRegistry::new();
    assert_eq!(registry.list().len(), 4);
    assert!(registry.has_strategy("momentum"));
    assert!(registry.has_strategy("mean_reversion"));
    assert!(registry.has_strategy("rsi"));
    assert!(!registry.has_strategy("nope"));
}

struct TestStrategy {
    name: String,
    symbols: Vec<String>,
    warmup: usize,
    bars_seen: usize,
}

impl Strategy for TestStrategy {
    fn name(&self) -> &str {
        &self.name
    }

    fn on_bar(&mut self, _series: &BarSeries) -> Option<Signal> {
        self.bars_seen += 1;
        None
    }

    fn on_fill(&mut self, _order: &Order) {}

    fn reset(&mut self) {
        self.bars_seen = 0;
    }

    fn state(&self) -> StrategyState {
        let mut state = StrategyState::empty();
        state.name = self.name.clone();
        state.is_warmed_up = self.bars_seen >= self.warmup;
        state.bars_processed = self.bars_seen;
        state
    }

    fn warmup_period(&self) -> usize {
        self.warmup
    }

    fn symbols(&self) -> &Vec<String> {
        &self.symbols
    }

    fn description(&self) -> &str {
        ""
    }
}

#[test]
fn test_strategy_warmup() {
    let strategy = TestStrategy {
        name: "test".to_string(),
        symbols: vec!["AAPL".to_string()],
        warmup: 20,
        bars_seen: 0,
    };

    assert!(!strategy.is_warmed_up(10));
    assert!(!strategy.is_warmed_up(19));
    assert!(strategy.is_warmed_up(20));
    assert!(strategy.is_warmed_up(100));
}

#[test]
fn test_indicator_parameters() {
    assert_eq!(Sma::new(3).period(), 3);
    assert_eq!(Rsi::new(14).period(), 15);
    assert_eq!(Atr::new(14).period(), 15);
    assert_eq!(StdDev::new(5).period(), 5);
    let macd = Macd::new();
    assert_eq!(macd.period(), 35);
    let custom = Macd::with_periods(5, 10, 3);
    assert_eq!(custom.period(), 13);
    let stoch = Stochastic::new();
    assert_eq!(stoch.period(), 16);
    assert_eq!(Stochastic::with_periods(5, 3).period(), 7);
}

#[test]
fn test_indicator_validation_error() {
    assert!(validate_data_len(5, 5).is_ok());
    match validate_data_len(5, 3) {
        Err(IndicatorError::InsufficientData {
            required,
            available,
        }) => {
            assert_eq!(required, 5);
            assert_eq!(available, 3);
        }
        other => panic!("expected insufficient data, got {:?}", other),
    }
}
