//! Backtesting engine: time-ordered replay of bars through a strategy,
//! the risk manager and the simulated broker.

use vstd::prelude::*;
use vstd::seq_lib::group_seq_properties;

use crate::backtest::report::BacktestReport;
use crate::backtest::statistics::{BacktestStats, TradeRecord};
use crate::bar::{bits_to_dec, Bar, BarSeries};
use crate::broker::PaperBroker;
use crate::fixed::{Dec, DEC_SCALE};
use crate::order::Side;
use crate::risk::risk_manager::{RiskConfig, RiskDecision, RiskManager};
use crate::signal::{Signal, SignalType};
use crate::strategy::Strategy;
use crate::timeframe::Timeframe;

verus! {

/// Backtest configuration.
#[derive(Debug, Clone, Copy, PartialEq, Eq, Structural)]
pub struct BacktestConfig {
    /// Initial capital
    pub initial_capital: Dec,
    /// Commission per share
    pub commission: Dec,
    /// Slippage percentage
    pub slippage_pct: Dec,
    /// Risk configuration
    pub risk_config: RiskConfig,
}

impl Default for BacktestConfig {
    fn default() -> (r: Self)
        ensures
            r.initial_capital@ == 100000 * (DEC_SCALE as int),
            r.commission@ == 0,
            r.slippage_pct@ == 50000,
            r.risk_config.position_sizing.wf(),
    {
        BacktestConfig {
            initial_capital: Dec::from_int(100000),
            commission: Dec::zero(),
            // 0.05% slippage
            slippage_pct: Dec::from_micro(50000),
            risk_config: RiskConfig::default(),
        }
    }
}

/// One bar tagged with its symbol, for the chronological flattening.
#[derive(Debug)]
pub struct TimedBar {
    /// The bar's timestamp, duplicated for ordering
    pub ts: i64,
    /// The symbol the bar belongs to
    pub symbol: String,
    /// The bar itself
    pub bar: Bar,
}

/// Whether a timed-bar sequence is ordered by timestamp.
pub open spec fn ts_sorted(s: Seq<TimedBar>) -> bool {
    forall|i: int, j: int| 0 <= i < j < s.len() ==> s[i].ts <= s[j].ts
}

/// Sort timed bars by timestamp, stably: the result is ordered and holds
/// exactly the input bars. Insertion keeps ties in input order.
pub fn sort_timed_bars(v: &mut Vec<TimedBar>)
    ensures
        ts_sorted(final(v)@),
        final(v)@.to_multiset() == old(v)@.to_multiset(),
        final(v)@.len() == old(v)@.len(),
{
    proof {
        broadcast use group_seq_properties;
        broadcast use vstd::seq_lib::to_multiset_insert;

    }
    if v.len() <= 1 {
        return ;
    }
    let mut i: usize = 1;
    while i < v.len()
        invariant
            1 <= i <= v@.len(),
            ts_sorted(v@.take(i as int)),
            v@.to_multiset() == old(v)@.to_multiset(),
            v@.len() == old(v)@.len(),
        decreases v@.len() - i,
    {
        proof {
            broadcast use group_seq_properties;
            broadcast use vstd::seq_lib::to_multiset_insert;

        }
        let ts = v[i].ts;
        // Find the first position in the sorted prefix whose timestamp is
        // strictly greater; inserting there keeps equal timestamps in
        // input order.
        let mut j: usize = 0;
        while j < i && v[j].ts <= ts
            invariant
                j <= i < v@.len(),
                ts == v@[i as int].ts,
                forall|k: int| 0 <= k < j ==> (#[trigger] v@[k]).ts <= ts,
            decreases i - j,
        {
            j += 1;
        }
        if j < i {
            proof {
                broadcast use group_seq_properties;
                broadcast use vstd::seq_lib::to_multiset_insert;

            }
            let ghost pre = v@;
            let x = v.remove(i);
            let ghost mid = v@;
            v.insert(j, x);
            proof {
                assert(mid.to_multiset() =~= pre.to_multiset().remove(pre[i as int]));
                assert(v@.to_multiset() =~= mid.to_multiset().insert(x));
                assert(pre.to_multiset().contains(pre[i as int])) by {
                    assert(pre[i as int] == x);
                    assert(pre.contains(x));
                }
                assert(v@.to_multiset() =~= pre.to_multiset());
                assert forall|a: int, b: int|
                    0 <= a < b < i + 1 implies v@[a].ts <= v@[b].ts by {
                    if b < j {
                    } else if b == j {
                        assert(v@[b] == x);
                        assert(a < j);
                        assert(pre[a] == v@[a]);
                    } else {
                        assert(v@[b] == pre[b - 1]);
                        assert(v@[b].ts > ts || b - 1 < i);
                        if a < j {
                            assert(v@[a] == pre[a]);
                        } else if a == j {
                            assert(v@[a] == x);
                            assert(pre[(b - 1) as int].ts > ts || ts <= v@[b].ts);
                        } else {
                            assert(v@[a] == pre[a - 1]);
                        }
                    }
                }
                assert(ts_sorted(v@.take(i + 1 as int)));
            }
        } else {
            proof {
                assert(ts_sorted(v@.take(i + 1 as int))) by {
                    assert(forall|k: int| 0 <= k < i ==> (#[trigger] v@[k]).ts <= ts);
                }
            }
        }
        i += 1;
    }
    proof {
        if v@.len() > 0 {
            assert(v@.take(v@.len() as int) =~= v@);
        }
    }
}

/// Backtesting engine.
#[derive(Debug, Clone, Copy, PartialEq, Eq, Structural)]
pub struct BacktestEngine {
    /// The configuration for every run
    pub config: BacktestConfig,
}

/// An open long lot the driver tracks to gate duplicate signals and
/// compute per-trade P&L: symbol, weighted average entry price, quantity.
/// This ledger is deliberately separate from the broker's portfolio: the
/// broker is authoritative for money, this one for signal gating.
#[derive(Debug)]
pub struct OpenLot {
    /// Symbol of the lot
    pub symbol: String,
    /// Weighted average entry price
    pub entry_price: Dec,
    /// Quantity held
    pub quantity: Dec,
}

impl BacktestEngine {
    /// Create a new backtest engine.
    pub fn new(config: BacktestConfig) -> (r: Self)
        ensures
            r.config == config,
    {
        BacktestEngine { config }
    }

    /// Run a backtest: replay every bar in timestamp order through the
    /// strategy, gate duplicate signals against the driver's open-lot
    /// ledger, risk-check surviving signals, submit and execute approved
    /// orders at the bar's close, mark positions to market, and record
    /// one equity point per bar. Still-open lots are closed at the last
    /// known price so every trade's P&L is complete, and the statistics
    /// are finalized against the final portfolio. Broker errors on
    /// simulated submissions are swallowed: the bar is skipped, the
    /// equity still recorded.
    #[verifier::rlimit(100)]
    pub fn run<S: Strategy>(&self, strategy: &mut S, data: &Vec<(String, Vec<Bar>)>) -> (r:
        BacktestReport)
        requires
            self.config.risk_config.position_sizing.wf(),
        ensures
            r.stats.wf(),
            r.stats.bars_processed == total_bars(data@),
            r.stats.equity_curve@.len() == total_bars(data@),
            r.final_portfolio.wf(),
            r.config == self.config,
            forall|i: int, j: int|
                0 <= i < j < r.stats.equity_curve@.len() ==> r.stats.equity_curve@[i].0
                    <= r.stats.equity_curve@[j].0,
            forall|i: int|
                0 <= i < r.stats.equity_curve@.len() ==> data_has_ts(
                    data@,
                    (#[trigger] r.stats.equity_curve@[i]).0,
                ),
            forall|i: int|
                0 <= i < r.stats.trades@.len() ==> ((#[trigger] r.stats.trades@[i]).side
                    == Side::Sell ==> r.stats.trades@[i].pnl is Some),
    {
        let broker_base = PaperBroker::new(self.config.initial_capital).with_slippage(
            self.config.slippage_pct,
        );
        let mut broker = broker_base.with_commission(self.config.commission);

        let risk_manager = RiskManager::new(self.config.risk_config);

        let mut stats = BacktestStats::new(self.config.initial_capital);
        let mut series_map: Vec<(String, BarSeries)> = Vec::new();
        // symbol -> (entry_price, quantity)
        let mut open_lots: Vec<OpenLot> = Vec::new();

        // Initialize one bounded bar series per symbol (ring eviction).
        let mut si: usize = 0;
        while si < data.len()
            invariant
                series_map@.len() == si,
                si <= data@.len(),
                forall|k: int|
                    0 <= k < si ==> (#[trigger] series_map@[k]).1.wf(),
            decreases data@.len() - si,
        {
            series_map.push(
                (
                    data[si].0.clone(),
                    BarSeries::with_capacity(data[si].0.clone(), Timeframe::Daily, 500),
                ),
            );
            si += 1;
        }

        // Flatten all bars into one timestamp-ordered vector.
        let mut all_bars: Vec<TimedBar> = Vec::new();
        let mut di: usize = 0;
        while di < data.len()
            invariant
                di <= data@.len(),
                all_bars@.len() == total_bars(data@.take(di as int)),
                forall|k: int|
                    0 <= k < all_bars@.len() ==> data_has_ts(
                        data@,
                        (#[trigger] all_bars@[k]).ts,
                    ),
            decreases data@.len() - di,
        {
            proof {
                assert(data@.take(di + 1 as int).drop_last() =~= data@.take(di as int));
            }
            let bars = &data[di].1;
            let mut bi: usize = 0;
            while bi < bars.len()
                invariant
                    bi <= bars@.len(),
                    bars@ == data@[di as int].1@,
                    di < data@.len(),
                    all_bars@.len() == total_bars(data@.take(di as int)) + bi,
                    forall|k: int|
                        0 <= k < all_bars@.len() ==> data_has_ts(
                            data@,
                            (#[trigger] all_bars@[k]).ts,
                        ),
                decreases bars@.len() - bi,
            {
                all_bars.push(
                    TimedBar { ts: bars[bi].timestamp, symbol: data[di].0.clone(), bar: bars[bi] },
                );
                proof {
                    assert(data@[di as int].1@[bi as int].timestamp == all_bars@.last().ts);
                    assert(data_has_ts(data@, all_bars@.last().ts));
                }
                bi += 1;
            }
            di += 1;
        }
        proof {
            assert(data@.take(data@.len() as int) =~= data@);
        }
        let ghost unsorted = all_bars@;
        sort_timed_bars(&mut all_bars);
        proof {
            broadcast use vstd::seq_lib::group_to_multiset_ensures;

            assert forall|k: int|
                0 <= k < all_bars@.len() implies data_has_ts(
                data@,
                (#[trigger] all_bars@[k]).ts,
            ) by {
                let x = all_bars@[k];
                assert(all_bars@.contains(x));
                assert(all_bars@.to_multiset().count(x) > 0);
                assert(unsorted.to_multiset().count(x) > 0);
                assert(unsorted.contains(x));
                let j = choose|j: int| 0 <= j < unsorted.len() && unsorted[j] == x;
                assert(data_has_ts(data@, unsorted[j].ts));
            }
        }
        let ghost sorted_bars = all_bars@;

        // Process bars in chronological order.
        let mut t: usize = 0;
        while t < all_bars.len()
            invariant
                t <= all_bars@.len(),
                all_bars@ == sorted_bars,
                ts_sorted(sorted_bars),
                forall|k: int|
                    0 <= k < sorted_bars.len() ==> data_has_ts(
                        data@,
                        (#[trigger] sorted_bars[k]).ts,
                    ),
                broker.wf(),
                stats.wf(),
                stats.bars_processed == t,
                stats.initial_capital == self.config.initial_capital,
                risk_manager.wf(),
                lots_wf(open_lots@),
                forall|k: int|
                    0 <= k < series_map@.len() ==> (#[trigger] series_map@[k]).1.wf(),
                forall|j: int|
                    0 <= j < stats.equity_curve@.len() ==> (
                    #[trigger] stats.equity_curve@[j]).0 == sorted_bars[j].ts,
                forall|j: int|
                    0 <= j < stats.trades@.len() ==> ((#[trigger] stats.trades@[j]).side
                        == Side::Sell ==> stats.trades@[j].pnl is Some),
            decreases all_bars@.len() - t,
        {
            let timestamp = all_bars[t].ts;
            let bar = all_bars[t].bar;

            // Append the bar to its symbol's series and query the strategy.
            let found = find_series(&series_map, all_bars[t].symbol.as_str());
            if let Some(sidx) = found {
                let signal_opt = {
                    let entry = &mut series_map[sidx];
                    entry.1.push(bar);
                    strategy.on_bar(&entry.1)
                };

                if let Some(signal) = signal_opt {
                    // Skip duplicate entries: no buy while already holding,
                    // no sell or long-close while not holding.
                    let holding_idx = find_lot(&open_lots, signal.symbol.as_str());
                    let already_holding = holding_idx.is_some();
                    let skip = match signal.signal_type {
                        SignalType::Buy => already_holding,
                        SignalType::Sell | SignalType::CloseLong => !already_holding,
                        _ => false,
                    };

                    if !skip {
                        execute_signal(
                            &mut broker,
                            &risk_manager,
                            &mut stats,
                            &mut open_lots,
                            &signal,
                            bar.close,
                            timestamp,
                        );
                    }
                }
            }

            // Broadcast the latest closes for every symbol with a bar at
            // this timestamp, so open positions are marked to market.
            let prices = collect_prices_at(data, timestamp);
            broker.update_prices(&prices);

            // Record equity.
            if stats.bars_processed < usize::MAX {
                stats.record_equity(timestamp, broker.portfolio.equity);
            }
            t += 1;
        }

        // Close any remaining open lots at the last known price so the
        // trade-level P&L is complete.
        let mut li: usize = 0;
        while li < open_lots.len()
            invariant
                li <= open_lots@.len(),
                stats.wf(),
                stats.bars_processed == all_bars@.len(),
                stats.equity_curve@.len() == all_bars@.len(),
                all_bars@ == sorted_bars,
                ts_sorted(sorted_bars),
                forall|k: int|
                    0 <= k < sorted_bars.len() ==> data_has_ts(
                        data@,
                        (#[trigger] sorted_bars[k]).ts,
                    ),
                forall|j: int|
                    0 <= j < stats.equity_curve@.len() ==> (
                    #[trigger] stats.equity_curve@[j]).0 == sorted_bars[j].ts,
                forall|j: int|
                    0 <= j < stats.trades@.len() ==> ((#[trigger] stats.trades@[j]).side
                        == Side::Sell ==> stats.trades@[j].pnl is Some),
            decreases open_lots@.len() - li,
        {
            if open_lots[li].quantity.gt(&Dec::zero()) {
                if let Some(last_close) = last_close_of(data, open_lots[li].symbol.as_str()) {
                    let close_price = bits_to_dec(last_close.0);
                    let pnl = close_price.sub(&open_lots[li].entry_price).mul(
                        &open_lots[li].quantity,
                    );
                    if stats.total_trades < usize::MAX {
                        let trade = TradeRecord {
                            symbol: open_lots[li].symbol.clone(),
                            side: Side::Sell,
                            quantity: open_lots[li].quantity,
                            price: close_price,
                            timestamp: last_close.1,
                            signal_type: SignalType::CloseLong,
                            pnl: Some(pnl),
                        };
                        stats.add_trade(trade);
                    }
                }
            }
            li += 1;
        }

        // Final statistics.
        stats.finalize(&broker.portfolio);

        let final_portfolio = broker.portfolio_snapshot();
        proof {
            assert(all_bars@.len() == total_bars(data@));
        }
        BacktestReport { config: self.config, stats, final_portfolio }
    }
}

/// Whether some input symbol carries a bar at this timestamp.
pub open spec fn data_has_ts(data: Seq<(String, Vec<Bar>)>, ts: i64) -> bool {
    exists|di: int, bi: int|
        0 <= di < data.len() && 0 <= bi < data[di].1@.len() && data[di].1@[bi].timestamp == ts
}

/// The total number of bars across all symbols.
pub open spec fn total_bars(data: Seq<(String, Vec<Bar>)>) -> int
    decreases data.len(),
{
    if data.len() == 0 {
        0
    } else {
        total_bars(data.drop_last()) + data.last().1@.len()
    }
}

/// The index of a symbol's series in the series map.
fn find_series(series_map: &Vec<(String, BarSeries)>, symbol: &str) -> (r: Option<usize>)
    ensures
        match r {
            Some(i) => i < series_map@.len(),
            None => true,
        },
{
    let mut i: usize = 0;
    while i < series_map.len()
        invariant
            i <= series_map@.len(),
        decreases series_map@.len() - i,
    {
        if crate::timeframe::str_eq(series_map[i].0.as_str(), symbol) {
            return Some(i);
        }
        i += 1;
    }
    None
}

/// Settle one fill against the lot ledger and record the trade, keeping
/// the ledger invariant. The side is the signal's mapped side; a sell
/// arrives only with an open lot.
#[verifier::rlimit(100)]
fn settle_and_record(
    stats: &mut BacktestStats,
    open_lots: &mut Vec<OpenLot>,
    signal: &Signal,
    side: Side,
    fill_qty: Dec,
    fill_price: Dec,
    timestamp: i64,
)
    requires
        old(stats).wf(),
        old(stats).total_trades < usize::MAX,
        lots_wf(old(open_lots)@),
        fill_qty@ > 0,
        forall|j: int|
            0 <= j < old(stats).trades@.len() ==> ((#[trigger] old(stats).trades@[j]).side
                == Side::Sell ==> old(stats).trades@[j].pnl is Some),
        side == Side::Sell ==> spec_lot_of(old(open_lots)@, signal.symbol@) is Some,
    ensures
        final(stats).wf(),
        lots_wf(final(open_lots)@),
        forall|j: int|
            0 <= j < final(stats).trades@.len() ==> ((#[trigger] final(stats).trades@[j]).side
                == Side::Sell ==> final(stats).trades@[j].pnl is Some),
        final(stats).equity_curve@ == old(stats).equity_curve@,
        final(stats).bars_processed == old(stats).bars_processed,
        final(stats).initial_capital == old(stats).initial_capital,
{
    let pnl = settle_lot(open_lots, &signal.symbol, side, fill_qty, fill_price);
    let trade = TradeRecord {
        symbol: signal.symbol.clone(),
        side,
        quantity: fill_qty,
        price: fill_price,
        timestamp,
        signal_type: signal.signal_type,
        pnl,
    };
    stats.add_trade(trade);
}

/// Risk-check one surviving signal, submit and execute the resulting
/// order at the bar's close, settle the driver's lot ledger and record
/// the trade. Broker errors are swallowed. The caller has already applied
/// the duplicate-signal gate: a buy signal arrives only with no open lot
/// for the symbol, a sell or long-close only with one.
#[verifier::rlimit(100)]
fn execute_signal(
    broker: &mut PaperBroker,
    risk_manager: &RiskManager,
    stats: &mut BacktestStats,
    open_lots: &mut Vec<OpenLot>,
    signal: &Signal,
    close_bits: u64,
    timestamp: i64,
)
    requires
        old(broker).wf(),
        old(stats).wf(),
        lots_wf(old(open_lots)@),
        risk_manager.wf(),
        forall|j: int|
            0 <= j < old(stats).trades@.len() ==> ((#[trigger] old(stats).trades@[j]).side
                == Side::Sell ==> old(stats).trades@[j].pnl is Some),
        (signal.signal_type == SignalType::Sell || signal.signal_type == SignalType::CloseLong)
            ==> spec_lot_of(old(open_lots)@, signal.symbol@) is Some,
    ensures
        final(broker).wf(),
        final(stats).wf(),
        lots_wf(final(open_lots)@),
        forall|j: int|
            0 <= j < final(stats).trades@.len() ==> ((#[trigger] final(stats).trades@[j]).side
                == Side::Sell ==> final(stats).trades@[j].pnl is Some),
        final(stats).equity_curve@ == old(stats).equity_curve@,
        final(stats).bars_processed == old(stats).bars_processed,
        final(stats).initial_capital == old(stats).initial_capital,
{
    let current_price = bits_to_dec(close_bits);
    let portfolio = broker.portfolio_snapshot();
    if !portfolio.equity.is_zero() && broker.next_id < 0xFFFF_FFFF_FFFF_FFFFu64 {
        let decision = risk_manager.evaluate_signal(&portfolio, signal, current_price);
        let request_opt = match &decision {
            RiskDecision::Approved { order, .. } => Some(order),
            RiskDecision::Modified { order, .. } => Some(order),
            RiskDecision::Rejected { .. } => None,
        };
        if let Some(order_request) = request_opt {
            // Submission is infallible for the paper broker; execution
            // errors are swallowed (the bar is skipped).
            if let Ok(order) = broker.submit_order(order_request) {
                if stats.total_trades < usize::MAX {
                    let ghost pre_orders = broker.orders@;
                    if let Ok(filled) = broker.execute_at_price(order.id, current_price) {
                        proof {
                            // The executed order is the one just submitted:
                            // ids are distinct and the last entry carries
                            // this id, so the fill is for the requested
                            // market order and fills it in full.
                            let wi = choose|i: int|
                                0 <= i < pre_orders.len() && (#[trigger] pre_orders[i]).id
                                    == order.id;
                            assert(pre_orders.last().id == order.id);
                            assert(0 <= wi < pre_orders.len() && pre_orders[wi].id == order.id);
                            assert(wi == pre_orders.len() - 1);
                            assert(filled.filled_quantity@ == order_request.quantity@);
                            assert(filled.filled_quantity@ > 0);
                        }
                        let fill_price = match &filled.filled_avg_price {
                            Some(p) => *p,
                            None => current_price,
                        };
                        let fill_qty = filled.filled_quantity;
                        settle_and_record(
                            stats,
                            open_lots,
                            signal,
                            order_request.side,
                            fill_qty,
                            fill_price,
                            timestamp,
                        );
                    }
                }
            }
        }
    }
}


/// The closing price of every symbol that has a bar at this timestamp.
fn collect_prices_at(data: &Vec<(String, Vec<Bar>)>, timestamp: i64) -> (r: Vec<(String, Dec)>) {
    let mut prices: Vec<(String, Dec)> = Vec::new();
    let mut pi: usize = 0;
    while pi < data.len()
        invariant
            pi <= data@.len(),
        decreases data@.len() - pi,
    {
        let bars = &data[pi].1;
        let mut bj: usize = 0;
        while bj < bars.len()
            invariant
                bj <= bars@.len(),
                pi < data@.len(),
                bars@ == data@[pi as int].1@,
            decreases bars@.len() - bj,
        {
            if bars[bj].timestamp == timestamp {
                prices.push((data[pi].0.clone(), bits_to_dec(bars[bj].close)));
                break ;
            }
            bj += 1;
        }
        pi += 1;
    }
    prices
}

/// The first lot in the ledger whose symbol matches, if any.
pub open spec fn spec_lot_of(s: Seq<OpenLot>, sym: Seq<char>) -> Option<OpenLot>
    decreases s.len(),
{
    if s.len() == 0 {
        None
    } else if s[0].symbol@ == sym {
        Some(s[0])
    } else {
        spec_lot_of(s.subrange(1, s.len() as int), sym)
    }
}

/// The ledger invariant: one lot per symbol, every lot positive.
pub open spec fn lots_wf(s: Seq<OpenLot>) -> bool {
    &&& forall|i: int, j: int|
        0 <= i < j < s.len() ==> s[i].symbol@ != s[j].symbol@
    &&& forall|i: int| 0 <= i < s.len() ==> (#[trigger] s[i]).quantity@ > 0
}

/// If index `i` holds the first occurrence of `sym`, the first-match
/// search finds exactly that lot.
proof fn lemma_lot_of_found(s: Seq<OpenLot>, sym: Seq<char>, i: int)
    requires
        0 <= i < s.len(),
        s[i].symbol@ == sym,
        forall|j: int| 0 <= j < i ==> (#[trigger] s[j]).symbol@ != sym,
    ensures
        spec_lot_of(s, sym) == Some(s[i]),
    decreases s.len(),
{
    if i == 0 {
    } else {
        assert(s[0].symbol@ != sym);
        let t = s.subrange(1, s.len() as int);
        assert(t[i - 1] == s[i]);
        assert(forall|j: int| 0 <= j < i - 1 ==> #[trigger] t[j] == s[j + 1]);
        lemma_lot_of_found(t, sym, i - 1);
    }
}

/// If no lot matches, the first-match search finds nothing.
proof fn lemma_lot_of_missing(s: Seq<OpenLot>, sym: Seq<char>)
    requires
        forall|j: int| 0 <= j < s.len() ==> (#[trigger] s[j]).symbol@ != sym,
    ensures
        spec_lot_of(s, sym) is None,
    decreases s.len(),
{
    if s.len() == 0 {
    } else {
        let t = s.subrange(1, s.len() as int);
        assert(forall|j: int| 0 <= j < t.len() ==> #[trigger] t[j] == s[j + 1]);
        lemma_lot_of_missing(t, sym);
    }
}

/// A fruitless first-match search means no lot carries the symbol.
proof fn lemma_lot_of_none_all(s: Seq<OpenLot>, sym: Seq<char>)
    requires
        spec_lot_of(s, sym) is None,
    ensures
        forall|j: int| 0 <= j < s.len() ==> (#[trigger] s[j]).symbol@ != sym,
    decreases s.len(),
{
    if s.len() > 0 {
        let t = s.subrange(1, s.len() as int);
        lemma_lot_of_none_all(t, sym);
        assert(forall|j: int| 1 <= j < s.len() ==> s[j] == t[j - 1]);
    }
}

/// Replacing the lot at `i` by one carrying the same symbol leaves every
/// other symbol's first match as it was.
proof fn lemma_lot_of_update_other(s: Seq<OpenLot>, i: int, v: OpenLot, t: Seq<char>)
    requires
        0 <= i < s.len(),
        s[i].symbol@ == v.symbol@,
        v.symbol@ != t,
    ensures
        spec_lot_of(s.update(i, v), t) == spec_lot_of(s, t),
    decreases s.len(),
{
    let u = s.update(i, v);
    if i == 0 {
        assert(u.subrange(1, u.len() as int) =~= s.subrange(1, s.len() as int));
    } else {
        assert(u[0] == s[0]);
        assert(u.subrange(1, u.len() as int) =~= s.subrange(1, s.len() as int).update(
            i - 1,
            v,
        ));
        lemma_lot_of_update_other(s.subrange(1, s.len() as int), i - 1, v, t);
    }
}

/// Appending a lot of another symbol leaves a symbol's first match as it
/// was, when that symbol already had one.
proof fn lemma_lot_of_push_other(s: Seq<OpenLot>, v: OpenLot, t: Seq<char>)
    requires
        v.symbol@ != t,
    ensures
        spec_lot_of(s.push(v), t) == spec_lot_of(s, t),
    decreases s.len(),
{
    if s.len() == 0 {
        assert(s.push(v).len() == 1);
        assert(s.push(v)[0] == v);
        assert(s.push(v).subrange(1, 1) =~= Seq::<OpenLot>::empty());
        assert(spec_lot_of(Seq::<OpenLot>::empty(), t) is None);
    } else {
        assert(s.push(v)[0] == s[0]);
        assert(s.push(v).subrange(1, s.len() as int + 1) =~= s.subrange(1, s.len() as int).push(v));
        lemma_lot_of_push_other(s.subrange(1, s.len() as int), v, t);
    }
}

/// Removing the lot at `i` leaves every other symbol's first match as it
/// was, when symbols are distinct.
proof fn lemma_lot_of_remove_other(s: Seq<OpenLot>, i: int, t: Seq<char>)
    requires
        0 <= i < s.len(),
        s[i].symbol@ != t,
    ensures
        spec_lot_of(s.remove(i), t) == spec_lot_of(s, t),
    decreases s.len(),
{
    let u = s.remove(i);
    if i == 0 {
        assert(u =~= s.subrange(1, s.len() as int));
    } else {
        assert(u[0] == s[0]);
        assert(u.subrange(1, u.len() as int) =~= s.subrange(1, s.len() as int).remove(i - 1));
        lemma_lot_of_remove_other(s.subrange(1, s.len() as int), i - 1, t);
    }
}


/// The index of a symbol's open lot, if any.
fn find_lot(open_lots: &Vec<OpenLot>, symbol: &str) -> (r: Option<usize>)
    ensures
        match r {
            Some(i) => i < open_lots@.len() && open_lots@[i as int].symbol@ == symbol@
                && spec_lot_of(open_lots@, symbol@) == Some(open_lots@[i as int]),
            None => spec_lot_of(open_lots@, symbol@) is None,
        },
{
    proof {
        if open_lots@.len() == 0 {
        }
    }
    let mut i: usize = 0;
    while i < open_lots.len()
        invariant
            i <= open_lots@.len(),
            forall|j: int| 0 <= j < i ==> (#[trigger] open_lots@[j]).symbol@ != symbol@,
        decreases open_lots@.len() - i,
    {
        if crate::timeframe::str_eq(open_lots[i].symbol.as_str(), symbol) {
            proof {
                lemma_lot_of_found(open_lots@, symbol@, i as int);
            }
            return Some(i);
        }
        i += 1;
    }
    proof {
        lemma_lot_of_missing(open_lots@, symbol@);
    }
    None
}

/// Settle a fill against the driver's open-lot ledger. A buy opens a lot
/// at the fill price or folds into the existing one at the
/// quantity-weighted entry, and yields nothing. A sell against a lot
/// closes `min(fill, lot)` of it, yields the realized
/// `(price - entry) * closed` and removes an emptied lot; a sell without
/// a lot yields nothing and changes nothing. Other symbols' lots are
/// never touched.
#[verifier::rlimit(100)]
fn settle_lot(
    open_lots: &mut Vec<OpenLot>,
    symbol: &String,
    side: Side,
    fill_qty: Dec,
    fill_price: Dec,
) -> (r: Option<Dec>)
    requires
        lots_wf(old(open_lots)@),
        fill_qty@ > 0,
    ensures
        lots_wf(final(open_lots)@),
        forall|t: Seq<char>|
            t != symbol@ ==> #[trigger] spec_lot_of(final(open_lots)@, t) == spec_lot_of(
                old(open_lots)@,
                t,
            ),
        match side {
            Side::Buy => {
                &&& r is None
                &&& match spec_lot_of(old(open_lots)@, symbol@) {
                    Some(lot) => {
                        let newq = crate::fixed::d_add(lot.quantity@, fill_qty@);
                        match spec_lot_of(final(open_lots)@, symbol@) {
                            Some(nl) => nl.quantity@ == newq && nl.entry_price@
                                == crate::fixed::d_div(
                                crate::fixed::d_add(
                                    crate::fixed::d_mul(lot.entry_price@, lot.quantity@),
                                    crate::fixed::d_mul(fill_price@, fill_qty@),
                                ),
                                newq,
                            ),
                            None => false,
                        }
                    },
                    None => match spec_lot_of(final(open_lots)@, symbol@) {
                        Some(nl) => nl.quantity@ == fill_qty@ && nl.entry_price@
                            == fill_price@,
                        None => false,
                    },
                }
            },
            Side::Sell => match spec_lot_of(old(open_lots)@, symbol@) {
                Some(lot) => {
                    let close = crate::fixed::d_min(fill_qty@, lot.quantity@);
                    let remaining = crate::fixed::d_sub(lot.quantity@, close);
                    &&& r matches Some(p) && p@ == crate::fixed::d_mul(
                        crate::fixed::d_sub(fill_price@, lot.entry_price@),
                        close,
                    )
                    &&& if remaining <= 0 {
                        spec_lot_of(final(open_lots)@, symbol@) is None
                    } else {
                        match spec_lot_of(final(open_lots)@, symbol@) {
                            Some(nl) => nl.quantity@ == remaining && nl.entry_price@
                                == lot.entry_price@,
                            None => false,
                        }
                    }
                },
                None => r is None && final(open_lots)@ == old(open_lots)@,
            },
        },
{
    match side {
        Side::Buy => {
            // Opening or adding to a long lot at a weighted-average entry.
            match find_lot(open_lots, symbol.as_str()) {
                Some(i) => {
                    proof {
                        lemma_lot_of_found(open_lots@, symbol@, i as int);
                    }
                    let lot = &open_lots[i];
                    let new_qty = lot.quantity.add(&fill_qty);
                    assert(new_qty@ > 0);
                    let weighted = lot.entry_price.mul(&lot.quantity).add(
                        &fill_price.mul(&fill_qty),
                    );
                    let entry = weighted.div(&new_qty);
                    let updated = OpenLot {
                        symbol: symbol.clone(),
                        entry_price: entry,
                        quantity: new_qty,
                    };
                    open_lots[i] = updated;
                    proof {
                        lemma_lot_of_found(open_lots@, symbol@, i as int);
                        assert forall|t: Seq<char>| t != symbol@ implies #[trigger] spec_lot_of(
                            open_lots@,
                            t,
                        ) == spec_lot_of(old(open_lots)@, t) by {
                            lemma_lot_of_update_other(old(open_lots)@, i as int, updated, t);
                        }
                    }
                    None
                },
                None => {
                    proof {
                        lemma_lot_of_none_all(open_lots@, symbol@);
                    }
                    let fresh = OpenLot {
                        symbol: symbol.clone(),
                        entry_price: fill_price,
                        quantity: fill_qty,
                    };
                    let ghost pre = open_lots@;
                    open_lots.push(fresh);
                    proof {
                        lemma_lot_of_found(open_lots@, symbol@, pre.len() as int);
                        assert forall|t: Seq<char>| t != symbol@ implies #[trigger] spec_lot_of(
                            open_lots@,
                            t,
                        ) == spec_lot_of(pre, t) by {
                            lemma_lot_of_push_other(pre, fresh, t);
                        }
                    }
                    None
                },
            }
        },
        Side::Sell => {
            // Closing (or reducing) a long lot.
            match find_lot(open_lots, symbol.as_str()) {
                Some(i) => {
                    proof {
                        lemma_lot_of_found(open_lots@, symbol@, i as int);
                    }
                    let close_qty = fill_qty.min(&open_lots[i].quantity);
                    let trade_pnl = fill_price.sub(&open_lots[i].entry_price).mul(&close_qty);
                    let remaining = open_lots[i].quantity.sub(&close_qty);
                    if remaining.le(&Dec::zero()) {
                        let ghost pre = open_lots@;
                        open_lots.remove(i);
                        proof {
                            assert(forall|j: int|
                                0 <= j < open_lots@.len() ==> (
                                #[trigger] open_lots@[j]).symbol@ != symbol@);
                            lemma_lot_of_missing(open_lots@, symbol@);
                            assert forall|t: Seq<char>| t != symbol@ implies
                                #[trigger] spec_lot_of(open_lots@, t) == spec_lot_of(
                                pre,
                                t,
                            ) by {
                                lemma_lot_of_remove_other(pre, i as int, t);
                            }
                        }
                    } else {
                        let updated = OpenLot {
                            symbol: symbol.clone(),
                            entry_price: open_lots[i].entry_price,
                            quantity: remaining,
                        };
                        let ghost pre = open_lots@;
                        open_lots[i] = updated;
                        proof {
                            lemma_lot_of_found(open_lots@, symbol@, i as int);
                            assert forall|t: Seq<char>| t != symbol@ implies
                                #[trigger] spec_lot_of(open_lots@, t) == spec_lot_of(
                                pre,
                                t,
                            ) by {
                                lemma_lot_of_update_other(pre, i as int, updated, t);
                            }
                        }
                    }
                    Some(trade_pnl)
                },
                None => None,
            }
        },
    }
}

/// The close bits and timestamp of a symbol's last bar, if it has any.
fn last_close_of(data: &Vec<(String, Vec<Bar>)>, symbol: &str) -> (r: Option<(u64, i64)>) {
    let mut i: usize = 0;
    while i < data.len()
        invariant
            i <= data@.len(),
        decreases data@.len() - i,
    {
        if crate::timeframe::str_eq(data[i].0.as_str(), symbol) {
            let bars = &data[i].1;
            if bars.len() > 0 {
                let last = &bars[bars.len() - 1];
                return Some((last.close, last.timestamp));
            }
            return None;
        }
        i += 1;
    }
    None
}

} // verus!
