//! Backtest statistics.

use vstd::prelude::*;

use crate::fixed::{abs_i, d_add, d_div, d_max, d_mul, d_sub, Dec};
use crate::order::Side;
use crate::position::Portfolio;
use crate::signal::SignalType;

verus! {

/// Record of a single trade. Closing legs carry the realized P&L.
#[derive(Debug, PartialEq)]
pub struct TradeRecord {
    /// Symbol traded
    pub symbol: String,
    /// Side of the executed order
    pub side: Side,
    /// Quantity filled
    pub quantity: Dec,
    /// Fill price
    pub price: Dec,
    /// Fill timestamp, epoch milliseconds
    pub timestamp: i64,
    /// The signal type that triggered the trade
    pub signal_type: SignalType,
    /// Realized P&L for closing legs
    pub pnl: Option<Dec>,
}

impl Clone for TradeRecord {
    /// An exact copy.
    fn clone(&self) -> (r: Self)
        ensures
            r == *self,
    {
        TradeRecord {
            symbol: self.symbol.clone(),
            side: self.side,
            quantity: self.quantity,
            price: self.price,
            timestamp: self.timestamp,
            signal_type: self.signal_type,
            pnl: self.pnl,
        }
    }
}

/// How many trades carry a strictly positive P&L.
pub open spec fn count_wins(s: Seq<TradeRecord>) -> int
    decreases s.len(),
{
    if s.len() == 0 {
        0
    } else {
        count_wins(s.drop_last()) + match s.last().pnl {
            Some(p) => if p@ > 0 {
                1int
            } else {
                0int
            },
            None => 0int,
        }
    }
}

/// How many trades carry a strictly negative P&L.
pub open spec fn count_losses(s: Seq<TradeRecord>) -> int
    decreases s.len(),
{
    if s.len() == 0 {
        0
    } else {
        count_losses(s.drop_last()) + match s.last().pnl {
            Some(p) => if p@ < 0 {
                1int
            } else {
                0int
            },
            None => 0int,
        }
    }
}

/// The winning P&Ls summed left to right in saturating fixed-point.
pub open spec fn sum_wins(s: Seq<TradeRecord>) -> int
    decreases s.len(),
{
    if s.len() == 0 {
        0
    } else {
        let rest = sum_wins(s.drop_last());
        match s.last().pnl {
            Some(p) => if p@ > 0 {
                d_add(rest, p@)
            } else {
                rest
            },
            None => rest,
        }
    }
}

/// The absolute losing P&Ls summed left to right.
pub open spec fn sum_losses(s: Seq<TradeRecord>) -> int
    decreases s.len(),
{
    if s.len() == 0 {
        0
    } else {
        let rest = sum_losses(s.drop_last());
        match s.last().pnl {
            Some(p) => if p@ < 0 {
                d_add(rest, abs_i(p@))
            } else {
                rest
            },
            None => rest,
        }
    }
}

/// Backtest statistics. All money statistics are exact fixed-point. The
/// annualized return and the Sharpe and Sortino ratios need floating-point
/// powers and square roots, so they are computed outside the verified core
/// from the recorded equity curve and daily returns and written back
/// through [`BacktestStats::set_risk_adjusted`]; until then they hold the
/// zeros `new` put there.
#[derive(Debug, PartialEq)]
pub struct BacktestStats {
    /// Initial capital
    pub initial_capital: Dec,
    /// Final equity
    pub final_equity: Dec,
    /// Total return percentage
    pub total_return_pct: Dec,
    /// Annualized return percentage (computed outside the verified core)
    pub annualized_return_pct: Dec,
    /// Maximum drawdown percentage
    pub max_drawdown_pct: Dec,
    /// Sharpe ratio (computed outside the verified core)
    pub sharpe_ratio: Dec,
    /// Sortino ratio (computed outside the verified core)
    pub sortino_ratio: Dec,
    /// Total number of trades
    pub total_trades: usize,
    /// Number of winning trades
    pub winning_trades: usize,
    /// Number of losing trades
    pub losing_trades: usize,
    /// Win rate percentage
    pub win_rate_pct: Dec,
    /// Average profit per winning trade
    pub avg_win: Dec,
    /// Average loss per losing trade
    pub avg_loss: Dec,
    /// Profit factor (gross profit / gross loss)
    pub profit_factor: Dec,
    /// Number of bars processed
    pub bars_processed: usize,
    /// Equity curve: (timestamp, equity)
    pub equity_curve: Vec<(i64, Dec)>,
    /// All trades
    pub trades: Vec<TradeRecord>,
    /// Peak equity (for drawdown)
    pub peak_equity: Dec,
    /// Daily returns as exact ratios, for the risk-adjusted metrics
    pub daily_returns: Vec<Dec>,
}

impl BacktestStats {
    /// The running invariant: one equity point per processed bar, one
    /// trade record per counted trade, and the peak equity never lags any
    /// recorded equity.
    pub open spec fn wf(self) -> bool {
        &&& self.bars_processed == self.equity_curve@.len()
        &&& self.total_trades == self.trades@.len()
        &&& forall|i: int|
            0 <= i < self.equity_curve@.len() ==> self.peak_equity@ >= (
            #[trigger] self.equity_curve@[i]).1@
    }

    /// Create new stats tracker.
    pub fn new(initial_capital: Dec) -> (r: BacktestStats)
        ensures
            r.wf(),
            r.initial_capital == initial_capital,
            r.final_equity == initial_capital,
            r.total_return_pct@ == 0,
            r.max_drawdown_pct@ == 0,
            r.total_trades == 0,
            r.bars_processed == 0,
            r.equity_curve@.len() == 0,
            r.trades@.len() == 0,
            r.peak_equity == initial_capital,
            r.daily_returns@.len() == 0,
    {
        BacktestStats {
            initial_capital,
            final_equity: initial_capital,
            total_return_pct: Dec::zero(),
            annualized_return_pct: Dec::zero(),
            max_drawdown_pct: Dec::zero(),
            sharpe_ratio: Dec::zero(),
            sortino_ratio: Dec::zero(),
            total_trades: 0,
            winning_trades: 0,
            losing_trades: 0,
            win_rate_pct: Dec::zero(),
            avg_win: Dec::zero(),
            avg_loss: Dec::zero(),
            profit_factor: Dec::zero(),
            bars_processed: 0,
            equity_curve: Vec::new(),
            trades: Vec::new(),
            peak_equity: initial_capital,
            daily_returns: Vec::new(),
        }
    }

    /// Record equity at a timestamp: append to the curve, track the daily
    /// return against the previous point, ratchet the peak, and keep the
    /// worst drawdown from the running peak.
    pub fn record_equity(&mut self, timestamp: i64, equity: Dec)
        requires
            old(self).wf(),
            old(self).bars_processed < usize::MAX,
        ensures
            final(self).wf(),
            final(self).equity_curve@ == old(self).equity_curve@.push((timestamp, equity)),
            final(self).bars_processed == old(self).bars_processed + 1,
            final(self).peak_equity@ == d_max(old(self).peak_equity@, equity@),
            final(self).max_drawdown_pct@ == if final(self).peak_equity@ > 0 {
                d_max(
                    old(self).max_drawdown_pct@,
                    d_mul(
                        d_div(d_sub(final(self).peak_equity@, equity@), final(self).peak_equity@),
                        100000000,
                    ),
                )
            } else {
                old(self).max_drawdown_pct@
            },
            final(self).trades@ == old(self).trades@,
            final(self).total_trades == old(self).total_trades,
            ({
                let has_ret = old(self).equity_curve@.len() > 0 && old(
                    self,
                ).equity_curve@.last().1@ > 0;
                &&& final(self).daily_returns@.len() == old(self).daily_returns@.len() + (
                if has_ret {
                    1int
                } else {
                    0int
                })
                &&& forall|j: int|
                    0 <= j < old(self).daily_returns@.len() ==> final(self).daily_returns@[j]
                        == old(self).daily_returns@[j]
                &&& has_ret ==> final(self).daily_returns@.last()@ == d_div(
                    d_sub(equity@, old(self).equity_curve@.last().1@),
                    old(self).equity_curve@.last().1@,
                )
            }),
            final(self).initial_capital == old(self).initial_capital,
            final(self).final_equity == old(self).final_equity,
    {
        // Track daily return
        if self.equity_curve.len() > 0 {
            let prev_equity = self.equity_curve[self.equity_curve.len() - 1].1;
            if prev_equity.gt(&Dec::zero()) {
                let ret = equity.sub(&prev_equity).div(&prev_equity);
                self.daily_returns.push(ret);
            }
        }

        self.equity_curve.push((timestamp, equity));

        // Update peak and drawdown
        if equity.gt(&self.peak_equity) {
            self.peak_equity = equity;
        }

        if self.peak_equity.gt(&Dec::zero()) {
            let drawdown = self.peak_equity.sub(&equity).div(&self.peak_equity).mul(
                &Dec::hundred(),
            );
            if drawdown.gt(&self.max_drawdown_pct) {
                self.max_drawdown_pct = drawdown;
            }
        }

        self.bars_processed = self.bars_processed + 1;
    }

    /// Add a trade record.
    pub fn add_trade(&mut self, trade: TradeRecord)
        requires
            old(self).wf(),
            old(self).total_trades < usize::MAX,
        ensures
            final(self).wf(),
            final(self).trades@ == old(self).trades@.push(trade),
            final(self).total_trades == old(self).total_trades + 1,
            final(self).equity_curve@ == old(self).equity_curve@,
            final(self).bars_processed == old(self).bars_processed,
            final(self).peak_equity == old(self).peak_equity,
            final(self).max_drawdown_pct == old(self).max_drawdown_pct,
            final(self).daily_returns@ == old(self).daily_returns@,
            final(self).initial_capital == old(self).initial_capital,
    {
        self.trades.push(trade);
        self.total_trades = self.total_trades + 1;
    }

    /// Calculate the final statistics from the trade ledger and the final
    /// portfolio: total return over the initial capital, win and loss
    /// counts, win rate, average win and loss, and profit factor (zero
    /// when there are no losses). The annualized return and the Sharpe
    /// and Sortino ratios are untouched here: they need floating-point
    /// arithmetic, so callers compute them outside the verified core and
    /// record them with [`BacktestStats::set_risk_adjusted`].
    pub fn finalize(&mut self, portfolio: &Portfolio)
        requires
            old(self).wf(),
        ensures
            final(self).wf(),
            final(self).final_equity == portfolio.equity,
            final(self).total_return_pct@ == if old(self).initial_capital@ > 0 {
                d_mul(
                    d_div(
                        d_sub(portfolio.equity@, old(self).initial_capital@),
                        old(self).initial_capital@,
                    ),
                    100000000,
                )
            } else {
                0
            },
            final(self).winning_trades == count_wins(old(self).trades@),
            final(self).losing_trades == count_losses(old(self).trades@),
            final(self).win_rate_pct@ == if old(self).trades@.len() > 0 {
                d_div(
                    crate::fixed::d_clip(count_wins(old(self).trades@) * 100000000),
                    crate::fixed::d_clip(old(self).trades@.len() as int * 1000000),
                )
            } else {
                0
            },
            final(self).avg_win@ == if count_wins(old(self).trades@) > 0 {
                d_div(
                    sum_wins(old(self).trades@),
                    crate::fixed::d_clip(count_wins(old(self).trades@) * 1000000),
                )
            } else {
                0
            },
            final(self).avg_loss@ == if count_losses(old(self).trades@) > 0 {
                d_div(
                    sum_losses(old(self).trades@),
                    crate::fixed::d_clip(count_losses(old(self).trades@) * 1000000),
                )
            } else {
                0
            },
            final(self).profit_factor@ == if sum_losses(old(self).trades@) > 0 {
                d_div(sum_wins(old(self).trades@), sum_losses(old(self).trades@))
            } else {
                0
            },
            final(self).equity_curve@ == old(self).equity_curve@,
            final(self).trades@ == old(self).trades@,
            final(self).bars_processed == old(self).bars_processed,
            final(self).max_drawdown_pct == old(self).max_drawdown_pct,
            final(self).annualized_return_pct == old(self).annualized_return_pct,
            final(self).sharpe_ratio == old(self).sharpe_ratio,
            final(self).sortino_ratio == old(self).sortino_ratio,
            final(self).daily_returns@ == old(self).daily_returns@,
    {
        self.final_equity = portfolio.equity;

        // Total return
        if self.initial_capital.gt(&Dec::zero()) {
            self.total_return_pct = self.final_equity.sub(&self.initial_capital).div(
                &self.initial_capital,
            ).mul(&Dec::hundred());
        } else {
            self.total_return_pct = Dec::zero();
        }

        // Trade statistics
        let mut total_profit = Dec::zero();
        let mut total_loss = Dec::zero();
        let mut winning: usize = 0;
        let mut losing: usize = 0;

        let mut i: usize = 0;
        while i < self.trades.len()
            invariant
                i <= self.trades@.len(),
                winning == count_wins(self.trades@.take(i as int)),
                losing == count_losses(self.trades@.take(i as int)),
                total_profit@ == sum_wins(self.trades@.take(i as int)),
                total_loss@ == sum_losses(self.trades@.take(i as int)),
                winning <= i,
                losing <= i,
            decreases self.trades@.len() - i,
        {
            proof {
                assert(self.trades@.take(i + 1 as int).drop_last() =~= self.trades@.take(
                    i as int,
                ));
            }
            if let Some(pnl) = &self.trades[i].pnl {
                if pnl.gt(&Dec::zero()) {
                    winning = winning + 1;
                    total_profit = total_profit.add(pnl);
                } else if pnl.lt(&Dec::zero()) {
                    losing = losing + 1;
                    total_loss = total_loss.add(&pnl.abs());
                }
            }
            i += 1;
        }
        proof {
            assert(self.trades@.take(self.trades@.len() as int) =~= self.trades@);
        }

        self.winning_trades = winning;
        self.losing_trades = losing;

        // Win rate
        if self.trades.len() > 0 {
            let w = Dec::from_micro((winning as i128) * 100_000_000);
            let t = Dec::from_micro((self.trades.len() as i128) * 1_000_000);
            self.win_rate_pct = w.div(&t);
        } else {
            self.win_rate_pct = Dec::zero();
        }

        // Average win/loss
        if winning > 0 {
            self.avg_win = total_profit.div(&Dec::from_micro((winning as i128) * 1_000_000));
        } else {
            self.avg_win = Dec::zero();
        }
        if losing > 0 {
            self.avg_loss = total_loss.div(&Dec::from_micro((losing as i128) * 1_000_000));
        } else {
            self.avg_loss = Dec::zero();
        }

        // Profit factor
        if total_loss.gt(&Dec::zero()) {
            self.profit_factor = total_profit.div(&total_loss);
        } else {
            self.profit_factor = Dec::zero();
        }

    }

    /// Record the risk-adjusted metrics. Their formulas need
    /// floating-point powers and square roots, so they are computed
    /// outside the verified core from the equity curve and the daily
    /// returns this tracker recorded; everything else stays as it is.
    pub fn set_risk_adjusted(&mut self, annualized_return_pct: Dec, sharpe: Dec, sortino: Dec)
        requires
            old(self).wf(),
        ensures
            final(self).wf(),
            final(self).annualized_return_pct == annualized_return_pct,
            final(self).sharpe_ratio == sharpe,
            final(self).sortino_ratio == sortino,
            final(self).equity_curve@ == old(self).equity_curve@,
            final(self).trades@ == old(self).trades@,
            final(self).daily_returns@ == old(self).daily_returns@,
            final(self).bars_processed == old(self).bars_processed,
            final(self).total_trades == old(self).total_trades,
            final(self).initial_capital == old(self).initial_capital,
            final(self).final_equity == old(self).final_equity,
            final(self).total_return_pct == old(self).total_return_pct,
            final(self).max_drawdown_pct == old(self).max_drawdown_pct,
            final(self).peak_equity == old(self).peak_equity,
            final(self).winning_trades == old(self).winning_trades,
            final(self).losing_trades == old(self).losing_trades,
            final(self).win_rate_pct == old(self).win_rate_pct,
            final(self).avg_win == old(self).avg_win,
            final(self).avg_loss == old(self).avg_loss,
            final(self).profit_factor == old(self).profit_factor,
    {
        self.annualized_return_pct = annualized_return_pct;
        self.sharpe_ratio = sharpe;
        self.sortino_ratio = sortino;
    }
}

} // verus!
