//! Backtest report generation.

use vstd::prelude::*;
use vstd::string::StringExecFns;

use crate::backtest::engine::BacktestConfig;
use crate::backtest::statistics::BacktestStats;
use crate::fmt::{
    dec_to_string, dec_to_string_2dp, i64_to_string, spec_dec_string, spec_i64_string,
    u64_to_string,
};
use crate::position::Portfolio;

verus! {

/// Complete backtest report: the run configuration, the statistics, and
/// the final portfolio state.
#[derive(Debug)]
pub struct BacktestReport {
    /// Configuration used
    pub config: BacktestConfig,
    /// Statistics
    pub stats: BacktestStats,
    /// Final portfolio state
    pub final_portfolio: Portfolio,
}

/// The equity-curve lines after the header: one `timestamp,equity` line
/// per point, in curve order.
pub open spec fn spec_equity_lines(curve: Seq<(i64, crate::fixed::Dec)>) -> Seq<char>
    decreases curve.len(),
{
    if curve.len() == 0 {
        Seq::empty()
    } else {
        spec_equity_lines(curve.drop_last()) + spec_i64_string(curve.last().0 as int) + seq![',']
            + spec_dec_string(curve.last().1@) + seq!['\n']
    }
}

/// The report header.
pub open spec fn spec_summary_header() -> Seq<char> {
    "BACKTEST REPORT\n===============\n\n"@
}

/// The performance section: capital, equity, returns and drawdown.
pub open spec fn spec_performance_section(stats: BacktestStats) -> Seq<char> {
    "PERFORMANCE\n  Initial Capital:   $"@ + crate::fmt::spec_dec_string_2dp(
        stats.initial_capital@,
    ) + "\n  Final Equity:      $"@ + crate::fmt::spec_dec_string_2dp(stats.final_equity@)
        + "\n  Total Return:      "@ + crate::fmt::spec_dec_string_2dp(stats.total_return_pct@)
        + "%\n  Annualized Return: "@ + crate::fmt::spec_dec_string_2dp(
        stats.annualized_return_pct@,
    ) + "%\n  Max Drawdown:      "@ + crate::fmt::spec_dec_string_2dp(stats.max_drawdown_pct@)
        + "%\n\n"@
}

/// The risk-metrics section: Sharpe, Sortino and the profit factor.
pub open spec fn spec_risk_section(stats: BacktestStats) -> Seq<char> {
    "RISK METRICS\n  Sharpe Ratio:      "@ + crate::fmt::spec_dec_string_2dp(
        stats.sharpe_ratio@,
    ) + "\n  Sortino Ratio:     "@ + crate::fmt::spec_dec_string_2dp(stats.sortino_ratio@)
        + "\n  Profit Factor:     "@ + crate::fmt::spec_dec_string_2dp(stats.profit_factor@)
        + "\n\n"@
}

/// The trade-statistics section: counts, win rate and averages.
pub open spec fn spec_trade_section(stats: BacktestStats) -> Seq<char> {
    "TRADE STATISTICS\n  Total Trades:      "@ + crate::fmt::spec_u64_string(
        stats.total_trades as int,
    ) + "\n  Winning Trades:    "@ + crate::fmt::spec_u64_string(stats.winning_trades as int)
        + "\n  Losing Trades:     "@ + crate::fmt::spec_u64_string(stats.losing_trades as int)
        + "\n  Win Rate:          "@ + crate::fmt::spec_dec_string_2dp(stats.win_rate_pct@)
        + "%\n  Avg Win:           $"@ + crate::fmt::spec_dec_string_2dp(stats.avg_win@)
        + "\n  Avg Loss:          $"@ + crate::fmt::spec_dec_string_2dp(stats.avg_loss@)
        + "\n\n"@
}

/// The execution section: bars processed and equity points.
pub open spec fn spec_execution_section(stats: BacktestStats) -> Seq<char> {
    "EXECUTION\n  Bars Processed:    "@ + crate::fmt::spec_u64_string(
        stats.bars_processed as int,
    ) + "\n  Equity Points:     "@ + crate::fmt::spec_u64_string(
        stats.equity_curve@.len() as int,
    ) + "\n"@
}

/// The whole text summary: header, performance, risk metrics, trade
/// statistics and execution, in that order.
pub open spec fn spec_summary(stats: BacktestStats) -> Seq<char> {
    spec_summary_header() + spec_performance_section(stats) + spec_risk_section(stats)
        + spec_trade_section(stats) + spec_execution_section(stats)
}

impl BacktestReport {
    /// Generate a human-readable text summary of the run: exactly
    /// [`spec_summary`] of the statistics.
    pub fn summary(&self) -> (r: String)
        ensures
            r@ == spec_summary(self.stats),
            r@.len() > 0,
    {
        let mut s = String::new();
        proof {
            reveal_strlit("BACKTEST REPORT\n===============\n\n");
        }
        s.append("BACKTEST REPORT\n===============\n\n");
        s.append(performance_section(&self.stats).as_str());
        s.append(risk_section(&self.stats).as_str());
        s.append(trade_section(&self.stats).as_str());
        s.append(execution_section(&self.stats).as_str());
        proof {
            assert(spec_summary_header().len() > 0) by {
                reveal_strlit("BACKTEST REPORT\n===============\n\n");
            }
            assert(s@ =~= spec_summary(self.stats));
        }
        s
    }

    /// Export the equity curve as CSV with the header `timestamp,equity`:
    /// exactly one line per recorded point, in order.
    pub fn equity_to_csv(&self) -> (r: String)
        ensures
            r@ == "timestamp,equity\n"@ + spec_equity_lines(self.stats.equity_curve@),
    {
        proof {
            reveal_strlit("timestamp,equity\n");
            reveal_strlit(",");
            reveal_strlit("\n");
        }
        let mut csv = String::new();
        csv.append("timestamp,equity\n");
        let mut i: usize = 0;
        while i < self.stats.equity_curve.len()
            invariant
                i <= self.stats.equity_curve@.len(),
                csv@ == "timestamp,equity\n"@ + spec_equity_lines(
                    self.stats.equity_curve@.take(i as int),
                ),
            decreases self.stats.equity_curve@.len() - i,
        {
            proof {
                reveal_strlit(",");
                reveal_strlit("\n");
                assert(self.stats.equity_curve@.take(i + 1 as int).drop_last()
                    =~= self.stats.equity_curve@.take(i as int));
            }
            let (ts, equity) = self.stats.equity_curve[i];
            csv.append(i64_to_string(ts).as_str());
            csv.append(",");
            csv.append(dec_to_string(&equity).as_str());
            csv.append("\n");
            proof {
                assert(","@ =~= seq![',']);
                assert("\n"@ =~= seq!['\n']);
                assert(csv@ =~= "timestamp,equity\n"@ + spec_equity_lines(
                    self.stats.equity_curve@.take(i + 1 as int),
                ));
            }
            i += 1;
        }
        proof {
            assert(self.stats.equity_curve@.take(self.stats.equity_curve@.len() as int)
                =~= self.stats.equity_curve@);
        }
        csv
    }
}


/// Build the performance section.
#[verifier::rlimit(100)]
fn performance_section(stats: &BacktestStats) -> (r: String)
    ensures
        r@ == spec_performance_section(*stats),
{
    proof {
        reveal_strlit("PERFORMANCE\n  Initial Capital:   $");
        reveal_strlit("\n  Final Equity:      $");
        reveal_strlit("\n  Total Return:      ");
        reveal_strlit("%\n  Annualized Return: ");
        reveal_strlit("%\n  Max Drawdown:      ");
        reveal_strlit("%\n\n");
    }
    let mut s = String::new();
    s.append("PERFORMANCE\n  Initial Capital:   $");
    s.append(dec_to_string_2dp(&stats.initial_capital).as_str());
    s.append("\n  Final Equity:      $");
    s.append(dec_to_string_2dp(&stats.final_equity).as_str());
    s.append("\n  Total Return:      ");
    s.append(dec_to_string_2dp(&stats.total_return_pct).as_str());
    s.append("%\n  Annualized Return: ");
    s.append(dec_to_string_2dp(&stats.annualized_return_pct).as_str());
    s.append("%\n  Max Drawdown:      ");
    s.append(dec_to_string_2dp(&stats.max_drawdown_pct).as_str());
    s.append("%\n\n");
    proof {
        assert(s@ =~= spec_performance_section(*stats));
    }
    s
}

/// Build the risk-metrics section.
#[verifier::rlimit(100)]
fn risk_section(stats: &BacktestStats) -> (r: String)
    ensures
        r@ == spec_risk_section(*stats),
{
    proof {
        reveal_strlit("RISK METRICS\n  Sharpe Ratio:      ");
        reveal_strlit("\n  Sortino Ratio:     ");
        reveal_strlit("\n  Profit Factor:     ");
        reveal_strlit("\n\n");
    }
    let mut s = String::new();
    s.append("RISK METRICS\n  Sharpe Ratio:      ");
    s.append(dec_to_string_2dp(&stats.sharpe_ratio).as_str());
    s.append("\n  Sortino Ratio:     ");
    s.append(dec_to_string_2dp(&stats.sortino_ratio).as_str());
    s.append("\n  Profit Factor:     ");
    s.append(dec_to_string_2dp(&stats.profit_factor).as_str());
    s.append("\n\n");
    proof {
        assert(s@ =~= spec_risk_section(*stats));
    }
    s
}

/// Build the trade-statistics section.
#[verifier::rlimit(100)]
fn trade_section(stats: &BacktestStats) -> (r: String)
    ensures
        r@ == spec_trade_section(*stats),
{
    proof {
        reveal_strlit("TRADE STATISTICS\n  Total Trades:      ");
        reveal_strlit("\n  Winning Trades:    ");
        reveal_strlit("\n  Losing Trades:     ");
        reveal_strlit("\n  Win Rate:          ");
        reveal_strlit("%\n  Avg Win:           $");
        reveal_strlit("\n  Avg Loss:          $");
        reveal_strlit("\n\n");
    }
    let mut s = String::new();
    s.append("TRADE STATISTICS\n  Total Trades:      ");
    s.append(u64_to_string(stats.total_trades as u64).as_str());
    s.append("\n  Winning Trades:    ");
    s.append(u64_to_string(stats.winning_trades as u64).as_str());
    s.append("\n  Losing Trades:     ");
    s.append(u64_to_string(stats.losing_trades as u64).as_str());
    s.append("\n  Win Rate:          ");
    s.append(dec_to_string_2dp(&stats.win_rate_pct).as_str());
    s.append("%\n  Avg Win:           $");
    s.append(dec_to_string_2dp(&stats.avg_win).as_str());
    s.append("\n  Avg Loss:          $");
    s.append(dec_to_string_2dp(&stats.avg_loss).as_str());
    s.append("\n\n");
    proof {
        assert(s@ =~= spec_trade_section(*stats));
    }
    s
}

/// Build the execution section.
#[verifier::rlimit(100)]
fn execution_section(stats: &BacktestStats) -> (r: String)
    ensures
        r@ == spec_execution_section(*stats),
{
    proof {
        reveal_strlit("EXECUTION\n  Bars Processed:    ");
        reveal_strlit("\n  Equity Points:     ");
        reveal_strlit("\n");
    }
    let mut s = String::new();
    s.append("EXECUTION\n  Bars Processed:    ");
    s.append(u64_to_string(stats.bars_processed as u64).as_str());
    s.append("\n  Equity Points:     ");
    s.append(u64_to_string(stats.equity_curve.len() as u64).as_str());
    s.append("\n");
    proof {
        assert(s@ =~= spec_execution_section(*stats));
    }
    s
}

} // verus!
