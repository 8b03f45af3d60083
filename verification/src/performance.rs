//! The performance of an agent: running sums that are updated one trade at a
//! time, and a variance-normalised score derived from them on demand.
//!
//! The score is the square of the mean return over the variance of the
//! returns. Both are kept as numerators over the square of the number of
//! trades, so nothing is divided and nothing is lost.

use vstd::prelude::*;
use crate::error::SentinelError;
use crate::pubkey::Pubkey;
use crate::state::{AgentProfile, BPS_DENOMINATOR};

verus! {

/// The score of an agent.
#[derive(Clone, Copy, Debug, PartialEq, Eq)]
pub struct Score {
    /// The square of the sum of the returns.
    pub numerator: u128,
    /// The variance numerator, or 1 where that is not positive.
    pub denominator: u128,
    /// Whether the mean return is not negative.
    pub mean_positive: bool,
    /// The share of winning trades, in basis points, rounded down.
    pub win_rate_bps: u64,
}

/// One reported trade.
pub struct Trade {
    /// The return of the trade, in basis points.
    pub pnl_bps: i64,
    /// Whether the trade counts as a win.
    pub is_win: bool,
    /// When the trade was reported.
    pub reported_at: i64,
}

/// The square of the sum of the returns: the mean squared, times the square
/// of the number of trades.
pub open spec fn mean_square_numerator(profile: AgentProfile) -> int {
    profile.sum_returns * profile.sum_returns
}

/// The number of trades times the sum of the squared returns, less the
/// square of the sum of the returns: the variance, times the square of the
/// number of trades.
pub open spec fn variance_numerator(profile: AgentProfile) -> int {
    profile.sum_sq_returns * profile.trade_count - profile.sum_returns * profile.sum_returns
}

/// The share of winning trades in basis points, rounded down.
pub open spec fn win_rate(profile: AgentProfile) -> int
    recommends
        profile.trade_count > 0,
{
    (profile.winning_trades * BPS_DENOMINATOR) / (profile.trade_count as int)
}

/// The profile after one more trade, or why the trade is refused: the agent
/// is inactive, or one of the sums would leave the width it is stored in.
pub open spec fn trade_outcome(profile: AgentProfile, pnl_bps: i64, is_win: bool, now: i64)
    -> Result<AgentProfile, SentinelError> {
    let wins = profile.winning_trades + if is_win {
        1int
    } else {
        0int
    };
    if !profile.is_active {
        Err(SentinelError::AgentInactive)
    } else if profile.trade_count + 1 > u32::MAX || wins > u32::MAX || !(i64::MIN
        <= profile.cumulative_pnl + pnl_bps <= i64::MAX) || !(i128::MIN <= profile.sum_returns
        + pnl_bps <= i128::MAX) || profile.sum_sq_returns + pnl_bps * pnl_bps > u128::MAX {
        Err(SentinelError::MathOverflow)
    } else {
        Ok(
            AgentProfile {
                trade_count: (profile.trade_count + 1) as u32,
                winning_trades: wins as u32,
                cumulative_pnl: (profile.cumulative_pnl + pnl_bps) as i64,
                sum_returns: (profile.sum_returns + pnl_bps) as i128,
                sum_sq_returns: (profile.sum_sq_returns + pnl_bps * pnl_bps) as u128,
                last_report_ts: now,
                ..profile
            },
        )
    }
}

/// The score of a profile, or why there is none: no trade was reported, or
/// a numerator does not fit the signed 128 bits it is computed in.
pub open spec fn score_outcome(profile: AgentProfile) -> Result<Score, SentinelError> {
    if profile.trade_count == 0 {
        Err(SentinelError::NoTradeData)
    } else if mean_square_numerator(profile) > i128::MAX || profile.sum_sq_returns
        * profile.trade_count > i128::MAX {
        Err(SentinelError::MathOverflow)
    } else {
        Ok(
            Score {
                numerator: mean_square_numerator(profile) as u128,
                denominator: if variance_numerator(profile) <= 0 {
                    1u128
                } else {
                    variance_numerator(profile) as u128
                },
                mean_positive: profile.sum_returns >= 0,
                win_rate_bps: win_rate(profile) as u64,
            },
        )
    }
}

proof fn lemma_square_bounds(x: int)
    requires
        i64::MIN <= x <= i64::MAX,
    ensures
        0 <= x * x <= 0x4000_0000_0000_0000_0000_0000_0000_0000,
{
    assert(0 <= x * x <= 0x4000_0000_0000_0000_0000_0000_0000_0000) by (nonlinear_arith)
        requires
            -0x8000_0000_0000_0000 <= x <= 0x7fff_ffff_ffff_ffff,
    ;
}

proof fn lemma_square_nonnegative(x: int)
    ensures
        x * x >= 0,
{
    assert(x * x >= 0) by (nonlinear_arith);
}

proof fn lemma_scaled_at_least(x: int, n: int)
    requires
        x >= 0,
        n >= 1,
    ensures
        x * n >= x,
{
    assert(x * n >= x) by (nonlinear_arith)
        requires
            x >= 0,
            n >= 1,
    ;
}

impl AgentProfile {
    /// Takes one trade into the running sums.
    ///
    /// Fails with `AgentInactive` for a deactivated agent and with
    /// `MathOverflow` if a sum would not fit; the profile is then unchanged.
    pub fn record_trade(&mut self, pnl_bps: i64, is_win: bool, now: i64) -> (r: Result<
        (),
        SentinelError,
    >)
        ensures
            match trade_outcome(*old(self), pnl_bps, is_win, now) {
                Ok(after) => r is Ok && *final(self) == after,
                Err(e) => r == Err::<(), SentinelError>(e) && *final(self) == *old(self),
            },
            old(self).wf() ==> final(self).wf(),
    {
        if !self.is_active {
            return Err(SentinelError::AgentInactive);
        }
        let trade_count: u32 = match self.trade_count.checked_add(1) {
            None => {
                return Err(SentinelError::MathOverflow);
            },
            Some(v) => v,
        };
        let winning_trades: u32 = if is_win {
            match self.winning_trades.checked_add(1) {
                None => {
                    return Err(SentinelError::MathOverflow);
                },
                Some(v) => v,
            }
        } else {
            self.winning_trades
        };
        let cumulative_pnl: i64 = match self.cumulative_pnl.checked_add(pnl_bps) {
            None => {
                return Err(SentinelError::MathOverflow);
            },
            Some(v) => v,
        };
        let sum_returns: i128 = match self.sum_returns.checked_add(pnl_bps as i128) {
            None => {
                return Err(SentinelError::MathOverflow);
            },
            Some(v) => v,
        };
        proof {
            lemma_square_bounds(pnl_bps as int);
        }
        let square: i128 = (pnl_bps as i128) * (pnl_bps as i128);
        let sum_sq_returns: u128 = match self.sum_sq_returns.checked_add(square as u128) {
            None => {
                return Err(SentinelError::MathOverflow);
            },
            Some(v) => v,
        };
        self.trade_count = trade_count;
        self.winning_trades = winning_trades;
        self.cumulative_pnl = cumulative_pnl;
        self.sum_returns = sum_returns;
        self.sum_sq_returns = sum_sq_returns;
        self.last_report_ts = now;
        Ok(())
    }

    /// Derives the score from the running sums.
    ///
    /// Fails with `NoTradeData` before the first trade and with
    /// `MathOverflow` if a numerator does not fit signed 128 bits.
    pub fn score(&self) -> (r: Result<Score, SentinelError>)
        ensures
            r == score_outcome(*self),
            r matches Ok(score) ==> score.denominator >= 1,
            r matches Ok(score) ==> (self.wf() ==> score.win_rate_bps <= BPS_DENOMINATOR),
    {
        if self.trade_count == 0 {
            return Err(SentinelError::NoTradeData);
        }
        let n: i128 = self.trade_count as i128;
        proof {
            lemma_square_nonnegative(self.sum_returns as int);
        }
        let mean_sq_num: i128 = match self.sum_returns.checked_mul(self.sum_returns) {
            None => {
                return Err(SentinelError::MathOverflow);
            },
            Some(v) => v,
        };
        if self.sum_sq_returns > i128::MAX as u128 {
            proof {
                lemma_scaled_at_least(self.sum_sq_returns as int, self.trade_count as int);
            }
            return Err(SentinelError::MathOverflow);
        }
        let sum_sq: i128 = self.sum_sq_returns as i128;
        proof {
            assert(sum_sq * n >= 0) by (nonlinear_arith)
                requires
                    sum_sq >= 0,
                    n >= 0,
            ;
        }
        let scaled: i128 = match sum_sq.checked_mul(n) {
            None => {
                return Err(SentinelError::MathOverflow);
            },
            Some(v) => v,
        };
        let var_num: i128 = scaled - mean_sq_num;
        proof {
            assert(self.winning_trades * BPS_DENOMINATOR <= 0xffff_ffff * 10_000)
                by (nonlinear_arith)
                requires
                    self.winning_trades <= 0xffff_ffff,
                    BPS_DENOMINATOR == 10_000,
            ;
            if self.wf() {
                assert((self.winning_trades * BPS_DENOMINATOR) / (self.trade_count as int)
                    <= BPS_DENOMINATOR) by (nonlinear_arith)
                    requires
                        self.winning_trades <= self.trade_count,
                        self.trade_count > 0,
                        BPS_DENOMINATOR == 10_000,
                ;
            }
        }
        let win_rate_bps: u64 = (self.winning_trades as u64) * BPS_DENOMINATOR / (
        self.trade_count as u64);
        let denominator: u128 = if var_num <= 0 {
            1u128
        } else {
            var_num as u128
        };
        Ok(
            Score {
                numerator: mean_sq_num as u128,
                denominator,
                mean_positive: self.sum_returns >= 0,
                win_rate_bps,
            },
        )
    }
}

/// The profile after the trades `trades`, reported in order, or the reason
/// for which the first of them that is refused is refused.
pub open spec fn profile_after_trades(profile: AgentProfile, trades: Seq<Trade>) -> Result<
    AgentProfile,
    SentinelError,
>
    decreases trades.len(),
{
    if trades.len() == 0 {
        Ok(profile)
    } else {
        match profile_after_trades(profile, trades.drop_last()) {
            Err(e) => Err(e),
            Ok(before) => trade_outcome(
                before,
                trades.last().pnl_bps,
                trades.last().is_win,
                trades.last().reported_at,
            ),
        }
    }
}

/// The sum of the returns of `trades`.
pub open spec fn sum_of_returns(trades: Seq<Trade>) -> int
    decreases trades.len(),
{
    if trades.len() == 0 {
        0
    } else {
        sum_of_returns(trades.drop_last()) + trades.last().pnl_bps
    }
}

/// The sum of the squared returns of `trades`.
pub open spec fn sum_of_squared_returns(trades: Seq<Trade>) -> int
    decreases trades.len(),
{
    if trades.len() == 0 {
        0
    } else {
        sum_of_squared_returns(trades.drop_last()) + trades.last().pnl_bps * trades.last().pnl_bps
    }
}

/// The number of wins among `trades`.
pub open spec fn number_of_wins(trades: Seq<Trade>) -> int
    decreases trades.len(),
{
    if trades.len() == 0 {
        0
    } else {
        number_of_wins(trades.drop_last()) + if trades.last().is_win {
            1int
        } else {
            0int
        }
    }
}

/// The running sums hold the whole history: once `trades` have been
/// recorded, the profile counts them, their wins, and the sums of their
/// returns and of the squares of their returns, on top of what it held
/// before. Nothing else but the time of the last report has changed, and
/// there are still no more wins than trades.
pub proof fn lemma_running_sums(profile: AgentProfile, trades: Seq<Trade>)
    requires
        profile_after_trades(profile, trades) is Ok,
    ensures
        ({
            let after = profile_after_trades(profile, trades)->Ok_0;
            &&& after.trade_count == profile.trade_count + trades.len()
            &&& after.winning_trades == profile.winning_trades + number_of_wins(trades)
            &&& after.cumulative_pnl == profile.cumulative_pnl + sum_of_returns(trades)
            &&& after.sum_returns == profile.sum_returns + sum_of_returns(trades)
            &&& after.sum_sq_returns == profile.sum_sq_returns + sum_of_squared_returns(trades)
            &&& after.agent == profile.agent
            &&& after.vault == profile.vault
            &&& after.total_rewards_earned == profile.total_rewards_earned
            &&& after.is_active == profile.is_active
            &&& profile.wf() ==> after.wf()
            &&& 0 <= number_of_wins(trades) <= trades.len()
        }),
    decreases trades.len(),
{
    if trades.len() > 0 {
        lemma_running_sums(profile, trades.drop_last());
        lemma_square_nonnegative(trades.last().pnl_bps as int);
    }
}

proof fn lemma_sums_of_identical_returns(trades: Seq<Trade>, pnl_bps: i64)
    requires
        forall|i: int| 0 <= i < trades.len() ==> (#[trigger] trades[i]).pnl_bps == pnl_bps,
    ensures
        sum_of_returns(trades) == trades.len() * pnl_bps,
        sum_of_squared_returns(trades) == trades.len() * (pnl_bps * pnl_bps),
    decreases trades.len(),
{
    if trades.len() > 0 {
        let rest = trades.drop_last();
        assert forall|i: int| 0 <= i < rest.len() implies (#[trigger] rest[i]).pnl_bps
            == pnl_bps by {
            assert(rest[i] == trades[i]);
        }
        lemma_sums_of_identical_returns(rest, pnl_bps);
        let n = rest.len() as int;
        let p = pnl_bps as int;
        assert(trades.last().pnl_bps == pnl_bps);
        assert(n * p + p == (n + 1) * p) by (nonlinear_arith);
        assert(n * (p * p) + p * p == (n + 1) * (p * p)) by (nonlinear_arith);
    }
}

/// An agent whose returns are all the same has a score, with the
/// denominator 1 for its variance of zero. The numerators always fit: the
/// sum of the returns was recorded in 64 bits.
pub proof fn lemma_identical_returns_score(
    agent: Pubkey,
    vault: Pubkey,
    trades: Seq<Trade>,
    pnl_bps: i64,
)
    requires
        trades.len() > 0,
        forall|i: int| 0 <= i < trades.len() ==> (#[trigger] trades[i]).pnl_bps == pnl_bps,
        profile_after_trades(AgentProfile::fresh(agent, vault), trades) is Ok,
    ensures
        ({
            let after = profile_after_trades(AgentProfile::fresh(agent, vault), trades)->Ok_0;
            &&& variance_numerator(after) == 0
            &&& score_outcome(after) is Ok
            &&& score_outcome(after)->Ok_0.denominator == 1
            &&& score_outcome(after)->Ok_0.numerator == (trades.len() * pnl_bps) * (trades.len()
                * pnl_bps)
        }),
{
    let fresh = AgentProfile::fresh(agent, vault);
    let after = profile_after_trades(fresh, trades)->Ok_0;
    lemma_running_sums(fresh, trades);
    lemma_sums_of_identical_returns(trades, pnl_bps);
    let n = trades.len() as int;
    let p = pnl_bps as int;
    assert((n * (p * p)) * n == (n * p) * (n * p)) by (nonlinear_arith);
    assert(after.sum_sq_returns * after.trade_count == (n * p) * (n * p));
    assert(after.sum_returns * after.sum_returns == (n * p) * (n * p));
    assert(after.cumulative_pnl == n * p);
    lemma_square_bounds(n * p);
}

} // verus!
