use solana_sentinel::performance::Score;
use solana_sentinel::{
    query_agent_score, register_agent, report_trade, initialize, deactivate_agent, AgentProfile,
    AgentScoreComputed, Pubkey, SentinelError, TradeReported, Vault,
};

fn perf_key(n: u8) -> Pubkey {
    Pubkey::new_from_array([n; 32])
}

fn perf_vault() -> Vault {
    initialize(perf_key(1), perf_key(2), perf_key(3), 0, 0, 254, 253).0
}

fn perf_profile() -> AgentProfile {
    let mut vault = perf_vault();
    register_agent(&mut vault, perf_key(9), perf_key(1), perf_key(7)).unwrap().0
}

#[test]
fn fresh_profile_is_active_and_zeroed() {
    let profile = perf_profile();
    assert_eq!(
        profile,
        AgentProfile {
            agent: perf_key(7),
            vault: perf_key(9),
            trade_count: 0,
            winning_trades: 0,
            cumulative_pnl: 0,
            sum_returns: 0,
            sum_sq_returns: 0,
            total_rewards_earned: 0,
            last_report_ts: 0,
            is_active: true,
        }
    );
}

#[test]
fn record_trade_updates_the_four_running_sums() {
    let mut profile = perf_profile();
    assert_eq!(profile.record_trade(150, true, 1_000), Ok(()));
    assert_eq!(profile.record_trade(-40, false, 1_010), Ok(()));
    assert_eq!(profile.trade_count, 2);
    assert_eq!(profile.winning_trades, 1);
    assert_eq!(profile.cumulative_pnl, 110);
    assert_eq!(profile.sum_returns, 110);
    assert_eq!(profile.sum_sq_returns, 150 * 150 + 40 * 40);
    assert_eq!(profile.last_report_ts, 1_010);
    assert!(profile.is_active);
}

#[test]
fn losing_trade_marked_as_win_still_counts_as_win() {
    let mut profile = perf_profile();
    assert_eq!(profile.record_trade(-5, true, 1), Ok(()));
    assert_eq!(profile.winning_trades, 1);
    assert_eq!(profile.cumulative_pnl, -5);
}

#[test]
fn inactive_agent_cannot_record() {
    let mut profile = perf_profile();
    profile.is_active = false;
    let before = profile;
    assert_eq!(profile.record_trade(10, true, 5), Err(SentinelError::AgentInactive));
    assert_eq!(profile, before);
}

#[test]
fn record_trade_overflow_leaves_profile_unchanged() {
    let mut profile = perf_profile();
    profile.trade_count = u32::MAX;
    let before = profile;
    assert_eq!(profile.record_trade(10, false, 5), Err(SentinelError::MathOverflow));
    assert_eq!(profile, before);

    let mut profile = perf_profile();
    profile.trade_count = 5;
    profile.winning_trades = u32::MAX;
    let before = profile;
    assert_eq!(profile.record_trade(10, true, 5), Err(SentinelError::MathOverflow));
    assert_eq!(profile, before);
    assert_eq!(profile.record_trade(10, false, 5), Ok(()));

    let mut profile = perf_profile();
    profile.cumulative_pnl = i64::MAX;
    let before = profile;
    assert_eq!(profile.record_trade(1, true, 5), Err(SentinelError::MathOverflow));
    assert_eq!(profile, before);
    assert_eq!(profile.record_trade(-1, true, 5), Ok(()));

    let mut profile = perf_profile();
    profile.sum_returns = i128::MIN;
    let before = profile;
    assert_eq!(profile.record_trade(-1, true, 5), Err(SentinelError::MathOverflow));
    assert_eq!(profile, before);

    let mut profile = perf_profile();
    profile.sum_sq_returns = u128::MAX - 99;
    let before = profile;
    assert_eq!(profile.record_trade(10, true, 5), Err(SentinelError::MathOverflow));
    assert_eq!(profile, before);
    assert_eq!(profile.record_trade(9, true, 5), Ok(()));
    assert_eq!(profile.sum_sq_returns, u128::MAX - 18);
}

#[test]
fn extreme_returns_are_squared_without_overflow() {
    let mut profile = perf_profile();
    assert_eq!(profile.record_trade(i64::MIN, false, 5), Ok(()));
    assert_eq!(profile.sum_sq_returns, 1u128 << 126);
    assert_eq!(profile.sum_returns, i64::MIN as i128);
    assert_eq!(profile.record_trade(i64::MAX, true, 6), Ok(()));
    assert_eq!(profile.sum_returns, -1);
    assert_eq!(profile.cumulative_pnl, -1);
}

#[test]
fn three_identical_wins_score() {
    let mut profile = perf_profile();
    for _ in 0..3 {
        assert_eq!(profile.record_trade(100, true, 50), Ok(()));
    }
    assert_eq!(profile.sum_returns, 300);
    assert_eq!(profile.sum_sq_returns, 30_000);
    // mean = 300 / 3 = 100; variance numerator = 30_000 * 3 - 300 * 300 = 0.
    assert_eq!(
        profile.score(),
        Ok(Score { numerator: 90_000, denominator: 1, mean_positive: true, win_rate_bps: 10_000 })
    );
    assert_eq!(
        query_agent_score(&profile, perf_key(9)),
        Ok(AgentScoreComputed {
            agent: perf_key(7),
            trade_count: 3,
            win_rate_bps: 10_000,
            cumulative_pnl: 300,
            score_numerator: 90_000,
            score_denominator: 1,
            mean_positive: true,
        })
    );
}

#[test]
fn identical_losses_floor_the_denominator_to_one() {
    let mut profile = perf_profile();
    for _ in 0..5 {
        assert_eq!(profile.record_trade(-20, false, 50), Ok(()));
    }
    assert_eq!(
        profile.score(),
        Ok(Score { numerator: 10_000, denominator: 1, mean_positive: false, win_rate_bps: 0 })
    );
}

#[test]
fn single_trade_has_denominator_one() {
    let mut profile = perf_profile();
    assert_eq!(profile.record_trade(0, false, 50), Ok(()));
    assert_eq!(
        profile.score(),
        Ok(Score { numerator: 0, denominator: 1, mean_positive: true, win_rate_bps: 0 })
    );
}

#[test]
fn score_of_varied_returns() {
    let mut profile = perf_profile();
    assert_eq!(profile.record_trade(100, true, 1), Ok(()));
    assert_eq!(profile.record_trade(200, true, 2), Ok(()));
    assert_eq!(profile.record_trade(-50, false, 3), Ok(()));
    // sum = 250, squares = 10_000 + 40_000 + 2_500 = 52_500
    // numerator = 62_500; denominator = 52_500 * 3 - 62_500 = 95_000
    // win rate = 2 * 10_000 / 3 = 6_666
    assert_eq!(
        profile.score(),
        Ok(Score {
            numerator: 62_500,
            denominator: 95_000,
            mean_positive: true,
            win_rate_bps: 6_666
        })
    );
}

#[test]
fn score_without_trades_fails() {
    let profile = perf_profile();
    assert_eq!(profile.score(), Err(SentinelError::NoTradeData));
    assert_eq!(query_agent_score(&profile, perf_key(9)), Err(SentinelError::NoTradeData));
}

#[test]
fn score_overflows_when_the_square_of_the_sum_does_not_fit() {
    // Sums like these cannot come from recorded trades; they can be stored.
    let mut profile = perf_profile();
    profile.trade_count = 3;
    profile.sum_returns = 3 * (1i128 << 62);
    profile.sum_sq_returns = 3 * (1u128 << 124);
    assert_eq!(profile.score(), Err(SentinelError::MathOverflow));
}

#[test]
fn running_sum_of_returns_stays_within_64_bits() {
    let mut profile = perf_profile();
    assert_eq!(profile.record_trade(1i64 << 62, true, 50), Ok(()));
    let before = profile;
    assert_eq!(profile.record_trade(1i64 << 62, true, 51), Err(SentinelError::MathOverflow));
    assert_eq!(profile, before);
}

#[test]
fn identical_extreme_returns_still_score() {
    let mut profile = perf_profile();
    assert_eq!(profile.record_trade(i64::MIN, false, 50), Ok(()));
    assert_eq!(
        profile.score(),
        Ok(Score { numerator: 1u128 << 126, denominator: 1, mean_positive: false, win_rate_bps: 0 })
    );
    let mut profile = perf_profile();
    for _ in 0..4 {
        assert_eq!(profile.record_trade(1i64 << 60, true, 50), Ok(()));
    }
    assert_eq!(
        profile.score(),
        Ok(Score {
            numerator: 1u128 << 124,
            denominator: 1,
            mean_positive: true,
            win_rate_bps: 10_000
        })
    );
}

#[test]
fn score_overflows_when_the_scaled_squares_do_not_fit() {
    let mut profile = perf_profile();
    assert_eq!(profile.record_trade(i64::MAX, true, 50), Ok(()));
    assert_eq!(profile.record_trade(-i64::MAX, false, 51), Ok(()));
    assert_eq!(profile.sum_returns, 0);
    // 2 * (2^63 - 1)^2 fits, twice that does not.
    assert_eq!(profile.score(), Err(SentinelError::MathOverflow));
}

#[test]
fn score_overflows_when_the_squares_leave_the_signed_range() {
    let mut profile = perf_profile();
    profile.trade_count = 1;
    profile.sum_sq_returns = (i128::MAX as u128) + 1;
    assert_eq!(profile.score(), Err(SentinelError::MathOverflow));
    profile.sum_sq_returns = i128::MAX as u128;
    assert_eq!(
        profile.score(),
        Ok(Score {
            numerator: 0,
            denominator: i128::MAX as u128,
            mean_positive: true,
            win_rate_bps: 0
        })
    );
}

#[test]
fn score_at_the_largest_square_that_fits() {
    let mut profile = perf_profile();
    profile.trade_count = 1;
    profile.sum_returns = 13_043_817_825_332_782_212;
    assert_eq!(
        profile.score().map(|s| s.numerator),
        Ok(170_141_183_460_469_231_722_567_801_800_623_612_944)
    );
    profile.sum_returns = -13_043_817_825_332_782_212;
    assert_eq!(profile.score().map(|s| s.mean_positive), Ok(false));
    profile.sum_returns = 13_043_817_825_332_782_213;
    assert_eq!(profile.score(), Err(SentinelError::MathOverflow));
}

#[test]
fn report_trade_needs_the_oracle_and_the_right_vault() {
    let vault = perf_vault();
    let mut profile = perf_profile();
    let before = profile;
    assert_eq!(
        report_trade(&vault, &mut profile, perf_key(9), perf_key(2), 10, true, 5),
        Err(SentinelError::Unauthorized)
    );
    assert_eq!(
        report_trade(&vault, &mut profile, perf_key(8), perf_key(3), 10, true, 5),
        Err(SentinelError::Unauthorized)
    );
    assert_eq!(profile, before);
    assert_eq!(
        report_trade(&vault, &mut profile, perf_key(9), perf_key(3), 10, true, 5),
        Ok(TradeReported {
            agent: perf_key(7),
            pnl_bps: 10,
            is_win: true,
            trade_count: 1,
            cumulative_pnl: 10
        })
    );
    assert_eq!(profile.last_report_ts, 5);
}

#[test]
fn report_trade_is_not_held_up_by_a_pause() {
    let mut vault = perf_vault();
    vault.is_paused = true;
    let mut profile = perf_profile();
    assert!(report_trade(&vault, &mut profile, perf_key(9), perf_key(3), -10, false, 5).is_ok());
    assert_eq!(profile.cumulative_pnl, -10);
}

#[test]
fn deactivated_agent_keeps_history_and_refuses_reports() {
    let vault = perf_vault();
    let mut profile = perf_profile();
    assert!(report_trade(&vault, &mut profile, perf_key(9), perf_key(3), 25, true, 5).is_ok());
    let before = profile;
    assert!(deactivate_agent(&vault, &mut profile, perf_key(9), perf_key(1)).is_ok());
    assert_eq!(profile, AgentProfile { is_active: false, ..before });
    assert_eq!(
        report_trade(&vault, &mut profile, perf_key(9), perf_key(3), 25, true, 6),
        Err(SentinelError::AgentInactive)
    );
    // The history can still be scored.
    assert_eq!(query_agent_score(&profile, perf_key(9)).map(|e| e.score_numerator), Ok(625));
}

#[test]
fn query_agent_score_needs_the_right_vault() {
    let mut profile = perf_profile();
    assert_eq!(profile.record_trade(10, true, 5), Ok(()));
    assert_eq!(query_agent_score(&profile, perf_key(8)), Err(SentinelError::Unauthorized));
}
