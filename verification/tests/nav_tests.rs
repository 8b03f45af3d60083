use solana_sentinel::nav::{agent_carve_out, amount_for_withdrawal, shares_for_deposit};
use solana_sentinel::SentinelError;

#[test]
fn first_deposit_mints_one_share_per_unit() {
    assert_eq!(shares_for_deposit(1_000_000, 0, 0), Ok(1_000_000));
}

#[test]
fn deposit_into_drained_pool_mints_one_share_per_unit() {
    assert_eq!(shares_for_deposit(25_000, 700, 0), Ok(25_000));
}

#[test]
fn deposit_with_balance_but_no_shares_mints_one_share_per_unit() {
    assert_eq!(shares_for_deposit(25_000, 0, 9_999), Ok(25_000));
}

#[test]
fn deposit_at_par_mints_proportionally() {
    assert_eq!(shares_for_deposit(500_000, 1_000_000, 1_000_000), Ok(500_000));
}

#[test]
fn deposit_rounds_shares_down() {
    // 10 * 3 / 7 = 4.28...
    assert_eq!(shares_for_deposit(10, 3, 7), Ok(4));
    // 100_000 * 1_500_000 / 1_650_000 = 90_909.09...
    assert_eq!(shares_for_deposit(100_000, 1_500_000, 1_650_000), Ok(90_909));
}

#[test]
fn dust_deposit_is_rejected() {
    assert_eq!(shares_for_deposit(10_000, 1, 1_000_000_000), Err(SentinelError::ZeroShares));
    assert_eq!(shares_for_deposit(0, 0, 0), Err(SentinelError::ZeroShares));
}

#[test]
fn deposit_that_would_not_fit_overflows() {
    assert_eq!(shares_for_deposit(10_000, u64::MAX, 1), Err(SentinelError::MathOverflow));
    assert_eq!(shares_for_deposit(2, u64::MAX, 2), Ok(u64::MAX));
}

#[test]
fn deposit_uses_wide_intermediate() {
    // The product does not fit 64 bits, the quotient does.
    assert_eq!(shares_for_deposit(u64::MAX, u64::MAX, u64::MAX), Ok(u64::MAX));
    assert_eq!(
        shares_for_deposit(4_000_000_000_000, 9_000_000_000_000, 6_000_000_000_000),
        Ok(6_000_000_000_000)
    );
}

#[test]
fn withdrawal_pays_proportional_value() {
    assert_eq!(amount_for_withdrawal(500_000, 1_500_000, 1_650_000), Ok(550_000));
}

#[test]
fn withdrawal_rounds_down() {
    // 1 * 2_999 / 2 = 1_499.5
    assert_eq!(amount_for_withdrawal(1, 2, 2_999), Ok(1_499));
}

#[test]
fn withdrawal_that_rounds_to_nothing_is_rejected() {
    assert_eq!(amount_for_withdrawal(1, 1_000, 999), Err(SentinelError::ZeroAmount));
    assert_eq!(amount_for_withdrawal(5, 10, 0), Err(SentinelError::ZeroAmount));
}

#[test]
fn withdrawal_without_shares_outstanding_overflows() {
    assert_eq!(amount_for_withdrawal(5, 0, 100), Err(SentinelError::MathOverflow));
}

#[test]
fn withdrawal_that_would_not_fit_overflows() {
    assert_eq!(amount_for_withdrawal(u64::MAX, 1, 2), Err(SentinelError::MathOverflow));
    assert_eq!(amount_for_withdrawal(u64::MAX, 2, 2), Ok(u64::MAX));
}

#[test]
fn carve_out_is_floor_of_basis_points() {
    assert_eq!(agent_carve_out(150_000, 0), Ok(0));
    assert_eq!(agent_carve_out(150_000, 1_000), Ok(15_000));
    assert_eq!(agent_carve_out(9_999, 3_000), Ok(2_999));
    assert_eq!(agent_carve_out(u64::MAX, 3_000), Ok(5_534_023_222_112_865_484));
}

#[test]
fn carve_out_above_thirty_percent_is_rejected() {
    assert_eq!(agent_carve_out(150_000, 3_001), Err(SentinelError::FeeTooHigh));
    assert_eq!(agent_carve_out(150_000, u16::MAX), Err(SentinelError::FeeTooHigh));
    assert_eq!(agent_carve_out(150_000, 3_000), Ok(45_000));
}

#[test]
fn round_trip_never_returns_more_than_was_put_in() {
    let total_shares: u64 = 1;
    let pool_balance: u64 = 1_000;
    let amount: u64 = 1_999;
    let shares: u64 = shares_for_deposit(amount, total_shares, pool_balance).unwrap();
    assert_eq!(shares, 1);
    let back: u64 =
        amount_for_withdrawal(shares, total_shares + shares, pool_balance + amount).unwrap();
    assert_eq!(back, 1_499);
    assert!(back <= amount);
    // The loss stays below one unit more than a share was worth.
    let after: u128 = (total_shares + shares) as u128;
    assert!(((amount - back) as u128) * after < pool_balance as u128 + after);
}

#[test]
fn round_trip_at_par_loses_less_than_the_shares_outstanding() {
    let total_shares: u64 = 1_000_000;
    let pool_balance: u64 = 1_000_003;
    let amount: u64 = 12_345;
    let shares: u64 = shares_for_deposit(amount, total_shares, pool_balance).unwrap();
    assert_eq!(shares, 12_344);
    let back: u64 =
        amount_for_withdrawal(shares, total_shares + shares, pool_balance + amount).unwrap();
    assert_eq!(back, 12_344);
    assert!(amount - back < total_shares + shares);
}

#[test]
fn profit_never_lowers_the_value_of_shares() {
    let before: u64 = amount_for_withdrawal(333, 1_000, 10_000).unwrap();
    let after: u64 = amount_for_withdrawal(333, 1_000, 10_001).unwrap();
    assert_eq!(before, 3_330);
    assert_eq!(after, 3_330);
    let much_later: u64 = amount_for_withdrawal(333, 1_000, 11_000).unwrap();
    assert_eq!(much_later, 3_663);
}
