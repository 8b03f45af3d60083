//! Net-asset-value accounting: the exchange between value and shares.
//!
//! A share is a proportional claim on the pool. Both directions of the
//! exchange round down, so rounding always favours the pool.

use vstd::prelude::*;
use crate::error::SentinelError;
use crate::state::{BPS_DENOMINATOR, MAX_AGENT_FEE_BPS};

verus! {

/// The shares that `amount` buys from a pool of `pool_balance` with
/// `total_shares` outstanding: one share per unit while the pool has no
/// shares or no balance, else the proportional number, rounded down.
pub open spec fn minted_shares(amount: nat, total_shares: nat, pool_balance: nat) -> nat {
    if total_shares == 0 || pool_balance == 0 {
        amount
    } else {
        (amount * total_shares) / pool_balance
    }
}

/// The value that `shares` are worth in a pool of `pool_balance` with
/// `total_shares` outstanding, rounded down.
pub open spec fn redeemed_amount(shares: nat, total_shares: nat, pool_balance: nat) -> nat
    recommends
        total_shares > 0,
{
    (shares * pool_balance) / total_shares
}

/// The part of `amount` that `fee_bps` basis points carve out, rounded down.
pub open spec fn carve_out(amount: nat, fee_bps: nat) -> nat {
    (amount * fee_bps) / (BPS_DENOMINATOR as nat)
}

/// What a depositor gets back who deposits `amount` and at once redeems the
/// shares that it bought.
pub open spec fn round_trip(amount: nat, total_shares: nat, pool_balance: nat) -> nat {
    let shares = minted_shares(amount, total_shares, pool_balance);
    redeemed_amount(shares, total_shares + shares, pool_balance + amount)
}

proof fn lemma_floor_div(x: nat, d: nat)
    requires
        d > 0,
    ensures
        (x / d) * d <= x < (x / d + 1) * d,
{
    assert((x / d) * d <= x < (x / d + 1) * d) by (nonlinear_arith)
        requires
            d > 0,
    ;
}

proof fn lemma_div_le(x: nat, y: nat, d: nat)
    requires
        d > 0,
        x <= y * d,
    ensures
        x / d <= y,
{
    assert(x / d <= y) by (nonlinear_arith)
        requires
            d > 0,
            x <= y * d,
    ;
}

proof fn lemma_product_fits(a: u64, b: u64)
    ensures
        a * b <= u128::MAX,
{
    assert(a * b <= 0xffff_ffff_ffff_ffff * 0xffff_ffff_ffff_ffff) by (nonlinear_arith)
        requires
            0 <= a <= 0xffff_ffff_ffff_ffff,
            0 <= b <= 0xffff_ffff_ffff_ffff,
    ;
}

/// The outcome of buying shares for `amount`: the shares minted, unless
/// they do not fit 64 bits or round down to nothing.
pub open spec fn deposit_quote(amount: u64, total_shares: u64, pool_balance: u64) -> Result<
    u64,
    SentinelError,
> {
    let shares = minted_shares(amount as nat, total_shares as nat, pool_balance as nat);
    if shares > u64::MAX {
        Err(SentinelError::MathOverflow)
    } else if shares == 0 {
        Err(SentinelError::ZeroShares)
    } else {
        Ok(shares as u64)
    }
}

/// The outcome of burning `shares_burned`: the value paid out, unless no
/// shares are outstanding, or the value does not fit 64 bits or rounds down
/// to nothing.
pub open spec fn withdrawal_quote(shares_burned: u64, total_shares: u64, pool_balance: u64)
    -> Result<u64, SentinelError> {
    let amount = redeemed_amount(shares_burned as nat, total_shares as nat, pool_balance as nat);
    if total_shares == 0 || amount > u64::MAX {
        Err(SentinelError::MathOverflow)
    } else if amount == 0 {
        Err(SentinelError::ZeroAmount)
    } else {
        Ok(amount as u64)
    }
}

/// The outcome of carving an agent's reward out of a profit of `amount`:
/// the reward, unless the fee is above the maximum.
pub open spec fn carve_out_quote(amount: u64, fee_bps: u16) -> Result<u64, SentinelError> {
    if fee_bps > MAX_AGENT_FEE_BPS {
        Err(SentinelError::FeeTooHigh)
    } else {
        Ok(carve_out(amount as nat, fee_bps as nat) as u64)
    }
}

/// Computes the shares that a deposit of `amount` buys.
///
/// Fails with `MathOverflow` if the number does not fit 64 bits and with
/// `ZeroShares` if it rounds down to nothing.
pub fn shares_for_deposit(amount: u64, total_shares: u64, pool_balance: u64) -> (r: Result<
    u64,
    SentinelError,
>)
    ensures
        r == deposit_quote(amount, total_shares, pool_balance),
{
    let shares: u64 = if total_shares == 0 || pool_balance == 0 {
        amount
    } else {
        proof {
            lemma_product_fits(amount, total_shares);
        }
        let numerator: u128 = (amount as u128) * (total_shares as u128);
        let quotient: u128 = numerator / (pool_balance as u128);
        if quotient > u64::MAX as u128 {
            return Err(SentinelError::MathOverflow);
        }
        quotient as u64
    };
    if shares == 0 {
        return Err(SentinelError::ZeroShares);
    }
    Ok(shares)
}

/// Computes the value that is paid out for burning `shares_burned`.
///
/// Fails with `MathOverflow` if no shares are outstanding or the value does
/// not fit 64 bits, and with `ZeroAmount` if it rounds down to nothing.
pub fn amount_for_withdrawal(shares_burned: u64, total_shares: u64, pool_balance: u64) -> (r:
    Result<u64, SentinelError>)
    ensures
        r == withdrawal_quote(shares_burned, total_shares, pool_balance),
{
    if total_shares == 0 {
        return Err(SentinelError::MathOverflow);
    }
    proof {
        lemma_product_fits(shares_burned, pool_balance);
    }
    let numerator: u128 = (shares_burned as u128) * (pool_balance as u128);
    let quotient: u128 = numerator / (total_shares as u128);
    if quotient > u64::MAX as u128 {
        return Err(SentinelError::MathOverflow);
    }
    if quotient == 0 {
        return Err(SentinelError::ZeroAmount);
    }
    Ok(quotient as u64)
}

/// Computes the part of a profit of `amount` that is set aside for an agent.
///
/// Fails with `FeeTooHigh` if `fee_bps` is above the maximum carve-out.
pub fn agent_carve_out(amount: u64, fee_bps: u16) -> (r: Result<u64, SentinelError>)
    ensures
        r == carve_out_quote(amount, fee_bps),
        r matches Ok(reward) ==> reward <= amount,
{
    if fee_bps > MAX_AGENT_FEE_BPS {
        return Err(SentinelError::FeeTooHigh);
    }
    proof {
        lemma_product_fits(amount, fee_bps as u64);
        lemma_carve_out_bounded(amount as nat, fee_bps as nat);
    }
    let numerator: u128 = (amount as u128) * (fee_bps as u128);
    let reward: u128 = numerator / (BPS_DENOMINATOR as u128);
    Ok(reward as u64)
}

/// A carve-out of at most the whole never exceeds the amount.
pub proof fn lemma_carve_out_bounded(amount: nat, fee_bps: nat)
    requires
        fee_bps <= BPS_DENOMINATOR,
    ensures
        carve_out(amount, fee_bps) <= amount,
{
    assert(amount * fee_bps <= amount * 10_000) by (nonlinear_arith)
        requires
            fee_bps <= 10_000,
    ;
    lemma_div_le(amount * fee_bps, amount, 10_000);
}

/// Minting rounds in the pool's favour: the shares minted are the largest
/// number whose proportional value does not exceed the deposit.
pub proof fn lemma_minted_shares_bounds(amount: nat, total_shares: nat, pool_balance: nat)
    requires
        total_shares > 0,
        pool_balance > 0,
    ensures
        minted_shares(amount, total_shares, pool_balance) * pool_balance <= amount * total_shares,
        amount * total_shares < (minted_shares(amount, total_shares, pool_balance) + 1)
            * pool_balance,
{
    lemma_floor_div(amount * total_shares, pool_balance);
}

/// Redeeming rounds in the pool's favour: the value paid out is the largest
/// amount that does not exceed the proportional claim of the shares.
pub proof fn lemma_redeemed_amount_bounds(shares: nat, total_shares: nat, pool_balance: nat)
    requires
        total_shares > 0,
    ensures
        redeemed_amount(shares, total_shares, pool_balance) * total_shares <= shares
            * pool_balance,
        shares * pool_balance < (redeemed_amount(shares, total_shares, pool_balance) + 1)
            * total_shares,
{
    lemma_floor_div(shares * pool_balance, total_shares);
}

/// A deposit that is redeemed at once never returns more than was put in,
/// unless the pool held a balance that no share had a claim on.
pub proof fn lemma_round_trip_never_gains(amount: nat, total_shares: nat, pool_balance: nat)
    requires
        total_shares > 0 || pool_balance == 0,
        minted_shares(amount, total_shares, pool_balance) > 0,
    ensures
        round_trip(amount, total_shares, pool_balance) <= amount,
{
    let s = minted_shares(amount, total_shares, pool_balance);
    if total_shares > 0 && pool_balance > 0 {
        lemma_minted_shares_bounds(amount, total_shares, pool_balance);
        assert(s * (pool_balance + amount) <= amount * (total_shares + s)) by (nonlinear_arith)
            requires
                s * pool_balance <= amount * total_shares,
        ;
    } else {
        assert(s == amount);
        assert(s * (pool_balance + amount) <= amount * (total_shares + s)) by (nonlinear_arith)
            requires
                s == amount,
                pool_balance == 0,
        ;
    }
    lemma_div_le(s * (pool_balance + amount), amount, total_shares + s);
}

/// What a deposit that is redeemed at once loses to rounding.
///
/// Where the pool had shares and a balance, the loss times the shares then
/// outstanding is less than the balance before the deposit plus those
/// shares: the loss is less than one unit more than what one share was
/// worth. The loss is less than the number of shares then outstanding
/// exactly when the last clause's inequality holds, and in particular
/// where a share was worth less than that number less one.
pub proof fn lemma_round_trip_loss_bound(amount: nat, total_shares: nat, pool_balance: nat)
    requires
        total_shares > 0 || pool_balance == 0,
        minted_shares(amount, total_shares, pool_balance) > 0,
    ensures
        round_trip(amount, total_shares, pool_balance) <= amount,
        ({
            let after = total_shares + minted_shares(amount, total_shares, pool_balance);
            let loss = amount - round_trip(amount, total_shares, pool_balance);
            &&& total_shares > 0 && pool_balance > 0 ==> loss * after < pool_balance + after
            &&& pool_balance + after <= after * after ==> loss < after
            &&& loss < after <==> (amount + 1 - after) * after <= minted_shares(
                amount,
                total_shares,
                pool_balance,
            ) * (pool_balance + amount)
        }),
{
    lemma_round_trip_never_gains(amount, total_shares, pool_balance);
    let s = minted_shares(amount, total_shares, pool_balance);
    let after = total_shares + s;
    let back = round_trip(amount, total_shares, pool_balance);
    let loss = amount - back;
    lemma_redeemed_amount_bounds(s, after, pool_balance + amount);
    assert(loss < after <==> (amount + 1 - after) * after <= s * (pool_balance + amount))
        by (nonlinear_arith)
        requires
            back * after <= s * (pool_balance + amount),
            s * (pool_balance + amount) < (back + 1) * after,
            after > 0,
            loss == amount - back,
    ;
    if total_shares > 0 && pool_balance > 0 {
        lemma_minted_shares_bounds(amount, total_shares, pool_balance);
        assert(loss * after < pool_balance + after) by (nonlinear_arith)
            requires
                amount * total_shares < (s + 1) * pool_balance,
                s * (pool_balance + amount) < (back + 1) * after,
                after == total_shares + s,
                loss == amount - back,
        ;
        if pool_balance + after <= after * after {
            assert(loss < after) by (nonlinear_arith)
                requires
                    loss * after < pool_balance + after,
                    pool_balance + after <= after * after,
                    after > 0,
            ;
        }
    } else {
        assert(s == amount);
        if total_shares == 0 {
            assert(back == amount) by (nonlinear_arith)
                requires
                    back == (amount * amount) / amount,
                    amount > 0,
            ;
        }
    }
}

/// A profit paid into the pool never lowers what any number of shares is
/// worth, while the number of shares outstanding stays the same.
pub proof fn lemma_profit_never_lowers_value(
    shares: nat,
    total_shares: nat,
    pool_balance: nat,
    profit: nat,
)
    requires
        total_shares > 0,
    ensures
        redeemed_amount(shares, total_shares, pool_balance) <= redeemed_amount(
            shares,
            total_shares,
            pool_balance + profit,
        ),
{
    let low = redeemed_amount(shares, total_shares, pool_balance);
    lemma_redeemed_amount_bounds(shares, total_shares, pool_balance);
    lemma_redeemed_amount_bounds(shares, total_shares, pool_balance + profit);
    let high = redeemed_amount(shares, total_shares, pool_balance + profit);
    assert(low <= high) by (nonlinear_arith)
        requires
            low * total_shares <= shares * pool_balance,
            shares * (pool_balance + profit) < (high + 1) * total_shares,
            total_shares > 0,
    ;
}

} // verus!
