//! Depositing: minting shares for value at the current value per share.

use vstd::prelude::*;
use crate::error::SentinelError;
use crate::events::Deposited;
use crate::nav::{deposit_quote, shares_for_deposit};
use crate::pubkey::Pubkey;
use crate::state::{UserPosition, Vault, MIN_DEPOSIT};

verus! {

/// A position once `user` has deposited into it: a position without an
/// owner is bound to `user` and to the vault, with a clean policy state and
/// no whitelist; a position that has an owner keeps it.
pub open spec fn bound_position(position: UserPosition, user: Pubkey, vault_key: Pubkey)
    -> UserPosition {
    if position.owner == Pubkey::empty() {
        UserPosition {
            owner: user,
            vault: vault_key,
            whitelist: UserPosition::no_destinations(),
            whitelist_count: 0,
            daily_withdrawn: 0,
            last_withdraw_day: 0,
            last_withdraw_ts: 0,
            ..position
        }
    } else {
        position
    }
}

/// What a deposit does: the vault, the position and the notification
/// afterwards, or the first reason, in this order, for which it is refused.
///
/// 1. `VaultPaused`.
/// 2. `ZeroAmount`, then `BelowMinDeposit`.
/// 3. No shares can be minted: see `deposit_quote`.
/// 4. `MathOverflow`: a total of the position or of the vault would not fit.
pub open spec fn deposit_outcome(
    vault: Vault,
    position: UserPosition,
    vault_key: Pubkey,
    user: Pubkey,
    pool_balance: u64,
    now: i64,
    amount: u64,
) -> Result<(Vault, UserPosition, Deposited), SentinelError> {
    if vault.is_paused {
        Err(SentinelError::VaultPaused)
    } else if amount == 0 {
        Err(SentinelError::ZeroAmount)
    } else if amount < MIN_DEPOSIT {
        Err(SentinelError::BelowMinDeposit)
    } else {
        match deposit_quote(amount, vault.total_shares, pool_balance) {
            Err(e) => Err(e),
            Ok(shares) => if position.shares + shares > u64::MAX || position.total_deposited
                + amount > u64::MAX || vault.total_shares + shares > u64::MAX
                || vault.total_deposited + amount > u64::MAX {
                Err(SentinelError::MathOverflow)
            } else {
                Ok(
                    (
                        Vault {
                            total_shares: (vault.total_shares + shares) as u64,
                            total_deposited: (vault.total_deposited + amount) as u64,
                            ..vault
                        },
                        UserPosition {
                            shares: (position.shares + shares) as u64,
                            total_deposited: (position.total_deposited + amount) as u64,
                            last_action_ts: now,
                            ..bound_position(position, user, vault_key)
                        },
                        Deposited {
                            user,
                            amount,
                            shares_minted: shares,
                            total_vault_shares: (vault.total_shares + shares) as u64,
                        },
                    ),
                )
            },
        }
    }
}

/// Deposits `amount` for `user` into a pool that holds `pool_balance`, and
/// mints the shares that it buys to the position.
///
/// On success the caller owes the pool a transfer of `amount` from `user`.
/// On failure nothing has changed.
pub fn deposit(
    vault: &mut Vault,
    position: &mut UserPosition,
    vault_key: Pubkey,
    user: Pubkey,
    pool_balance: u64,
    now: i64,
    amount: u64,
) -> (r: Result<Deposited, SentinelError>)
    ensures
        match deposit_outcome(
            *old(vault),
            *old(position),
            vault_key,
            user,
            pool_balance,
            now,
            amount,
        ) {
            Ok((vault_after, position_after, event)) => {
                &&& r == Ok::<Deposited, SentinelError>(event)
                &&& *final(vault) == vault_after
                &&& *final(position) == position_after
            },
            Err(e) => {
                &&& r == Err::<Deposited, SentinelError>(e)
                &&& *final(vault) == *old(vault)
                &&& *final(position) == *old(position)
            },
        },
        old(position).wf() ==> final(position).wf(),
{
    if vault.is_paused {
        return Err(SentinelError::VaultPaused);
    }
    if amount == 0 {
        return Err(SentinelError::ZeroAmount);
    }
    if amount < MIN_DEPOSIT {
        return Err(SentinelError::BelowMinDeposit);
    }
    let shares: u64 = match shares_for_deposit(amount, vault.total_shares, pool_balance) {
        Err(e) => {
            return Err(e);
        },
        Ok(shares) => shares,
    };
    let position_shares: u64 = match position.shares.checked_add(shares) {
        None => {
            return Err(SentinelError::MathOverflow);
        },
        Some(v) => v,
    };
    let position_deposited: u64 = match position.total_deposited.checked_add(amount) {
        None => {
            return Err(SentinelError::MathOverflow);
        },
        Some(v) => v,
    };
    let total_shares: u64 = match vault.total_shares.checked_add(shares) {
        None => {
            return Err(SentinelError::MathOverflow);
        },
        Some(v) => v,
    };
    let total_deposited: u64 = match vault.total_deposited.checked_add(amount) {
        None => {
            return Err(SentinelError::MathOverflow);
        },
        Some(v) => v,
    };
    if position.owner.is_empty() {
        position.owner = user;
        position.vault = vault_key;
        position.whitelist = [Pubkey::default(); 4];
        position.whitelist_count = 0;
        position.daily_withdrawn = 0;
        position.last_withdraw_day = 0;
        position.last_withdraw_ts = 0;
    }
    position.shares = position_shares;
    position.total_deposited = position_deposited;
    position.last_action_ts = now;
    vault.total_shares = total_shares;
    vault.total_deposited = total_deposited;
    Ok(Deposited { user, amount, shares_minted: shares, total_vault_shares: total_shares })
}

/// One deposit of a run: the position that it goes to, as it is at that
/// time, and what `deposit` is given.
pub struct DepositRequest {
    pub position: UserPosition,
    pub vault_key: Pubkey,
    pub user: Pubkey,
    pub pool_balance: u64,
    pub now: i64,
    pub amount: u64,
}

/// The vault after the deposits `requests`, made in order with nothing in
/// between. A deposit that is refused leaves the vault as it is.
pub open spec fn vault_after_deposits(vault: Vault, requests: Seq<DepositRequest>) -> Vault
    decreases requests.len(),
{
    if requests.len() == 0 {
        vault
    } else {
        let before = vault_after_deposits(vault, requests.drop_last());
        let last = requests.last();
        match deposit_outcome(
            before,
            last.position,
            last.vault_key,
            last.user,
            last.pool_balance,
            last.now,
            last.amount,
        ) {
            Ok((after, _, _)) => after,
            Err(_) => before,
        }
    }
}

/// The sum of the shares minted by the deposits `requests`.
pub open spec fn shares_minted_by(vault: Vault, requests: Seq<DepositRequest>) -> int
    decreases requests.len(),
{
    if requests.len() == 0 {
        0
    } else {
        let before = vault_after_deposits(vault, requests.drop_last());
        let last = requests.last();
        shares_minted_by(vault, requests.drop_last()) + match deposit_outcome(
            before,
            last.position,
            last.vault_key,
            last.user,
            last.pool_balance,
            last.now,
            last.amount,
        ) {
            Ok((_, _, event)) => event.shares_minted as int,
            Err(_) => 0,
        }
    }
}

/// The sum of the amounts taken in by the deposits `requests`.
pub open spec fn amounts_deposited_by(vault: Vault, requests: Seq<DepositRequest>) -> int
    decreases requests.len(),
{
    if requests.len() == 0 {
        0
    } else {
        let before = vault_after_deposits(vault, requests.drop_last());
        let last = requests.last();
        amounts_deposited_by(vault, requests.drop_last()) + match deposit_outcome(
            before,
            last.position,
            last.vault_key,
            last.user,
            last.pool_balance,
            last.now,
            last.amount,
        ) {
            Ok((_, _, event)) => event.amount as int,
            Err(_) => 0,
        }
    }
}

/// Deposits conserve shares and value: after any run of deposits with
/// nothing in between, the shares outstanding have grown by the sum of the
/// shares minted, and the lifetime deposits by the sum of the amounts. For
/// a vault that started with neither, the totals are those sums.
pub proof fn lemma_deposits_add_up(vault: Vault, requests: Seq<DepositRequest>)
    ensures
        vault_after_deposits(vault, requests).total_shares == vault.total_shares
            + shares_minted_by(vault, requests),
        vault_after_deposits(vault, requests).total_deposited == vault.total_deposited
            + amounts_deposited_by(vault, requests),
    decreases requests.len(),
{
    if requests.len() > 0 {
        lemma_deposits_add_up(vault, requests.drop_last());
    }
}

} // verus!
