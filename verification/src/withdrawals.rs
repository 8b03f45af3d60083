//! Withdrawing: burning shares for their value, under the withdrawal policy,
//! and the whitelist that a depositor keeps for it.

use vstd::prelude::*;
use crate::error::SentinelError;
use crate::events::{WhitelistUpdated, Withdrawn};
use crate::deposits::deposit_outcome;
use crate::nav::{
    amount_for_withdrawal, lemma_round_trip_loss_bound, round_trip, withdrawal_quote,
};
use crate::policy::{evaluate_withdrawal, policy_outcome};
use crate::pubkey::Pubkey;
use crate::state::{UserPosition, Vault, MAX_WHITELIST};

verus! {

/// What a withdrawal does: the vault, the position and the notification
/// afterwards, or the first reason, in this order, for which it is refused.
///
/// 1. `Unauthorized`: `owner` is not the owner of the position.
/// 2. `VaultPaused`.
/// 3. `ZeroAmount`: no shares are to be burned.
/// 4. `InsufficientShares`: the position holds fewer shares.
/// 5. The value of the shares cannot be paid: see `withdrawal_quote`.
/// 6. The policy refuses: see `policy_outcome`.
/// 7. `MathOverflow`: the lifetime total of the position would not fit, or
///    the vault has fewer shares outstanding than are to be burned.
pub open spec fn withdraw_outcome(
    vault: Vault,
    position: UserPosition,
    owner: Pubkey,
    recipient: Pubkey,
    pool_balance: u64,
    now: i64,
    shares_to_burn: u64,
) -> Result<(Vault, UserPosition, Withdrawn), SentinelError> {
    if position.owner != owner {
        Err(SentinelError::Unauthorized)
    } else if vault.is_paused {
        Err(SentinelError::VaultPaused)
    } else if shares_to_burn == 0 {
        Err(SentinelError::ZeroAmount)
    } else if position.shares < shares_to_burn {
        Err(SentinelError::InsufficientShares)
    } else {
        match withdrawal_quote(shares_to_burn, vault.total_shares, pool_balance) {
            Err(e) => Err(e),
            Ok(amount) => match policy_outcome(
                position,
                vault.cooldown_seconds,
                vault.daily_withdraw_cap,
                now,
                amount,
                recipient,
            ) {
                Err(e) => Err(e),
                Ok(policy) => if position.total_withdrawn + amount > u64::MAX
                    || vault.total_shares < shares_to_burn {
                    Err(SentinelError::MathOverflow)
                } else {
                    Ok(
                        (
                            Vault {
                                total_shares: (vault.total_shares - shares_to_burn) as u64,
                                ..vault
                            },
                            UserPosition {
                                shares: (position.shares - shares_to_burn) as u64,
                                total_withdrawn: (position.total_withdrawn + amount) as u64,
                                last_action_ts: now,
                                last_withdraw_ts: policy.last_withdraw_ts,
                                last_withdraw_day: policy.last_withdraw_day,
                                daily_withdrawn: policy.daily_withdrawn,
                                ..position
                            },
                            Withdrawn {
                                user: recipient,
                                shares_burned: shares_to_burn,
                                amount_returned: amount,
                                total_vault_shares: (vault.total_shares - shares_to_burn) as u64,
                            },
                        ),
                    )
                },
            },
        }
    }
}

/// Burns `shares_to_burn` of a position and says what is to be paid to
/// `recipient` for them out of a pool that holds `pool_balance`.
///
/// `owner` is the identity presented as the owner of the position. On
/// success the caller owes `recipient` a transfer of `amount_returned`, which
/// the pool can pay. On failure nothing has changed.
pub fn withdraw(
    vault: &mut Vault,
    position: &mut UserPosition,
    owner: Pubkey,
    recipient: Pubkey,
    pool_balance: u64,
    now: i64,
    shares_to_burn: u64,
) -> (r: Result<Withdrawn, SentinelError>)
    requires
        old(position).wf(),
    ensures
        match withdraw_outcome(
            *old(vault),
            *old(position),
            owner,
            recipient,
            pool_balance,
            now,
            shares_to_burn,
        ) {
            Ok((vault_after, position_after, event)) => {
                &&& r == Ok::<Withdrawn, SentinelError>(event)
                &&& *final(vault) == vault_after
                &&& *final(position) == position_after
                &&& event.amount_returned <= pool_balance
            },
            Err(e) => {
                &&& r == Err::<Withdrawn, SentinelError>(e)
                &&& *final(vault) == *old(vault)
                &&& *final(position) == *old(position)
            },
        },
        final(position).wf(),
{
    if position.owner != owner {
        return Err(SentinelError::Unauthorized);
    }
    if vault.is_paused {
        return Err(SentinelError::VaultPaused);
    }
    if shares_to_burn == 0 {
        return Err(SentinelError::ZeroAmount);
    }
    if position.shares < shares_to_burn {
        return Err(SentinelError::InsufficientShares);
    }
    let withdraw_amount: u64 = match amount_for_withdrawal(
        shares_to_burn,
        vault.total_shares,
        pool_balance,
    ) {
        Err(e) => {
            return Err(e);
        },
        Ok(amount) => amount,
    };
    let policy = match evaluate_withdrawal(
        position,
        vault.cooldown_seconds,
        vault.daily_withdraw_cap,
        now,
        withdraw_amount,
        recipient,
    ) {
        Err(e) => {
            return Err(e);
        },
        Ok(policy) => policy,
    };
    let total_withdrawn: u64 = match position.total_withdrawn.checked_add(withdraw_amount) {
        None => {
            return Err(SentinelError::MathOverflow);
        },
        Some(v) => v,
    };
    let total_shares: u64 = match vault.total_shares.checked_sub(shares_to_burn) {
        None => {
            return Err(SentinelError::MathOverflow);
        },
        Some(v) => v,
    };
    proof {
        lemma_part_is_at_most_whole(
            shares_to_burn as nat,
            vault.total_shares as nat,
            pool_balance as nat,
        );
    }
    position.shares = position.shares - shares_to_burn;
    position.total_withdrawn = total_withdrawn;
    position.last_action_ts = now;
    position.last_withdraw_ts = policy.last_withdraw_ts;
    position.last_withdraw_day = policy.last_withdraw_day;
    position.daily_withdrawn = policy.daily_withdrawn;
    vault.total_shares = total_shares;
    Ok(
        Withdrawn {
            user: recipient,
            shares_burned: shares_to_burn,
            amount_returned: withdraw_amount,
            total_vault_shares: total_shares,
        },
    )
}

proof fn lemma_part_is_at_most_whole(shares: nat, total_shares: nat, pool_balance: nat)
    requires
        0 < total_shares,
        shares <= total_shares,
    ensures
        (shares * pool_balance) / total_shares <= pool_balance,
{
    assert((shares * pool_balance) / total_shares <= pool_balance) by (nonlinear_arith)
        requires
            0 < total_shares,
            shares <= total_shares,
    ;
}

/// A deposit whose shares are withdrawn at once, with nothing in between,
/// pays back no more than was put in, and leaves the vault with the shares
/// it had. What is lost to rounding is bounded as
/// `lemma_round_trip_loss_bound` says.
///
/// This does not hold of a pool that holds a balance that no share has a
/// claim on: there the first depositor owns what the pool held.
pub proof fn lemma_deposit_then_withdraw(
    vault: Vault,
    position: UserPosition,
    vault_key: Pubkey,
    user: Pubkey,
    pool_balance: u64,
    amount: u64,
    deposited_at: i64,
    withdrawn_at: i64,
)
    requires
        vault.total_shares > 0 || pool_balance == 0,
        pool_balance + amount <= u64::MAX,
        deposit_outcome(vault, position, vault_key, user, pool_balance, deposited_at, amount)
            is Ok,
        ({
            let (funded_vault, funded_position, minted) = deposit_outcome(
                vault,
                position,
                vault_key,
                user,
                pool_balance,
                deposited_at,
                amount,
            )->Ok_0;
            withdraw_outcome(
                funded_vault,
                funded_position,
                funded_position.owner,
                funded_position.owner,
                (pool_balance + amount) as u64,
                withdrawn_at,
                minted.shares_minted,
            ) is Ok
        }),
    ensures
        ({
            let (funded_vault, funded_position, minted) = deposit_outcome(
                vault,
                position,
                vault_key,
                user,
                pool_balance,
                deposited_at,
                amount,
            )->Ok_0;
            let (vault_after, position_after, paid) = withdraw_outcome(
                funded_vault,
                funded_position,
                funded_position.owner,
                funded_position.owner,
                (pool_balance + amount) as u64,
                withdrawn_at,
                minted.shares_minted,
            )->Ok_0;
            let loss = amount - paid.amount_returned;
            &&& paid.amount_returned == round_trip(
                amount as nat,
                vault.total_shares as nat,
                pool_balance as nat,
            )
            &&& paid.amount_returned <= amount
            &&& vault_after.total_shares == vault.total_shares
            &&& position_after.shares == position.shares
            &&& vault.total_shares > 0 && pool_balance > 0 ==> loss * funded_vault.total_shares
                < pool_balance + funded_vault.total_shares
            &&& pool_balance + funded_vault.total_shares <= funded_vault.total_shares
                * funded_vault.total_shares ==> loss < funded_vault.total_shares
        }),
{
    lemma_round_trip_loss_bound(amount as nat, vault.total_shares as nat, pool_balance as nat);
}

/// Why a whitelist cannot be replaced, if it cannot: `Unauthorized` if
/// `user` is not the owner of the position, or else
/// `TooManyWhitelistEntries` if the list does not fit the slots.
pub open spec fn set_whitelist_failure(
    position: UserPosition,
    user: Pubkey,
    destinations: Seq<Pubkey>,
) -> Option<SentinelError> {
    if position.owner != user {
        Some(SentinelError::Unauthorized)
    } else if destinations.len() > MAX_WHITELIST {
        Some(SentinelError::TooManyWhitelistEntries)
    } else {
        None
    }
}

/// The whitelist slots that hold `destinations`: the destinations in order,
/// followed by empty identities.
pub open spec fn whitelist_slots(destinations: Seq<Pubkey>) -> Seq<Pubkey>
    recommends
        destinations.len() <= MAX_WHITELIST,
{
    destinations + Seq::new((MAX_WHITELIST - destinations.len()) as nat, |i: int| Pubkey::empty())
}

/// Replaces the whitelist of a position by `destinations`, of which there
/// may be at most four. Only the owner of the position may do so.
///
/// Nothing of the earlier list remains. On failure nothing has changed.
pub fn set_whitelist(position: &mut UserPosition, user: Pubkey, destinations: Vec<Pubkey>) -> (r:
    Result<WhitelistUpdated, SentinelError>)
    ensures
        match set_whitelist_failure(*old(position), user, destinations@) {
            None => {
                &&& r == Ok::<WhitelistUpdated, SentinelError>(
                    WhitelistUpdated { user, count: destinations@.len() as u8 },
                )
                &&& final(position).whitelist@ == whitelist_slots(destinations@)
                &&& *final(position) == (UserPosition {
                    whitelist: final(position).whitelist,
                    whitelist_count: destinations@.len() as u8,
                    ..*old(position)
                })
                &&& final(position).destinations() == destinations@
                &&& final(position).wf()
            },
            Some(e) => {
                &&& r == Err::<WhitelistUpdated, SentinelError>(e)
                &&& *final(position) == *old(position)
            },
        },
{
    if position.owner != user {
        return Err(SentinelError::Unauthorized);
    }
    if destinations.len() > MAX_WHITELIST {
        return Err(SentinelError::TooManyWhitelistEntries);
    }
    let mut whitelist: [Pubkey; 4] = [Pubkey::default(); 4];
    let mut i: usize = 0;
    while i < destinations.len()
        invariant
            i <= destinations.len() <= MAX_WHITELIST,
            forall|j: int| 0 <= j < i ==> whitelist[j] == destinations[j],
            forall|j: int| i <= j < 4 ==> whitelist[j] == Pubkey::empty(),
        decreases destinations.len() - i,
    {
        whitelist[i] = destinations[i];
        i += 1;
    }
    let count: u8 = destinations.len() as u8;
    assert(whitelist@ =~= whitelist_slots(destinations@));
    position.whitelist = whitelist;
    position.whitelist_count = count;
    assert(position.destinations() =~= destinations@);
    Ok(WhitelistUpdated { user, count })
}

} // verus!
