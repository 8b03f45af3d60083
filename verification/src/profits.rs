//! Distributing a profit: the whole amount enters the pool, which raises the
//! value of every share, and a bounded part of it is set aside as the
//! reward of the agent that earned it.

use vstd::prelude::*;
use crate::error::SentinelError;
use crate::events::ProfitsDistributed;
use crate::nav::{agent_carve_out, carve_out_quote};
use crate::pubkey::Pubkey;
use crate::state::{AgentProfile, Vault};

verus! {

/// What distributing a profit does: the vault, the profile of the agent it
/// is attributed to (if any) and the notification afterwards, or the first
/// reason, in this order, for which it is refused.
///
/// 1. `Unauthorized`: `oracle` is not the oracle of the vault, or the
///    profile belongs to another vault.
/// 2. `VaultPaused`.
/// 3. `ZeroAmount`.
/// 4. `NoShareholders`: no shares are outstanding.
/// 5. `FeeTooHigh`: see `carve_out_quote`.
/// 6. `MathOverflow`: the pool's balance, the agent's reward or a counter
///    of the vault would not fit.
pub open spec fn distribute_profits_outcome(
    vault: Vault,
    agent_profile: Option<AgentProfile>,
    vault_key: Pubkey,
    oracle: Pubkey,
    pool_balance: u64,
    amount: u64,
    agent_fee_bps: u16,
) -> Result<(Vault, Option<AgentProfile>, ProfitsDistributed), SentinelError> {
    if vault.oracle != oracle || (agent_profile matches Some(profile) && profile.vault
        != vault_key) {
        Err(SentinelError::Unauthorized)
    } else if vault.is_paused {
        Err(SentinelError::VaultPaused)
    } else if amount == 0 {
        Err(SentinelError::ZeroAmount)
    } else if vault.total_shares == 0 {
        Err(SentinelError::NoShareholders)
    } else {
        match carve_out_quote(amount, agent_fee_bps) {
            Err(e) => Err(e),
            Ok(reward) => if pool_balance + amount > u64::MAX || (agent_profile matches Some(
                profile,
            ) && profile.total_rewards_earned + reward > u64::MAX)
                || vault.total_profits_distributed + amount > u64::MAX || vault.epoch_profit
                + amount > u64::MAX {
                Err(SentinelError::MathOverflow)
            } else {
                Ok(
                    (
                        Vault {
                            total_profits_distributed: (vault.total_profits_distributed
                                + amount) as u64,
                            epoch_profit: (vault.epoch_profit + amount) as u64,
                            ..vault
                        },
                        match agent_profile {
                            Some(profile) => Some(
                                AgentProfile {
                                    total_rewards_earned: (profile.total_rewards_earned
                                        + reward) as u64,
                                    ..profile
                                },
                            ),
                            None => None,
                        },
                        ProfitsDistributed {
                            oracle,
                            amount,
                            agent_reward: reward,
                            total_vault_balance: (pool_balance + amount) as u64,
                            total_profits_distributed: (vault.total_profits_distributed
                                + amount) as u64,
                        },
                    ),
                )
            },
        }
    }
}

/// Distributes a profit of `amount` into a pool that holds `pool_balance`,
/// and credits `agent_fee_bps` basis points of it to the agent it is
/// attributed to, if there is one.
///
/// On success the caller owes the pool a transfer of `amount` from the
/// oracle, after which the pool holds `total_vault_balance`; the number of
/// shares outstanding is as before. On failure nothing has changed.
pub fn distribute_profits(
    vault: &mut Vault,
    agent_profile: Option<&mut AgentProfile>,
    vault_key: Pubkey,
    oracle: Pubkey,
    pool_balance: u64,
    amount: u64,
    agent_fee_bps: u16,
) -> (r: Result<ProfitsDistributed, SentinelError>)
    ensures
        match distribute_profits_outcome(
            *old(vault),
            match agent_profile {
                Some(profile) => Some(*profile),
                None => None,
            },
            vault_key,
            oracle,
            pool_balance,
            amount,
            agent_fee_bps,
        ) {
            Ok((vault_after, profile_after, event)) => {
                &&& r == Ok::<ProfitsDistributed, SentinelError>(event)
                &&& *final(vault) == vault_after
                &&& match agent_profile {
                    Some(profile) => Some(*final(profile)),
                    None => None,
                } == profile_after
                &&& final(vault).total_shares == old(vault).total_shares
                &&& event.total_vault_balance == pool_balance + amount
                &&& event.total_vault_balance > pool_balance
            },
            Err(e) => {
                &&& r == Err::<ProfitsDistributed, SentinelError>(e)
                &&& *final(vault) == *old(vault)
                &&& agent_profile matches Some(profile) ==> *final(profile) == *profile
            },
        },
{
    if vault.oracle != oracle {
        return Err(SentinelError::Unauthorized);
    }
    match &agent_profile {
        Some(profile) => {
            if profile.vault != vault_key {
                return Err(SentinelError::Unauthorized);
            }
        },
        None => {},
    }
    if vault.is_paused {
        return Err(SentinelError::VaultPaused);
    }
    if amount == 0 {
        return Err(SentinelError::ZeroAmount);
    }
    if vault.total_shares == 0 {
        return Err(SentinelError::NoShareholders);
    }
    let agent_reward: u64 = match agent_carve_out(amount, agent_fee_bps) {
        Err(e) => {
            return Err(e);
        },
        Ok(reward) => reward,
    };
    let total_vault_balance: u64 = match pool_balance.checked_add(amount) {
        None => {
            return Err(SentinelError::MathOverflow);
        },
        Some(v) => v,
    };
    let rewards_fit: bool = match &agent_profile {
        Some(profile) => profile.total_rewards_earned.checked_add(agent_reward).is_some(),
        None => true,
    };
    if !rewards_fit {
        return Err(SentinelError::MathOverflow);
    }
    let total_profits_distributed: u64 = match vault.total_profits_distributed.checked_add(
        amount,
    ) {
        None => {
            return Err(SentinelError::MathOverflow);
        },
        Some(v) => v,
    };
    let epoch_profit: u64 = match vault.epoch_profit.checked_add(amount) {
        None => {
            return Err(SentinelError::MathOverflow);
        },
        Some(v) => v,
    };
    match agent_profile {
        Some(profile) => {
            profile.total_rewards_earned = profile.total_rewards_earned + agent_reward;
        },
        None => {},
    }
    vault.total_profits_distributed = total_profits_distributed;
    vault.epoch_profit = epoch_profit;
    Ok(
        ProfitsDistributed {
            oracle,
            amount,
            agent_reward,
            total_vault_balance,
            total_profits_distributed,
        },
    )
}

} // verus!
