//! Creating a vault and administering it: the pause, the withdrawal policy,
//! the roles and the epoch. None of these is held up by a pause.

use vstd::prelude::*;
use crate::error::SentinelError;
use crate::events::{
    EmergencyAction, EpochAdvanced, PolicyUpdated, RolesUpdated, VaultInitialized,
};
use crate::pubkey::Pubkey;
use crate::state::Vault;

verus! {

/// The vault as it is created: active, with no shares, no history, no
/// agents, in epoch 0.
pub open spec fn initial_vault(
    authority: Pubkey,
    guardian: Pubkey,
    oracle: Pubkey,
    daily_withdraw_cap: u64,
    cooldown_seconds: i64,
    bump: u8,
    vault_sol_bump: u8,
) -> Vault {
    Vault {
        authority,
        guardian,
        oracle,
        total_shares: 0,
        total_deposited: 0,
        total_profits_distributed: 0,
        is_paused: false,
        bump,
        vault_sol_bump,
        daily_withdraw_cap,
        cooldown_seconds,
        epoch: 0,
        epoch_profit: 0,
        agent_count: 0,
    }
}

/// Creates a vault for `authority` with the given guardian, oracle and
/// withdrawal policy.
pub fn initialize(
    authority: Pubkey,
    guardian: Pubkey,
    oracle: Pubkey,
    daily_withdraw_cap: u64,
    cooldown_seconds: i64,
    bump: u8,
    vault_sol_bump: u8,
) -> (r: (Vault, VaultInitialized))
    ensures
        r.0 == initial_vault(
            authority,
            guardian,
            oracle,
            daily_withdraw_cap,
            cooldown_seconds,
            bump,
            vault_sol_bump,
        ),
        r.1 == (VaultInitialized {
            authority,
            guardian,
            oracle,
            daily_withdraw_cap,
            cooldown_seconds,
        }),
{
    let vault = Vault {
        authority,
        guardian,
        oracle,
        total_shares: 0,
        total_deposited: 0,
        total_profits_distributed: 0,
        is_paused: false,
        bump,
        vault_sol_bump,
        daily_withdraw_cap,
        cooldown_seconds,
        epoch: 0,
        epoch_profit: 0,
        agent_count: 0,
    };
    (vault, VaultInitialized { authority, guardian, oracle, daily_withdraw_cap, cooldown_seconds })
}

/// Why the epoch cannot be advanced, if it cannot: `Unauthorized` if
/// `authority` is not the authority of the vault, or else `MathOverflow` if
/// the epoch counter would not fit.
pub open spec fn advance_epoch_failure(vault: Vault, authority: Pubkey) -> Option<SentinelError> {
    if vault.authority != authority {
        Some(SentinelError::Unauthorized)
    } else if vault.epoch + 1 > u64::MAX {
        Some(SentinelError::MathOverflow)
    } else {
        None
    }
}

/// Moves the vault on to the next epoch: reports the profit of the epoch
/// that ends and starts counting again at zero. Shares and lifetime
/// counters are untouched. Only the authority of the vault may do so.
pub fn advance_epoch(vault: &mut Vault, vault_key: Pubkey, authority: Pubkey) -> (r: Result<
    EpochAdvanced,
    SentinelError,
>)
    ensures
        match advance_epoch_failure(*old(vault), authority) {
            None => {
                &&& r == Ok::<EpochAdvanced, SentinelError>(
                    EpochAdvanced {
                        vault: vault_key,
                        previous_epoch: old(vault).epoch,
                        new_epoch: (old(vault).epoch + 1) as u64,
                        epoch_profit: old(vault).epoch_profit,
                    },
                )
                &&& *final(vault) == (Vault {
                    epoch: (old(vault).epoch + 1) as u64,
                    epoch_profit: 0,
                    ..*old(vault)
                })
            },
            Some(e) => {
                &&& r == Err::<EpochAdvanced, SentinelError>(e)
                &&& *final(vault) == *old(vault)
            },
        },
{
    if vault.authority != authority {
        return Err(SentinelError::Unauthorized);
    }
    let previous_epoch: u64 = vault.epoch;
    let previous_profit: u64 = vault.epoch_profit;
    let new_epoch: u64 = match vault.epoch.checked_add(1) {
        None => {
            return Err(SentinelError::MathOverflow);
        },
        Some(v) => v,
    };
    vault.epoch = new_epoch;
    vault.epoch_profit = 0;
    Ok(
        EpochAdvanced {
            vault: vault_key,
            previous_epoch,
            new_epoch,
            epoch_profit: previous_profit,
        },
    )
}

/// Pauses or resumes the vault. Only the guardian may do so.
pub fn emergency_stop(vault: &mut Vault, guardian: Pubkey, pause: bool, now: i64) -> (r: Result<
    EmergencyAction,
    SentinelError,
>)
    ensures
        old(vault).guardian == guardian ==> {
            &&& r == Ok::<EmergencyAction, SentinelError>(
                EmergencyAction { guardian, paused: pause, timestamp: now },
            )
            &&& *final(vault) == (Vault { is_paused: pause, ..*old(vault) })
        },
        old(vault).guardian != guardian ==> {
            &&& r == Err::<EmergencyAction, SentinelError>(SentinelError::Unauthorized)
            &&& *final(vault) == *old(vault)
        },
{
    if vault.guardian != guardian {
        return Err(SentinelError::Unauthorized);
    }
    vault.is_paused = pause;
    Ok(EmergencyAction { guardian, paused: pause, timestamp: now })
}

/// Replaces the withdrawal policy: the daily cap (0 lifts it) and the
/// cooldown (0 disables it). Only the guardian may do so.
pub fn update_policy(
    vault: &mut Vault,
    guardian: Pubkey,
    new_daily_cap: u64,
    new_cooldown_seconds: i64,
) -> (r: Result<PolicyUpdated, SentinelError>)
    ensures
        old(vault).guardian == guardian ==> {
            &&& r == Ok::<PolicyUpdated, SentinelError>(
                PolicyUpdated {
                    guardian,
                    daily_withdraw_cap: new_daily_cap,
                    cooldown_seconds: new_cooldown_seconds,
                },
            )
            &&& *final(vault) == (Vault {
                daily_withdraw_cap: new_daily_cap,
                cooldown_seconds: new_cooldown_seconds,
                ..*old(vault)
            })
        },
        old(vault).guardian != guardian ==> {
            &&& r == Err::<PolicyUpdated, SentinelError>(SentinelError::Unauthorized)
            &&& *final(vault) == *old(vault)
        },
{
    if vault.guardian != guardian {
        return Err(SentinelError::Unauthorized);
    }
    vault.daily_withdraw_cap = new_daily_cap;
    vault.cooldown_seconds = new_cooldown_seconds;
    Ok(
        PolicyUpdated {
            guardian,
            daily_withdraw_cap: new_daily_cap,
            cooldown_seconds: new_cooldown_seconds,
        },
    )
}

/// The role that is held after an update: the new holder if one is named,
/// else the holder so far.
pub open spec fn updated_role(current: Pubkey, new_holder: Option<Pubkey>) -> Pubkey {
    match new_holder {
        Some(holder) => holder,
        None => current,
    }
}

/// Names a new guardian, a new oracle, both or neither. Only the authority
/// of the vault may do so.
pub fn update_roles(
    vault: &mut Vault,
    authority: Pubkey,
    new_guardian: Option<Pubkey>,
    new_oracle: Option<Pubkey>,
) -> (r: Result<RolesUpdated, SentinelError>)
    ensures
        old(vault).authority == authority ==> {
            &&& r == Ok::<RolesUpdated, SentinelError>(
                RolesUpdated {
                    authority,
                    guardian: updated_role(old(vault).guardian, new_guardian),
                    oracle: updated_role(old(vault).oracle, new_oracle),
                },
            )
            &&& *final(vault) == (Vault {
                guardian: updated_role(old(vault).guardian, new_guardian),
                oracle: updated_role(old(vault).oracle, new_oracle),
                ..*old(vault)
            })
        },
        old(vault).authority != authority ==> {
            &&& r == Err::<RolesUpdated, SentinelError>(SentinelError::Unauthorized)
            &&& *final(vault) == *old(vault)
        },
{
    if vault.authority != authority {
        return Err(SentinelError::Unauthorized);
    }
    match new_guardian {
        Some(guardian) => {
            vault.guardian = guardian;
        },
        None => {},
    }
    match new_oracle {
        Some(oracle) => {
            vault.oracle = oracle;
        },
        None => {},
    }
    Ok(RolesUpdated { authority, guardian: vault.guardian, oracle: vault.oracle })
}

} // verus!
