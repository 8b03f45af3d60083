//! Agents: registering and deactivating them, recording their trades,
//! scoring them, and paying out the rewards they have earned.

use vstd::prelude::*;
use crate::error::SentinelError;
use crate::events::{
    AgentDeactivated, AgentRegistered, AgentRewardClaimed, AgentScoreComputed, TradeReported,
};
use crate::performance::{score_outcome, trade_outcome};
use crate::pubkey::Pubkey;
use crate::state::{AgentProfile, Vault};

verus! {

/// What registering an agent does: the vault, the new profile and the
/// notification afterwards, or `Unauthorized` if `authority` is not the
/// authority of the vault, or else `MathOverflow` if the number of agents
/// would not fit.
pub open spec fn register_agent_outcome(
    vault: Vault,
    vault_key: Pubkey,
    authority: Pubkey,
    agent_key: Pubkey,
) -> Result<(Vault, AgentProfile, AgentRegistered), SentinelError> {
    if vault.authority != authority {
        Err(SentinelError::Unauthorized)
    } else if vault.agent_count + 1 > u32::MAX {
        Err(SentinelError::MathOverflow)
    } else {
        Ok(
            (
                Vault { agent_count: (vault.agent_count + 1) as u32, ..vault },
                AgentProfile::fresh(agent_key, vault_key),
                AgentRegistered { vault: vault_key, agent: agent_key },
            ),
        )
    }
}

/// Registers an agent with the vault and returns its profile: active, with
/// every counter at zero. Only the authority of the vault may do so.
pub fn register_agent(vault: &mut Vault, vault_key: Pubkey, authority: Pubkey, agent_key: Pubkey)
    -> (r: Result<(AgentProfile, AgentRegistered), SentinelError>)
    ensures
        match register_agent_outcome(*old(vault), vault_key, authority, agent_key) {
            Ok((vault_after, profile, event)) => {
                &&& r == Ok::<(AgentProfile, AgentRegistered), SentinelError>((profile, event))
                &&& *final(vault) == vault_after
                &&& profile.wf()
            },
            Err(e) => {
                &&& r == Err::<(AgentProfile, AgentRegistered), SentinelError>(e)
                &&& *final(vault) == *old(vault)
            },
        },
{
    if vault.authority != authority {
        return Err(SentinelError::Unauthorized);
    }
    let agent_count: u32 = match vault.agent_count.checked_add(1) {
        None => {
            return Err(SentinelError::MathOverflow);
        },
        Some(v) => v,
    };
    let profile = AgentProfile {
        agent: agent_key,
        vault: vault_key,
        trade_count: 0,
        winning_trades: 0,
        cumulative_pnl: 0,
        sum_returns: 0,
        sum_sq_returns: 0,
        total_rewards_earned: 0,
        last_report_ts: 0,
        is_active: true,
    };
    vault.agent_count = agent_count;
    Ok((profile, AgentRegistered { vault: vault_key, agent: agent_key }))
}

/// Whether `authority` may deactivate the agent of `profile` in the vault
/// at `vault_key`: it is the authority of the vault, and the profile
/// belongs to the vault.
pub open spec fn may_deactivate(
    vault: Vault,
    profile: AgentProfile,
    vault_key: Pubkey,
    authority: Pubkey,
) -> bool {
    vault.authority == authority && profile.vault == vault_key
}

/// Deactivates an agent: no trade can be reported for it any more. Its
/// history stays as it is. Only the authority of the vault may do so.
pub fn deactivate_agent(
    vault: &Vault,
    profile: &mut AgentProfile,
    vault_key: Pubkey,
    authority: Pubkey,
) -> (r: Result<AgentDeactivated, SentinelError>)
    ensures
        may_deactivate(*vault, *old(profile), vault_key, authority) ==> {
            &&& r == Ok::<AgentDeactivated, SentinelError>(
                AgentDeactivated { vault: vault_key, agent: old(profile).agent },
            )
            &&& *final(profile) == (AgentProfile { is_active: false, ..*old(profile) })
        },
        !may_deactivate(*vault, *old(profile), vault_key, authority) ==> {
            &&& r == Err::<AgentDeactivated, SentinelError>(SentinelError::Unauthorized)
            &&& *final(profile) == *old(profile)
        },
{
    if vault.authority != authority || profile.vault != vault_key {
        return Err(SentinelError::Unauthorized);
    }
    profile.is_active = false;
    Ok(AgentDeactivated { vault: vault_key, agent: profile.agent })
}

/// What reporting a trade does: the profile and the notification
/// afterwards, or `Unauthorized` if `oracle` is not the oracle of the vault
/// or the profile belongs to another vault, or else the reason for which
/// the trade is refused: see `trade_outcome`.
pub open spec fn report_trade_outcome(
    vault: Vault,
    profile: AgentProfile,
    vault_key: Pubkey,
    oracle: Pubkey,
    pnl_bps: i64,
    is_win: bool,
    now: i64,
) -> Result<(AgentProfile, TradeReported), SentinelError> {
    if vault.oracle != oracle || profile.vault != vault_key {
        Err(SentinelError::Unauthorized)
    } else {
        match trade_outcome(profile, pnl_bps, is_win, now) {
            Err(e) => Err(e),
            Ok(after) => Ok(
                (
                    after,
                    TradeReported {
                        agent: after.agent,
                        pnl_bps,
                        is_win,
                        trade_count: after.trade_count,
                        cumulative_pnl: after.cumulative_pnl,
                    },
                ),
            ),
        }
    }
}

/// Records one trade of an agent: a return of `pnl_bps` basis points, which
/// counts as a win or not. Only the oracle of the vault may report.
///
/// On failure nothing has changed.
pub fn report_trade(
    vault: &Vault,
    profile: &mut AgentProfile,
    vault_key: Pubkey,
    oracle: Pubkey,
    pnl_bps: i64,
    is_win: bool,
    now: i64,
) -> (r: Result<TradeReported, SentinelError>)
    ensures
        match report_trade_outcome(*vault, *old(profile), vault_key, oracle, pnl_bps, is_win, now) {
            Ok((profile_after, event)) => {
                &&& r == Ok::<TradeReported, SentinelError>(event)
                &&& *final(profile) == profile_after
            },
            Err(e) => {
                &&& r == Err::<TradeReported, SentinelError>(e)
                &&& *final(profile) == *old(profile)
            },
        },
        old(profile).wf() ==> final(profile).wf(),
{
    if vault.oracle != oracle || profile.vault != vault_key {
        return Err(SentinelError::Unauthorized);
    }
    match profile.record_trade(pnl_bps, is_win, now) {
        Err(e) => Err(e),
        Ok(_) => Ok(
            TradeReported {
                agent: profile.agent,
                pnl_bps,
                is_win,
                trade_count: profile.trade_count,
                cumulative_pnl: profile.cumulative_pnl,
            },
        ),
    }
}

/// The score of an agent as it is reported, or `Unauthorized` if the
/// profile belongs to another vault, or else the reason for which there is
/// no score: see `score_outcome`.
pub open spec fn query_agent_score_outcome(profile: AgentProfile, vault_key: Pubkey) -> Result<
    AgentScoreComputed,
    SentinelError,
> {
    if profile.vault != vault_key {
        Err(SentinelError::Unauthorized)
    } else {
        match score_outcome(profile) {
            Err(e) => Err(e),
            Ok(score) => Ok(
                AgentScoreComputed {
                    agent: profile.agent,
                    trade_count: profile.trade_count,
                    win_rate_bps: score.win_rate_bps,
                    cumulative_pnl: profile.cumulative_pnl,
                    score_numerator: score.numerator,
                    score_denominator: score.denominator,
                    mean_positive: score.mean_positive,
                },
            ),
        }
    }
}

/// Computes the score of an agent from its running sums. The denominator of
/// the score is never zero.
pub fn query_agent_score(profile: &AgentProfile, vault_key: Pubkey) -> (r: Result<
    AgentScoreComputed,
    SentinelError,
>)
    ensures
        r == query_agent_score_outcome(*profile, vault_key),
        r matches Ok(event) ==> event.score_denominator >= 1,
{
    if profile.vault != vault_key {
        return Err(SentinelError::Unauthorized);
    }
    match profile.score() {
        Err(e) => Err(e),
        Ok(score) => Ok(
            AgentScoreComputed {
                agent: profile.agent,
                trade_count: profile.trade_count,
                win_rate_bps: score.win_rate_bps,
                cumulative_pnl: profile.cumulative_pnl,
                score_numerator: score.numerator,
                score_denominator: score.denominator,
                mean_positive: score.mean_positive,
            },
        ),
    }
}

/// Why a reward cannot be claimed, if it cannot: `Unauthorized` if the
/// profile belongs to another vault or to another agent, or else
/// `VaultPaused`, or else `ZeroAmount` if there is nothing to claim.
pub open spec fn claim_agent_reward_failure(
    vault: Vault,
    profile: AgentProfile,
    vault_key: Pubkey,
    agent: Pubkey,
) -> Option<SentinelError> {
    if profile.vault != vault_key || profile.agent != agent {
        Some(SentinelError::Unauthorized)
    } else if vault.is_paused {
        Some(SentinelError::VaultPaused)
    } else if profile.total_rewards_earned == 0 {
        Some(SentinelError::ZeroAmount)
    } else {
        None
    }
}

/// Claims the whole reward of an agent and resets it to zero, so that it
/// cannot be claimed twice.
///
/// On success the caller owes the agent a transfer of `amount` out of the
/// pool. On failure nothing has changed.
pub fn claim_agent_reward(
    vault: &Vault,
    profile: &mut AgentProfile,
    vault_key: Pubkey,
    agent: Pubkey,
) -> (r: Result<AgentRewardClaimed, SentinelError>)
    ensures
        match claim_agent_reward_failure(*vault, *old(profile), vault_key, agent) {
            None => {
                &&& r == Ok::<AgentRewardClaimed, SentinelError>(
                    AgentRewardClaimed { agent, amount: old(profile).total_rewards_earned },
                )
                &&& *final(profile) == (AgentProfile { total_rewards_earned: 0, ..*old(profile) })
            },
            Some(e) => {
                &&& r == Err::<AgentRewardClaimed, SentinelError>(e)
                &&& *final(profile) == *old(profile)
            },
        },
{
    if profile.vault != vault_key || profile.agent != agent {
        return Err(SentinelError::Unauthorized);
    }
    if vault.is_paused {
        return Err(SentinelError::VaultPaused);
    }
    let reward: u64 = profile.total_rewards_earned;
    if reward == 0 {
        return Err(SentinelError::ZeroAmount);
    }
    profile.total_rewards_earned = 0;
    Ok(AgentRewardClaimed { agent: profile.agent, amount: reward })
}

/// A reward is claimed exactly once: right after a claim there is nothing
/// left, so the same claim fails with `ZeroAmount` until a new reward has
/// been credited.
pub proof fn lemma_reward_is_claimed_once(
    vault: Vault,
    profile: AgentProfile,
    vault_key: Pubkey,
    agent: Pubkey,
)
    requires
        claim_agent_reward_failure(vault, profile, vault_key, agent) is None,
    ensures
        claim_agent_reward_failure(
            vault,
            AgentProfile { total_rewards_earned: 0, ..profile },
            vault_key,
            agent,
        ) == Some(SentinelError::ZeroAmount),
{
}

} // verus!
