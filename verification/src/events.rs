//! The notifications that the operations hand back: one per operation,
//! returned only when the operation has been applied.

use vstd::prelude::*;
use crate::pubkey::Pubkey;

verus! {

/// A vault was created.
#[derive(Clone, Copy, Debug, PartialEq, Eq)]
pub struct VaultInitialized {
    pub authority: Pubkey,
    pub guardian: Pubkey,
    pub oracle: Pubkey,
    pub daily_withdraw_cap: u64,
    pub cooldown_seconds: i64,
}

/// Value was deposited and shares were minted for it.
#[derive(Clone, Copy, Debug, PartialEq, Eq)]
pub struct Deposited {
    pub user: Pubkey,
    pub amount: u64,
    pub shares_minted: u64,
    pub total_vault_shares: u64,
}

/// Shares were burned and their value is to be paid to `user`.
#[derive(Clone, Copy, Debug, PartialEq, Eq)]
pub struct Withdrawn {
    pub user: Pubkey,
    pub shares_burned: u64,
    pub amount_returned: u64,
    pub total_vault_shares: u64,
}

/// A profit entered the pool.
#[derive(Clone, Copy, Debug, PartialEq, Eq)]
pub struct ProfitsDistributed {
    pub oracle: Pubkey,
    pub amount: u64,
    pub agent_reward: u64,
    pub total_vault_balance: u64,
    pub total_profits_distributed: u64,
}

/// The guardian paused or resumed the vault.
#[derive(Clone, Copy, Debug, PartialEq, Eq)]
pub struct EmergencyAction {
    pub guardian: Pubkey,
    pub paused: bool,
    pub timestamp: i64,
}

/// The guardian changed the withdrawal policy.
#[derive(Clone, Copy, Debug, PartialEq, Eq)]
pub struct PolicyUpdated {
    pub guardian: Pubkey,
    pub daily_withdraw_cap: u64,
    pub cooldown_seconds: i64,
}

/// The authority changed who is guardian or oracle.
#[derive(Clone, Copy, Debug, PartialEq, Eq)]
pub struct RolesUpdated {
    pub authority: Pubkey,
    pub guardian: Pubkey,
    pub oracle: Pubkey,
}

/// An agent was registered.
#[derive(Clone, Copy, Debug, PartialEq, Eq)]
pub struct AgentRegistered {
    pub vault: Pubkey,
    pub agent: Pubkey,
}

/// An agent was deactivated.
#[derive(Clone, Copy, Debug, PartialEq, Eq)]
pub struct AgentDeactivated {
    pub vault: Pubkey,
    pub agent: Pubkey,
}

/// A trade of an agent was recorded.
#[derive(Clone, Copy, Debug, PartialEq, Eq)]
pub struct TradeReported {
    pub agent: Pubkey,
    pub pnl_bps: i64,
    pub is_win: bool,
    pub trade_count: u32,
    pub cumulative_pnl: i64,
}

/// The score of an agent, as a ratio that is left undivided.
#[derive(Clone, Copy, Debug, PartialEq, Eq)]
pub struct AgentScoreComputed {
    pub agent: Pubkey,
    pub trade_count: u32,
    pub win_rate_bps: u64,
    pub cumulative_pnl: i64,
    /// The square of the sum of the returns.
    pub score_numerator: u128,
    /// The number of trades times the sum of the squared returns, less the
    /// square of the sum; at least 1.
    pub score_denominator: u128,
    /// Whether the mean return is not negative.
    pub mean_positive: bool,
}

/// An agent's reward is to be paid out.
#[derive(Clone, Copy, Debug, PartialEq, Eq)]
pub struct AgentRewardClaimed {
    pub agent: Pubkey,
    pub amount: u64,
}

/// The vault moved on to the next epoch.
#[derive(Clone, Copy, Debug, PartialEq, Eq)]
pub struct EpochAdvanced {
    pub vault: Pubkey,
    pub previous_epoch: u64,
    pub new_epoch: u64,
    pub epoch_profit: u64,
}

/// A depositor replaced the whitelist.
#[derive(Clone, Copy, Debug, PartialEq, Eq)]
pub struct WhitelistUpdated {
    pub user: Pubkey,
    pub count: u8,
}

} // verus!
