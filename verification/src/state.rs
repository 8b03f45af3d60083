//! The three records that the vault keeps: the vault itself, one position per
//! depositor and one profile per agent.

use vstd::prelude::*;
use crate::pubkey::Pubkey;

verus! {

/// The smallest deposit that is accepted.
pub const MIN_DEPOSIT: u64 = 10_000;

/// Seconds in a UTC day; a day bucket is a timestamp divided by this.
pub const SECONDS_PER_DAY: i64 = 86_400;

/// The whole, in basis points.
pub const BPS_DENOMINATOR: u64 = 10_000;

/// The largest carve-out for an agent, in basis points (30%).
pub const MAX_AGENT_FEE_BPS: u16 = 3_000;

/// The number of destinations a whitelist can hold.
pub const MAX_WHITELIST: usize = 4;

/// The pool: who controls it, how many shares are outstanding, and the
/// withdrawal policy that applies to every depositor.
#[derive(Clone, Copy, Debug, PartialEq, Eq)]
pub struct Vault {
    /// The authority that created the vault and controls its roles.
    pub authority: Pubkey,
    /// The guardian, who may pause the vault and change the policy.
    pub guardian: Pubkey,
    /// The oracle, who reports trades and distributes profits.
    pub oracle: Pubkey,
    /// Shares outstanding: the denominator of the value per share.
    pub total_shares: u64,
    /// Everything ever deposited.
    pub total_deposited: u64,
    /// Every profit ever distributed.
    pub total_profits_distributed: u64,
    /// Whether the vault is paused.
    pub is_paused: bool,
    /// Address bump of the vault record.
    pub bump: u8,
    /// Address bump of the record that holds the pool's balance.
    pub vault_sol_bump: u8,
    /// The most a depositor may withdraw per UTC day; 0 is unlimited.
    pub daily_withdraw_cap: u64,
    /// The least time between two withdrawals of a depositor; 0 disables it.
    pub cooldown_seconds: i64,
    /// The current epoch.
    pub epoch: u64,
    /// Profit distributed in the current epoch.
    pub epoch_profit: u64,
    /// The number of agents registered.
    pub agent_count: u32,
}

/// One depositor's claim on the pool, with the state of the withdrawal
/// policy for that depositor.
#[derive(Clone, Copy, Debug, PartialEq, Eq)]
pub struct UserPosition {
    /// The depositor; empty until the first deposit binds it.
    pub owner: Pubkey,
    /// The vault that the position belongs to.
    pub vault: Pubkey,
    /// Shares held.
    pub shares: u64,
    /// Everything this depositor ever deposited.
    pub total_deposited: u64,
    /// Everything this depositor ever withdrew.
    pub total_withdrawn: u64,
    /// When the position was last changed by a deposit or a withdrawal.
    pub last_action_ts: i64,
    /// When the depositor last withdrew; 0 if never.
    pub last_withdraw_ts: i64,
    /// The day bucket that `daily_withdrawn` counts for.
    pub last_withdraw_day: i64,
    /// What was withdrawn in the day bucket `last_withdraw_day`.
    pub daily_withdrawn: u64,
    /// Destinations that withdrawals may go to; the first `whitelist_count`
    /// entries count.
    pub whitelist: [Pubkey; 4],
    /// The number of whitelist entries in use; 0 lifts the restriction.
    pub whitelist_count: u8,
}

impl UserPosition {
    /// A position uses no more whitelist entries than there are slots.
    pub open spec fn wf(&self) -> bool {
        self.whitelist_count as int <= MAX_WHITELIST as int
    }

    /// Tells whether the position uses no more whitelist entries than there
    /// are slots.
    pub fn is_well_formed(&self) -> (r: bool)
        ensures
            r == self.wf(),
    {
        self.whitelist_count as usize <= MAX_WHITELIST
    }

    /// The destinations on the whitelist, in order.
    pub open spec fn destinations(&self) -> Seq<Pubkey> {
        self.whitelist@.take(self.whitelist_count as int)
    }

    /// Four whitelist slots, all unused.
    pub open spec fn no_destinations() -> [Pubkey; 4] {
        vstd::array::spec_array_fill_for_copy_type::<Pubkey, 4>(Pubkey::empty())
    }

    /// The position that nobody has deposited into yet: no owner, no shares,
    /// no history, no whitelist.
    pub open spec fn vacant() -> UserPosition {
        UserPosition {
            owner: Pubkey::empty(),
            vault: Pubkey::empty(),
            shares: 0,
            total_deposited: 0,
            total_withdrawn: 0,
            last_action_ts: 0,
            last_withdraw_ts: 0,
            last_withdraw_day: 0,
            daily_withdrawn: 0,
            whitelist: UserPosition::no_destinations(),
            whitelist_count: 0,
        }
    }

    /// Makes the vacant position.
    pub fn new() -> (position: UserPosition)
        ensures
            position == UserPosition::vacant(),
            position.wf(),
    {
        UserPosition {
            owner: Pubkey::default(),
            vault: Pubkey::default(),
            shares: 0,
            total_deposited: 0,
            total_withdrawn: 0,
            last_action_ts: 0,
            last_withdraw_ts: 0,
            last_withdraw_day: 0,
            daily_withdrawn: 0,
            whitelist: [Pubkey::default(); 4],
            whitelist_count: 0,
        }
    }
}

/// What is known of one agent: the running sums of its reported trades, from
/// which its score is derived, and the reward it can claim.
#[derive(Clone, Copy, Debug, PartialEq, Eq)]
pub struct AgentProfile {
    /// The agent.
    pub agent: Pubkey,
    /// The vault that the agent works for.
    pub vault: Pubkey,
    /// The number of trades reported.
    pub trade_count: u32,
    /// How many of them were wins.
    pub winning_trades: u32,
    /// The sum of the returns, in basis points.
    pub cumulative_pnl: i64,
    /// The sum of the returns, kept in a wider type.
    pub sum_returns: i128,
    /// The sum of the squares of the returns.
    pub sum_sq_returns: u128,
    /// The reward that the agent can claim.
    pub total_rewards_earned: u64,
    /// When a trade was last reported.
    pub last_report_ts: i64,
    /// Whether trades may still be reported for the agent.
    pub is_active: bool,
}

impl AgentProfile {
    /// No more wins than trades.
    pub open spec fn wf(&self) -> bool {
        self.winning_trades <= self.trade_count
    }

    /// The profile of an agent that has just been registered.
    pub open spec fn fresh(agent: Pubkey, vault: Pubkey) -> AgentProfile {
        AgentProfile {
            agent,
            vault,
            trade_count: 0,
            winning_trades: 0,
            cumulative_pnl: 0,
            sum_returns: 0,
            sum_sq_returns: 0,
            total_rewards_earned: 0,
            last_report_ts: 0,
            is_active: true,
        }
    }
}

} // verus!
