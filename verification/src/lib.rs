//! A pooled-capital vault: share-based net-asset-value accounting, a
//! per-depositor withdrawal policy, and an integer-only risk-adjusted score
//! for the agents that trade on the pool's behalf.
//!
//! Every operation works on plain in-memory state and either returns the
//! notification that describes what happened, with the state updated, or
//! returns a typed failure and leaves every entity exactly as it was.

pub mod admin;
pub mod agents;
pub mod deposits;
pub mod error;
pub mod events;
pub mod nav;
pub mod performance;
pub mod policy;
pub mod profits;
pub mod pubkey;
pub mod state;
pub mod withdrawals;

pub use admin::{advance_epoch, emergency_stop, initialize, update_policy, update_roles};
pub use agents::{
    claim_agent_reward, deactivate_agent, query_agent_score, register_agent, report_trade,
};
pub use deposits::deposit;
pub use error::SentinelError;
pub use events::{
    AgentDeactivated, AgentRegistered, AgentRewardClaimed, AgentScoreComputed, Deposited,
    EmergencyAction, EpochAdvanced, PolicyUpdated, ProfitsDistributed, RolesUpdated,
    TradeReported, VaultInitialized, WhitelistUpdated, Withdrawn,
};
pub use profits::distribute_profits;
pub use pubkey::Pubkey;
pub use state::{AgentProfile, UserPosition, Vault};
pub use withdrawals::{set_whitelist, withdraw};
