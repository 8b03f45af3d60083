//! The failures an operation can report.

use vstd::prelude::*;

verus! {

/// Why an operation was refused. A refused operation changes nothing.
#[derive(Clone, Copy, Debug, PartialEq, Eq, Structural, Hash)]
pub enum SentinelError {
    /// The vault is paused by its guardian.
    VaultPaused,
    /// An amount (deposited, burned, paid out or claimed) is zero.
    ZeroAmount,
    /// A deposit is smaller than the minimum deposit.
    BelowMinDeposit,
    /// A deposit is too small to buy a single share.
    ZeroShares,
    /// More shares are to be burned than the position holds.
    InsufficientShares,
    /// Profit cannot be shared while no shares are outstanding.
    NoShareholders,
    /// A value does not fit the width it is stored in.
    MathOverflow,
    /// The caller does not hold the role that the operation needs.
    Unauthorized,
    /// The cooldown since the last withdrawal has not elapsed.
    CooldownActive,
    /// The withdrawal would exceed the daily cap.
    DailyCapExceeded,
    /// The recipient is neither the owner nor on the whitelist.
    DestinationNotWhitelisted,
    /// More destinations were given than a whitelist can hold.
    TooManyWhitelistEntries,
    /// The agent has been deactivated.
    AgentInactive,
    /// The agent has no trades to score.
    NoTradeData,
    /// The agent's fee exceeds the maximum carve-out.
    FeeTooHigh,
    /// The vault does not hold enough to pay.
    InsufficientFunds,
}

impl SentinelError {
    /// What `message` says of each failure.
    pub open spec fn description(self) -> Seq<char> {
        match self {
            SentinelError::VaultPaused => "Vault is paused \u{2014} emergency stop active"@,
            SentinelError::ZeroAmount => "Amount must be greater than zero"@,
            SentinelError::BelowMinDeposit => "Deposit below minimum threshold"@,
            SentinelError::ZeroShares => "Calculated shares would be zero"@,
            SentinelError::InsufficientShares => "Insufficient shares for withdrawal"@,
            SentinelError::NoShareholders => "No shareholders in the vault"@,
            SentinelError::MathOverflow => "Math overflow"@,
            SentinelError::Unauthorized => "Unauthorized"@,
            SentinelError::CooldownActive => "Withdrawal cooldown period still active"@,
            SentinelError::DailyCapExceeded => "Daily withdrawal cap exceeded"@,
            SentinelError::DestinationNotWhitelisted => "Withdrawal destination not in whitelist"@,
            SentinelError::TooManyWhitelistEntries => "Too many whitelist entries (max 4)"@,
            SentinelError::AgentInactive => "Agent is inactive"@,
            SentinelError::NoTradeData => "No trade data available for scoring"@,
            SentinelError::FeeTooHigh => "Agent fee exceeds maximum (30%)"@,
            SentinelError::InsufficientFunds => "Insufficient funds in vault"@,
        }
    }

    /// A sentence that describes the failure.
    pub fn message(&self) -> (text: &'static str)
        ensures
            text@ == self.description(),
    {
        match self {
            SentinelError::VaultPaused => "Vault is paused \u{2014} emergency stop active",
            SentinelError::ZeroAmount => "Amount must be greater than zero",
            SentinelError::BelowMinDeposit => "Deposit below minimum threshold",
            SentinelError::ZeroShares => "Calculated shares would be zero",
            SentinelError::InsufficientShares => "Insufficient shares for withdrawal",
            SentinelError::NoShareholders => "No shareholders in the vault",
            SentinelError::MathOverflow => "Math overflow",
            SentinelError::Unauthorized => "Unauthorized",
            SentinelError::CooldownActive => "Withdrawal cooldown period still active",
            SentinelError::DailyCapExceeded => "Daily withdrawal cap exceeded",
            SentinelError::DestinationNotWhitelisted => "Withdrawal destination not in whitelist",
            SentinelError::TooManyWhitelistEntries => "Too many whitelist entries (max 4)",
            SentinelError::AgentInactive => "Agent is inactive",
            SentinelError::NoTradeData => "No trade data available for scoring",
            SentinelError::FeeTooHigh => "Agent fee exceeds maximum (30%)",
            SentinelError::InsufficientFunds => "Insufficient funds in vault",
        }
    }
}

} // verus!
