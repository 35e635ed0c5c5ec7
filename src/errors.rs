use vstd::prelude::*;

verus! {

/// Every way an operation on a vault or on the staking pool can fail.
/// A failure discards the whole operation: no record changes and no transfer is requested.
#[derive(Clone, Copy, Debug, PartialEq, Eq, Structural)]
pub enum VaultError {
    /// Only the human signer can perform this action.
    OnlyHuman,
    /// Only the agent signer can perform this action.
    OnlyAgent,
    /// Only the agent or human signer can perform this action.
    OnlyAgentOrHuman,
    /// The vault is paused.
    VaultPaused,
    /// The vault is not paused.
    VaultNotPaused,
    /// Tier 1 max must be less than or equal to tier 2 max.
    InvalidThresholds,
    /// The proposal has already been executed.
    ProposalAlreadyExecuted,
    /// The proposal has already been cancelled.
    ProposalAlreadyCancelled,
    /// The amount exceeds tier 2 max: a proposal is needed.
    TierTooHigh,
    /// The amount exceeds tier 1 max and the transfer is not flagged as an emergency.
    NotEmergency,
    /// The address is already whitelisted.
    AlreadyWhitelisted,
    /// The amount must be greater than zero.
    ZeroAmount,
    /// A checked arithmetic operation would wrap or lose precision.
    Overflow,
    /// The lockup after the last stake has not elapsed.
    LockupNotElapsed,
    /// Nothing is staked.
    NothingStaked,
    /// No rewards are owed.
    NoRewardsToClaim,
    /// Only the protocol authority can perform this action.
    OnlyAuthority,
    /// Fee basis points must be at most 10000.
    InvalidFeeBps,
}

} // verus!
