use vstd::prelude::*;
use crate::address::Address;

verus! {

/// A vault was created.
#[derive(Clone, Copy, Debug)]
pub struct VaultInitialized {
    pub vault: Address,
    pub human: Address,
    pub agent: Address,
    pub usdc_mint: Address,
}

/// A direct transfer out of a vault was made.
#[derive(Clone, Copy, Debug)]
pub struct UsdcSent {
    pub vault: Address,
    pub signer: Address,
    pub recipient: Address,
    pub amount: u64,
    pub fee: u64,
    pub tier: u8,
    pub whitelisted: bool,
}

/// The agent proposed a transfer.
#[derive(Debug)]
pub struct ProposalCreated {
    pub vault: Address,
    pub proposal_id: u64,
    pub recipient: Address,
    pub amount: u64,
    pub memo: String,
}

/// The human approved a proposal and its transfer was made.
#[derive(Clone, Copy, Debug)]
pub struct ProposalApproved {
    pub vault: Address,
    pub proposal_id: u64,
    pub recipient: Address,
    pub amount: u64,
    pub fee: u64,
}

/// The human cancelled a proposal.
#[derive(Clone, Copy, Debug)]
pub struct ProposalCancelled {
    pub vault: Address,
    pub proposal_id: u64,
}

/// The human changed the agent's tiers.
#[derive(Clone, Copy, Debug)]
pub struct TiersUpdated {
    pub vault: Address,
    pub tier1_max: u64,
    pub tier2_max: u64,
}

/// The human whitelisted a recipient.
#[derive(Clone, Copy, Debug)]
pub struct WhitelistAdded {
    pub vault: Address,
    pub address: Address,
}

/// The human removed a recipient from the whitelist.
#[derive(Clone, Copy, Debug)]
pub struct WhitelistRemoved {
    pub vault: Address,
    pub address: Address,
}

/// The human paused the vault.
#[derive(Clone, Copy, Debug)]
pub struct VaultPausedEvent {
    pub vault: Address,
}

/// The human unpaused the vault.
#[derive(Clone, Copy, Debug)]
pub struct VaultUnpausedEvent {
    pub vault: Address,
}

/// The protocol configuration was created.
#[derive(Clone, Copy, Debug)]
pub struct ProtocolInitialized {
    pub authority: Address,
    pub fee_bps: u16,
    pub usdc_mint: Address,
    pub tandem_mint: Address,
}

/// A staker added to their stake.
#[derive(Clone, Copy, Debug)]
pub struct Staked {
    pub staker: Address,
    pub amount: u64,
    pub total_staked: u64,
}

/// A staker withdrew their whole stake.
#[derive(Clone, Copy, Debug)]
pub struct Unstaked {
    pub staker: Address,
    pub amount: u64,
    pub total_staked: u64,
}

/// A staker was paid the rewards they were owed.
#[derive(Clone, Copy, Debug)]
pub struct RewardsClaimed {
    pub staker: Address,
    pub amount: u64,
}

} // verus!
