use vstd::prelude::*;
use crate::address::Address;

verus! {

/// Seconds that must pass after a staker's latest stake before the stake can be withdrawn.
pub const LOCKUP_SECONDS: i64 = 7 * 24 * 60 * 60;

/// Fixed-point scale of the reward-per-token accumulator.
pub const REWARD_PRECISION: u128 = 1_000_000_000_000;

/// Basis points in one whole.
pub const BPS_DENOMINATOR: u128 = 10_000;

/// The largest fee the protocol may charge, in basis points.
pub const MAX_FEE_BPS: u16 = 10_000;

/// The longest memo a proposal may carry, in bytes.
pub const MAX_MEMO_LEN: usize = 128;

/// A spending account shared by a human owner and an agent delegate.
#[derive(Clone, Copy, Debug)]
pub struct Vault {
    /// The human owner who controls this vault.
    pub human: Address,
    /// The agent allowed to spend within its tiers.
    pub agent: Address,
    /// The settlement token.
    pub usdc_mint: Address,
    /// The vault's holding account for the settlement token.
    pub vault_usdc_ata: Address,
    /// Largest amount the agent may send per transfer without an emergency flag.
    pub tier1_max: u64,
    /// Largest amount the agent may send per transfer with an emergency flag.
    pub tier2_max: u64,
    /// Whether agent activity is blocked.
    pub paused: bool,
    /// Number of proposals created against this vault; the next proposal's id.
    pub proposal_count: u64,
    /// Address derivation bump.
    pub bump: u8,
}

impl Vault {
    /// The tiers are ordered.
    pub open spec fn wf(&self) -> bool {
        self.tier1_max <= self.tier2_max
    }
}

/// A transfer request that exceeds the agent's autonomy and waits for the human.
#[derive(Debug)]
pub struct Proposal {
    /// The vault this proposal belongs to.
    pub vault: Address,
    /// Sequential id within the vault.
    pub proposal_id: u64,
    /// The recipient wallet.
    pub recipient: Address,
    /// The recipient's holding account for the settlement token.
    pub recipient_ata: Address,
    /// Amount requested, in minor units.
    pub amount: u64,
    /// Unix time of creation.
    pub proposed_at: i64,
    /// Whether the human approved it and the transfer was made.
    pub executed: bool,
    /// Whether the human cancelled it.
    pub cancelled: bool,
    /// What the transfer is for.
    pub memo: String,
    /// Address derivation bump.
    pub bump: u8,
}

impl Proposal {
    /// Approved or cancelled: no further transition but reclaiming the record.
    pub open spec fn is_terminal(&self) -> bool {
        self.executed || self.cancelled
    }

    /// Never both approved and cancelled.
    pub open spec fn wf(&self) -> bool {
        !(self.executed && self.cancelled)
    }
}

/// A recipient that the agent may pay without tier checks.
#[derive(Clone, Copy, Debug)]
pub struct WhitelistEntry {
    /// The vault this entry belongs to.
    pub vault: Address,
    /// The whitelisted recipient wallet.
    pub address: Address,
    /// Unix time the entry was added.
    pub added_at: i64,
    /// Address derivation bump.
    pub bump: u8,
}

/// The protocol-wide configuration and reward accumulator.
#[derive(Clone, Copy, Debug)]
pub struct ProtocolConfig {
    /// Who may change the configuration.
    pub authority: Address,
    /// Fee charged on every transfer out of a vault, in basis points.
    pub fee_bps: u16,
    /// The settlement token.
    pub usdc_mint: Address,
    /// The governance token that stakers deposit.
    pub tandem_mint: Address,
    /// Holding account where the stakers' half of each fee accumulates.
    pub staker_reward_ata: Address,
    /// Holding account that receives the buyback half of each fee.
    pub buyback_ata: Address,
    /// Reward earned per staked unit since inception, scaled by `REWARD_PRECISION`.
    pub reward_per_token_stored: u128,
    /// Governance tokens currently staked.
    pub total_staked: u64,
    /// Rewards paid out to stakers so far.
    pub total_rewards_claimed: u64,
    /// Reward income already spread into the accumulator.
    pub total_rewards_processed: u64,
    /// Address derivation bump.
    pub bump: u8,
}

impl ProtocolConfig {
    /// The fee is at most the whole amount.
    pub open spec fn wf(&self) -> bool {
        self.fee_bps <= MAX_FEE_BPS
    }
}

/// One staker's position in the pool.
#[derive(Clone, Copy, Debug)]
pub struct StakeAccount {
    /// The staker.
    pub staker: Address,
    /// Governance tokens staked.
    pub staked_amount: u64,
    /// The accumulator's value when this account was last brought up to date.
    pub reward_per_token_paid: u128,
    /// Rewards accrued and not yet claimed.
    pub rewards_owed: u64,
    /// Unix time of the latest stake; the lockup runs from here.
    pub last_stake_ts: i64,
    /// Address derivation bump.
    pub bump: u8,
}

} // verus!
