use vstd::prelude::*;
use crate::address::Address;
use crate::errors::VaultError;
use crate::events::VaultInitialized;
use crate::state::Vault;

verus! {

/// What the creation of a vault reads.
#[derive(Clone, Copy, Debug)]
pub struct Initialize {
    /// The human creating the vault, who signed the request.
    pub human: Address,
    /// The agent delegate.
    pub agent: Address,
    /// The settlement token.
    pub usdc_mint: Address,
    /// The new vault record's own address.
    pub vault_key: Address,
    /// The vault's holding account for the settlement token.
    pub vault_usdc_ata: Address,
    /// Address derivation bump of the new vault record.
    pub bump: u8,
}

/// Creates an unpaused vault for the human and the agent, with no proposals yet and the given
/// tiers. Fails with `InvalidThresholds` where `tier1_max > tier2_max`.
pub fn handler(ctx: &Initialize, tier1_max: u64, tier2_max: u64) -> (r: Result<(Vault, VaultInitialized), VaultError>)
    ensures
        tier1_max > tier2_max ==> (r matches Err(e) && e == VaultError::InvalidThresholds),
        tier1_max <= tier2_max ==> (r matches Ok((v, ev)) && {
            &&& v == (Vault {
                human: ctx.human,
                agent: ctx.agent,
                usdc_mint: ctx.usdc_mint,
                vault_usdc_ata: ctx.vault_usdc_ata,
                tier1_max,
                tier2_max,
                paused: false,
                proposal_count: 0,
                bump: ctx.bump,
            })
            &&& v.wf()
            &&& ev == (VaultInitialized {
                vault: ctx.vault_key,
                human: ctx.human,
                agent: ctx.agent,
                usdc_mint: ctx.usdc_mint,
            })
        }),
{
    if tier1_max > tier2_max {
        return Err(VaultError::InvalidThresholds);
    }
    let vault = Vault {
        human: ctx.human,
        agent: ctx.agent,
        usdc_mint: ctx.usdc_mint,
        vault_usdc_ata: ctx.vault_usdc_ata,
        tier1_max,
        tier2_max,
        paused: false,
        proposal_count: 0,
        bump: ctx.bump,
    };
    let event = VaultInitialized {
        vault: ctx.vault_key,
        human: ctx.human,
        agent: ctx.agent,
        usdc_mint: ctx.usdc_mint,
    };
    Ok((vault, event))
}

} // verus!
