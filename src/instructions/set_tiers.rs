use vstd::prelude::*;
use crate::address::Address;
use crate::errors::VaultError;
use crate::events::TiersUpdated;
use crate::state::Vault;

verus! {

/// What a change of the agent's tiers reads.
#[derive(Clone, Copy, Debug)]
pub struct SetTiers {
    /// Who signed the request.
    pub human: Address,
    /// The vault record's own address.
    pub vault_key: Address,
    pub vault: Vault,
}

/// Why `signer` may not set these tiers, if they may not.
pub open spec fn set_tiers_refusal(vault: Vault, signer: Address, tier1_max: u64, tier2_max: u64) -> Option<
    VaultError,
> {
    if signer@ != vault.human@ {
        Some(VaultError::OnlyHuman)
    } else if tier1_max > tier2_max {
        Some(VaultError::InvalidThresholds)
    } else {
        None
    }
}

/// Replaces the vault's tiers. Fails, changing nothing, as `set_tiers_refusal` says.
pub fn handler(ctx: &mut SetTiers, tier1_max: u64, tier2_max: u64) -> (r: Result<TiersUpdated, VaultError>)
    ensures
        match set_tiers_refusal(old(ctx).vault, old(ctx).human, tier1_max, tier2_max) {
            Some(e) => r == Err::<TiersUpdated, VaultError>(e) && *final(ctx) == *old(ctx),
            None => {
                &&& r == Ok::<TiersUpdated, VaultError>(
                    TiersUpdated { vault: old(ctx).vault_key, tier1_max, tier2_max },
                )
                &&& *final(ctx) == (SetTiers {
                    vault: Vault { tier1_max, tier2_max, ..old(ctx).vault },
                    ..*old(ctx)
                })
                &&& final(ctx).vault.wf()
            },
        },
{
    if ctx.human != ctx.vault.human {
        return Err(VaultError::OnlyHuman);
    }
    if tier1_max > tier2_max {
        return Err(VaultError::InvalidThresholds);
    }
    ctx.vault.tier1_max = tier1_max;
    ctx.vault.tier2_max = tier2_max;
    Ok(TiersUpdated { vault: ctx.vault_key, tier1_max, tier2_max })
}

} // verus!
