use vstd::prelude::*;
use crate::address::Address;
use crate::errors::VaultError;
use crate::events::VaultUnpausedEvent;
use crate::state::Vault;

verus! {

/// What unpausing a vault reads.
#[derive(Clone, Copy, Debug)]
pub struct Unpause {
    /// Who signed the request.
    pub human: Address,
    /// The vault record's own address.
    pub vault_key: Address,
    pub vault: Vault,
}

/// Why `signer` may not unpause the vault, if they may not.
pub open spec fn unpause_refusal(vault: Vault, signer: Address) -> Option<VaultError> {
    if signer@ != vault.human@ {
        Some(VaultError::OnlyHuman)
    } else if !vault.paused {
        Some(VaultError::VaultNotPaused)
    } else {
        None
    }
}

/// Lets the agent act on the vault again. Fails, changing nothing, as `unpause_refusal` says.
pub fn handler(ctx: &mut Unpause) -> (r: Result<VaultUnpausedEvent, VaultError>)
    ensures
        match unpause_refusal(old(ctx).vault, old(ctx).human) {
            Some(e) => r == Err::<VaultUnpausedEvent, VaultError>(e) && *final(ctx) == *old(ctx),
            None => {
                &&& r == Ok::<VaultUnpausedEvent, VaultError>(VaultUnpausedEvent { vault: old(ctx).vault_key })
                &&& *final(ctx) == (Unpause { vault: Vault { paused: false, ..old(ctx).vault }, ..*old(ctx) })
            },
        },
{
    if ctx.human != ctx.vault.human {
        return Err(VaultError::OnlyHuman);
    }
    if !ctx.vault.paused {
        return Err(VaultError::VaultNotPaused);
    }
    ctx.vault.paused = false;
    Ok(VaultUnpausedEvent { vault: ctx.vault_key })
}

} // verus!
