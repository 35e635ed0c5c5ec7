use vstd::prelude::*;
use crate::address::Address;
use crate::errors::VaultError;
use crate::events::VaultPausedEvent;
use crate::state::Vault;

verus! {

/// What pausing a vault reads.
#[derive(Clone, Copy, Debug)]
pub struct Pause {
    /// Who signed the request.
    pub human: Address,
    /// The vault record's own address.
    pub vault_key: Address,
    pub vault: Vault,
}

/// Why `signer` may not pause the vault, if they may not.
pub open spec fn pause_refusal(vault: Vault, signer: Address) -> Option<VaultError> {
    if signer@ != vault.human@ {
        Some(VaultError::OnlyHuman)
    } else if vault.paused {
        Some(VaultError::VaultPaused)
    } else {
        None
    }
}

/// Blocks agent activity on the vault. Fails, changing nothing, as `pause_refusal` says.
pub fn handler(ctx: &mut Pause) -> (r: Result<VaultPausedEvent, VaultError>)
    ensures
        match pause_refusal(old(ctx).vault, old(ctx).human) {
            Some(e) => r == Err::<VaultPausedEvent, VaultError>(e) && *final(ctx) == *old(ctx),
            None => {
                &&& r == Ok::<VaultPausedEvent, VaultError>(VaultPausedEvent { vault: old(ctx).vault_key })
                &&& *final(ctx) == (Pause { vault: Vault { paused: true, ..old(ctx).vault }, ..*old(ctx) })
            },
        },
{
    if ctx.human != ctx.vault.human {
        return Err(VaultError::OnlyHuman);
    }
    if ctx.vault.paused {
        return Err(VaultError::VaultPaused);
    }
    ctx.vault.paused = true;
    Ok(VaultPausedEvent { vault: ctx.vault_key })
}

} // verus!
