use vstd::prelude::*;
use crate::address::Address;
use crate::errors::VaultError;
use crate::events::WhitelistAdded;
use crate::state::{Vault, WhitelistEntry};

verus! {

/// What the whitelisting of a recipient reads.
#[derive(Clone, Copy, Debug)]
pub struct AddWhitelist {
    /// Who signed the request.
    pub human: Address,
    /// The vault record's own address.
    pub vault_key: Address,
    pub vault: Vault,
    /// The entry already recorded for this vault and recipient, if there is one.
    pub whitelist_entry: Option<WhitelistEntry>,
    /// Address derivation bump of the new entry.
    pub bump: u8,
}

/// Why `signer` may not whitelist a recipient, if they may not.
pub open spec fn add_whitelist_refusal(vault: Vault, signer: Address, existing: Option<WhitelistEntry>) -> Option<
    VaultError,
> {
    if signer@ != vault.human@ {
        Some(VaultError::OnlyHuman)
    } else if existing is Some {
        Some(VaultError::AlreadyWhitelisted)
    } else {
        None
    }
}

/// Records `address` as a recipient the agent may pay without tier checks, stamped with `now`.
/// Fails, changing nothing, as `add_whitelist_refusal` says.
pub fn handler(ctx: &mut AddWhitelist, address: Address, now: i64) -> (r: Result<WhitelistAdded, VaultError>)
    ensures
        match add_whitelist_refusal(old(ctx).vault, old(ctx).human, old(ctx).whitelist_entry) {
            Some(e) => r == Err::<WhitelistAdded, VaultError>(e) && *final(ctx) == *old(ctx),
            None => {
                &&& r == Ok::<WhitelistAdded, VaultError>(
                    WhitelistAdded { vault: old(ctx).vault_key, address },
                )
                &&& *final(ctx) == (AddWhitelist {
                    whitelist_entry: Some(
                        WhitelistEntry {
                            vault: old(ctx).vault_key,
                            address,
                            added_at: now,
                            bump: old(ctx).bump,
                        },
                    ),
                    ..*old(ctx)
                })
            },
        },
{
    if ctx.human != ctx.vault.human {
        return Err(VaultError::OnlyHuman);
    }
    if ctx.whitelist_entry.is_some() {
        return Err(VaultError::AlreadyWhitelisted);
    }
    ctx.whitelist_entry = Some(
        WhitelistEntry { vault: ctx.vault_key, address, added_at: now, bump: ctx.bump },
    );
    Ok(WhitelistAdded { vault: ctx.vault_key, address })
}

} // verus!
