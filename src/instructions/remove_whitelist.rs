use vstd::prelude::*;
use crate::address::Address;
use crate::errors::VaultError;
use crate::events::WhitelistRemoved;
use crate::state::{Vault, WhitelistEntry};

verus! {

/// What the removal of a whitelisted recipient reads.
#[derive(Clone, Copy, Debug)]
pub struct RemoveWhitelist {
    /// Who signed the request.
    pub human: Address,
    /// The vault record's own address.
    pub vault_key: Address,
    pub vault: Vault,
    /// The entry to remove.
    pub whitelist_entry: WhitelistEntry,
}

/// Decides whether the entry may be removed: only by the human. On success the entry's record is
/// to be reclaimed.
pub fn handler(ctx: &RemoveWhitelist) -> (r: Result<WhitelistRemoved, VaultError>)
    ensures
        ctx.human@ != ctx.vault.human@ ==> r == Err::<WhitelistRemoved, VaultError>(VaultError::OnlyHuman),
        ctx.human@ == ctx.vault.human@ ==> r == Ok::<WhitelistRemoved, VaultError>(
            WhitelistRemoved { vault: ctx.vault_key, address: ctx.whitelist_entry.address },
        ),
{
    if ctx.human != ctx.vault.human {
        return Err(VaultError::OnlyHuman);
    }
    Ok(WhitelistRemoved { vault: ctx.vault_key, address: ctx.whitelist_entry.address })
}

} // verus!
