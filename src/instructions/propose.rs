use vstd::prelude::*;
use crate::address::Address;
use crate::errors::VaultError;
use crate::events::ProposalCreated;
use crate::state::{Proposal, Vault, MAX_MEMO_LEN};

verus! {

/// What the agent's proposal of a transfer reads.
#[derive(Clone, Copy, Debug)]
pub struct Propose {
    /// Who signed the request.
    pub agent: Address,
    /// The vault record's own address.
    pub vault_key: Address,
    pub vault: Vault,
    /// The recipient wallet.
    pub recipient: Address,
    /// The recipient's holding account.
    pub recipient_ata: Address,
    /// Address derivation bump of the new proposal record.
    pub bump: u8,
}

/// The memo's length in bytes, as `str::len` gives it.
pub open spec fn memo_len(memo: String) -> usize {
    vstd::utf8::encode_utf8(memo@).len() as usize
}

/// Why the agent may not propose, if it may not.
pub open spec fn propose_refusal(vault: Vault, signer: Address, amount: u64, memo_bytes: usize) -> Option<
    VaultError,
> {
    if signer@ != vault.agent@ {
        Some(VaultError::OnlyAgent)
    } else if vault.paused {
        Some(VaultError::VaultPaused)
    } else if amount == 0 {
        Some(VaultError::ZeroAmount)
    } else if memo_bytes > MAX_MEMO_LEN {
        Some(VaultError::Overflow)
    } else if vault.proposal_count == u64::MAX {
        Some(VaultError::Overflow)
    } else {
        None
    }
}

/// Records the agent's request to send `amount` to the recipient, as a pending proposal whose id
/// is the vault's proposal count, and advances the count. Any amount may be proposed. Returns the
/// new proposal and the event. Fails, changing nothing, as `propose_refusal` says.
pub fn handler(ctx: &mut Propose, amount: u64, memo: String, now: i64) -> (r: Result<
    (Proposal, ProposalCreated),
    VaultError,
>)
    ensures
        ({
            let c = *old(ctx);
            match propose_refusal(c.vault, c.agent, amount, memo_len(memo)) {
                Some(e) => r matches Err(e2) && e2 == e && *final(ctx) == c,
                None => {
                    &&& r matches Ok((p, ev)) && {
                        &&& p.vault == c.vault_key
                        &&& p.proposal_id == c.vault.proposal_count
                        &&& p.recipient == c.recipient
                        &&& p.recipient_ata == c.recipient_ata
                        &&& p.amount == amount
                        &&& p.proposed_at == now
                        &&& !p.executed
                        &&& !p.cancelled
                        &&& p.memo@ == memo@
                        &&& p.bump == c.bump
                        &&& ev.vault == c.vault_key
                        &&& ev.proposal_id == c.vault.proposal_count
                        &&& ev.recipient == c.recipient
                        &&& ev.amount == amount
                        &&& ev.memo@ == memo@
                    }
                    &&& *final(ctx) == (Propose {
                        vault: Vault { proposal_count: (c.vault.proposal_count + 1) as u64, ..c.vault },
                        ..c
                    })
                },
            }
        }),
{
    if ctx.agent != ctx.vault.agent {
        return Err(VaultError::OnlyAgent);
    }
    if ctx.vault.paused {
        return Err(VaultError::VaultPaused);
    }
    if amount == 0 {
        return Err(VaultError::ZeroAmount);
    }
    if memo.as_str().len() > MAX_MEMO_LEN {
        return Err(VaultError::Overflow);
    }
    if ctx.vault.proposal_count == u64::MAX {
        return Err(VaultError::Overflow);
    }
    let proposal_id = ctx.vault.proposal_count;
    ctx.vault.proposal_count = proposal_id + 1;
    let event = ProposalCreated {
        vault: ctx.vault_key,
        proposal_id,
        recipient: ctx.recipient,
        amount,
        memo: memo.clone(),
    };
    let proposal = Proposal {
        vault: ctx.vault_key,
        proposal_id,
        recipient: ctx.recipient,
        recipient_ata: ctx.recipient_ata,
        amount,
        proposed_at: now,
        executed: false,
        cancelled: false,
        memo,
        bump: ctx.bump,
    };
    Ok((proposal, event))
}

} // verus!
