use vstd::prelude::*;
use crate::address::Address;
use crate::errors::VaultError;
use crate::events::ProposalCancelled;
use crate::state::{Proposal, Vault};

verus! {

/// What the human's cancellation of a proposal reads.
#[derive(Debug)]
pub struct CancelProposal {
    /// Who signed the request.
    pub human: Address,
    /// The vault record's own address.
    pub vault_key: Address,
    pub vault: Vault,
    pub proposal: Proposal,
}

/// Why a proposal is no longer pending, if it is not.
pub open spec fn pending_refusal(p: Proposal) -> Option<VaultError> {
    if p.executed {
        Some(VaultError::ProposalAlreadyExecuted)
    } else if p.cancelled {
        Some(VaultError::ProposalAlreadyCancelled)
    } else {
        None
    }
}

/// Why `signer` may not approve or cancel the proposal, if they may not: only the human
/// resolves a proposal, and only a pending one. A pause does not stop them.
pub open spec fn resolution_refusal(vault: Vault, signer: Address, p: Proposal) -> Option<VaultError> {
    if signer@ != vault.human@ {
        Some(VaultError::OnlyHuman)
    } else {
        pending_refusal(p)
    }
}

/// Decides whether `signer` may approve or cancel the proposal.
pub fn check_resolution(vault: &Vault, signer: &Address, proposal: &Proposal) -> (r: Result<(), VaultError>)
    ensures
        match resolution_refusal(*vault, *signer, *proposal) {
            Some(e) => r == Err::<(), VaultError>(e),
            None => r is Ok,
        },
{
    if *signer != vault.human {
        return Err(VaultError::OnlyHuman);
    }
    if proposal.executed {
        return Err(VaultError::ProposalAlreadyExecuted);
    }
    if proposal.cancelled {
        return Err(VaultError::ProposalAlreadyCancelled);
    }
    Ok(())
}

/// Marks a pending proposal cancelled. Fails, changing nothing, as `resolution_refusal` says.
pub fn handler(ctx: &mut CancelProposal) -> (r: Result<ProposalCancelled, VaultError>)
    ensures
        match resolution_refusal(old(ctx).vault, old(ctx).human, old(ctx).proposal) {
            Some(e) => r == Err::<ProposalCancelled, VaultError>(e) && *final(ctx) == *old(ctx),
            None => {
                &&& r == Ok::<ProposalCancelled, VaultError>(
                    ProposalCancelled { vault: old(ctx).vault_key, proposal_id: old(ctx).proposal.proposal_id },
                )
                &&& *final(ctx) == (CancelProposal {
                    proposal: Proposal { cancelled: true, ..old(ctx).proposal },
                    ..*old(ctx)
                })
                &&& final(ctx).proposal.is_terminal() && final(ctx).proposal.wf()
            },
        },
{
    match check_resolution(&ctx.vault, &ctx.human, &ctx.proposal) {
        Ok(()) => {},
        Err(e) => return Err(e),
    }
    ctx.proposal.cancelled = true;
    Ok(ProposalCancelled { vault: ctx.vault_key, proposal_id: ctx.proposal.proposal_id })
}

} // verus!
