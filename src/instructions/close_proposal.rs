use vstd::prelude::*;
use crate::address::Address;
use crate::errors::VaultError;
use crate::instructions::cancel_proposal::resolution_refusal;
use crate::state::{Proposal, Vault};

verus! {

/// What the agent's reclaiming of a resolved proposal reads.
#[derive(Debug)]
pub struct CloseProposal {
    /// Who signed the request.
    pub agent: Address,
    pub vault: Vault,
    pub proposal: Proposal,
}

/// Why `signer` may not reclaim the proposal, if they may not: only the agent, and only once the
/// proposal was approved or cancelled.
pub open spec fn close_refusal(vault: Vault, signer: Address, p: Proposal) -> Option<VaultError> {
    if signer@ != vault.agent@ {
        Some(VaultError::OnlyAgent)
    } else if !p.is_terminal() {
        Some(VaultError::ProposalAlreadyExecuted)
    } else {
        None
    }
}

/// Decides whether the proposal's record may be reclaimed.
pub fn handler(ctx: &CloseProposal) -> (r: Result<(), VaultError>)
    ensures
        match close_refusal(ctx.vault, ctx.agent, ctx.proposal) {
            Some(e) => r == Err::<(), VaultError>(e),
            None => r is Ok,
        },
{
    if ctx.agent != ctx.vault.agent {
        return Err(VaultError::OnlyAgent);
    }
    if !(ctx.proposal.executed || ctx.proposal.cancelled) {
        return Err(VaultError::ProposalAlreadyExecuted);
    }
    Ok(())
}

/// Once a proposal is approved or cancelled, neither approval nor cancellation is possible any
/// more, by anyone; and the agent may reclaim a proposal exactly when it is approved or cancelled.
pub proof fn lemma_resolved_proposal_is_final(vault: Vault, signer: Address, p: Proposal)
    ensures
        p.is_terminal() ==> resolution_refusal(vault, signer, p) is Some,
        p.is_terminal() && signer@ == vault.human@ ==> resolution_refusal(vault, signer, p) == Some(
            if p.executed {
                VaultError::ProposalAlreadyExecuted
            } else {
                VaultError::ProposalAlreadyCancelled
            },
        ),
        signer@ == vault.agent@ ==> (close_refusal(vault, signer, p) is None <==> p.is_terminal()),
{
}

} // verus!
