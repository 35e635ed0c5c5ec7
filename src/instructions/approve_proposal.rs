use vstd::prelude::*;
use crate::address::Address;
use crate::errors::VaultError;
use crate::events::ProposalApproved;
use crate::helpers::{
    calculate_and_transfer_fee, fee_of, fee_transfers, settle_pool, transfer_of, update_rewards,
    TokenTransfer,
};
use crate::instructions::cancel_proposal::{check_resolution, resolution_refusal};
use crate::state::{Proposal, ProtocolConfig, Vault};

verus! {

/// What the human's approval of a proposal reads.
#[derive(Debug)]
pub struct ApproveProposal {
    /// Who signed the request.
    pub human: Address,
    /// The vault record's own address; the vault signs its transfers under it.
    pub vault_key: Address,
    pub vault: Vault,
    pub proposal: Proposal,
    pub protocol_config: ProtocolConfig,
    /// The staker-reward pool's current balance.
    pub staker_reward_balance: u64,
}

/// The transfers an approval requests: the proposed amount to the recorded recipient, then the fee.
pub open spec fn approval_transfers(ctx: ApproveProposal, fee: int) -> Seq<TokenTransfer> {
    seq![
        transfer_of(
            ctx.vault.vault_usdc_ata,
            ctx.proposal.recipient_ata,
            ctx.vault_key,
            ctx.proposal.amount as int,
        ),
    ] + fee_transfers(
        fee,
        ctx.vault.vault_usdc_ata,
        ctx.protocol_config.staker_reward_ata,
        ctx.protocol_config.buyback_ata,
        ctx.vault_key,
    )
}

/// Executes a pending proposal: reconciles the reward ledger, sends the proposed amount to the
/// recorded recipient with the fee on top, and marks the proposal executed. Returns the event and
/// the transfers to make. Fails, changing nothing, as `resolution_refusal` says, where
/// reconciliation fails, or where the fee overflows.
pub fn handler(ctx: &mut ApproveProposal) -> (r: Result<(ProposalApproved, Vec<TokenTransfer>), VaultError>)
    ensures
        ({
            let c = *old(ctx);
            let fee = fee_of(c.proposal.amount as int, c.protocol_config.fee_bps as int);
            match resolution_refusal(c.vault, c.human, c.proposal) {
                Some(e) => r matches Err(e2) && e2 == e && *final(ctx) == c,
                None => match settle_pool(c.protocol_config, c.staker_reward_balance) {
                    Err(e) => r matches Err(e2) && e2 == e && *final(ctx) == c,
                    Ok(settled) => if fee > u64::MAX {
                        r matches Err(e2) && e2 == VaultError::Overflow && *final(ctx) == c
                    } else {
                        &&& r matches Ok((ev, ts)) && ev == (ProposalApproved {
                            vault: c.vault_key,
                            proposal_id: c.proposal.proposal_id,
                            recipient: c.proposal.recipient,
                            amount: c.proposal.amount,
                            fee: fee as u64,
                        }) && ts@ == approval_transfers(c, fee)
                        &&& *final(ctx) == (ApproveProposal {
                            proposal: Proposal { executed: true, ..c.proposal },
                            protocol_config: settled,
                            ..c
                        })
                        &&& final(ctx).proposal.is_terminal() && final(ctx).proposal.wf()
                    },
                },
            }
        }),
{
    match check_resolution(&ctx.vault, &ctx.human, &ctx.proposal) {
        Ok(()) => {},
        Err(e) => return Err(e),
    }
    let mut config = ctx.protocol_config;
    match update_rewards(&mut config, None, ctx.staker_reward_balance) {
        Ok(()) => {},
        Err(e) => return Err(e),
    }
    let amount = ctx.proposal.amount;
    let mut transfers: Vec<TokenTransfer> = Vec::new();
    transfers.push(
        TokenTransfer {
            from: ctx.vault.vault_usdc_ata,
            to: ctx.proposal.recipient_ata,
            authority: ctx.vault_key,
            amount,
        },
    );
    let fee = match calculate_and_transfer_fee(
        amount,
        config.fee_bps,
        ctx.vault.vault_usdc_ata,
        config.staker_reward_ata,
        config.buyback_ata,
        ctx.vault_key,
        &mut transfers,
    ) {
        Ok(f) => f,
        Err(e) => return Err(e),
    };
    ctx.protocol_config = config;
    ctx.proposal.executed = true;
    let event = ProposalApproved {
        vault: ctx.vault_key,
        proposal_id: ctx.proposal.proposal_id,
        recipient: ctx.proposal.recipient,
        amount,
        fee,
    };
    Ok((event, transfers))
}

} // verus!
