use vstd::prelude::*;
use crate::address::Address;
use crate::errors::VaultError;
use crate::events::ProtocolInitialized;
use crate::state::{ProtocolConfig, MAX_FEE_BPS};

verus! {

/// What the creation of the protocol configuration reads.
#[derive(Clone, Copy, Debug)]
pub struct InitializeProtocol {
    /// The protocol authority, who signed the request.
    pub authority: Address,
    /// The settlement token.
    pub usdc_mint: Address,
    /// The governance token.
    pub tandem_mint: Address,
    /// The pool's settlement-token account that collects the stakers' fee share.
    pub staker_reward_ata: Address,
    /// The settlement-token account that collects the buyback fee share.
    pub buyback_ata: Address,
    /// Address derivation bump of the configuration record.
    pub bump: u8,
}

/// Creates the protocol configuration with an empty pool and accumulator.
/// Fails with `InvalidFeeBps` where `fee_bps` exceeds 10000.
pub fn handler(ctx: &InitializeProtocol, fee_bps: u16) -> (r: Result<(ProtocolConfig, ProtocolInitialized), VaultError>)
    ensures
        fee_bps > MAX_FEE_BPS ==> (r matches Err(e) && e == VaultError::InvalidFeeBps),
        fee_bps <= MAX_FEE_BPS ==> (r matches Ok((c, ev)) && {
            &&& c == (ProtocolConfig {
                authority: ctx.authority,
                fee_bps,
                usdc_mint: ctx.usdc_mint,
                tandem_mint: ctx.tandem_mint,
                staker_reward_ata: ctx.staker_reward_ata,
                buyback_ata: ctx.buyback_ata,
                reward_per_token_stored: 0,
                total_staked: 0,
                total_rewards_claimed: 0,
                total_rewards_processed: 0,
                bump: ctx.bump,
            })
            &&& c.wf()
            &&& ev == (ProtocolInitialized {
                authority: ctx.authority,
                fee_bps,
                usdc_mint: ctx.usdc_mint,
                tandem_mint: ctx.tandem_mint,
            })
        }),
{
    if fee_bps > MAX_FEE_BPS {
        return Err(VaultError::InvalidFeeBps);
    }
    let config = ProtocolConfig {
        authority: ctx.authority,
        fee_bps,
        usdc_mint: ctx.usdc_mint,
        tandem_mint: ctx.tandem_mint,
        staker_reward_ata: ctx.staker_reward_ata,
        buyback_ata: ctx.buyback_ata,
        reward_per_token_stored: 0,
        total_staked: 0,
        total_rewards_claimed: 0,
        total_rewards_processed: 0,
        bump: ctx.bump,
    };
    let event = ProtocolInitialized {
        authority: ctx.authority,
        fee_bps,
        usdc_mint: ctx.usdc_mint,
        tandem_mint: ctx.tandem_mint,
    };
    Ok((config, event))
}

} // verus!
