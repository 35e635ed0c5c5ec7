use vstd::prelude::*;
use crate::address::Address;
use crate::errors::VaultError;
use crate::state::{ProtocolConfig, MAX_FEE_BPS};

verus! {

/// What a change of the protocol configuration reads.
#[derive(Clone, Copy, Debug)]
pub struct UpdateProtocolConfig {
    /// Who signed the request.
    pub authority: Address,
    pub protocol_config: ProtocolConfig,
    /// The buyback account to use from now on (the current one where it does not change).
    pub buyback_ata: Address,
}

/// Why `signer` may not set this fee, if they may not.
pub open spec fn update_refusal(c: ProtocolConfig, signer: Address, fee_bps: u16) -> Option<VaultError> {
    if signer@ != c.authority@ {
        Some(VaultError::OnlyAuthority)
    } else if fee_bps > MAX_FEE_BPS {
        Some(VaultError::InvalidFeeBps)
    } else {
        None
    }
}

/// Sets the fee and the buyback account; the reward accounting is untouched.
/// Fails, changing nothing, as `update_refusal` says.
pub fn handler(ctx: &mut UpdateProtocolConfig, fee_bps: u16) -> (r: Result<(), VaultError>)
    ensures
        match update_refusal(old(ctx).protocol_config, old(ctx).authority, fee_bps) {
            Some(e) => r == Err::<(), VaultError>(e) && *final(ctx) == *old(ctx),
            None => {
                &&& r is Ok
                &&& *final(ctx) == (UpdateProtocolConfig {
                    protocol_config: ProtocolConfig {
                        fee_bps,
                        buyback_ata: old(ctx).buyback_ata,
                        ..old(ctx).protocol_config
                    },
                    ..*old(ctx)
                })
                &&& final(ctx).protocol_config.wf()
            },
        },
{
    if ctx.authority != ctx.protocol_config.authority {
        return Err(VaultError::OnlyAuthority);
    }
    if fee_bps > MAX_FEE_BPS {
        return Err(VaultError::InvalidFeeBps);
    }
    ctx.protocol_config.fee_bps = fee_bps;
    ctx.protocol_config.buyback_ata = ctx.buyback_ata;
    Ok(())
}

} // verus!
