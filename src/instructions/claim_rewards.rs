use vstd::prelude::*;
use crate::address::Address;
use crate::errors::VaultError;
use crate::events::RewardsClaimed;
use crate::helpers::{reconcile_staker, transfer_of, update_rewards, TokenTransfer};
use crate::state::{ProtocolConfig, StakeAccount};

verus! {

/// What a claim of accrued rewards reads.
#[derive(Clone, Copy, Debug)]
pub struct ClaimRewards {
    /// Who signed the request.
    pub staker: Address,
    /// The configuration record's own address; the pool signs its transfers under it.
    pub protocol_key: Address,
    pub protocol_config: ProtocolConfig,
    pub stake_account: StakeAccount,
    /// The staker's settlement-token holding account.
    pub staker_usdc_ata: Address,
    /// The staker-reward pool's current balance.
    pub staker_reward_balance: u64,
}

/// The pool and the staker's account after the staker is paid everything owed, or the error that
/// stops it. The ledger is reconciled first, so rewards that arrived since count.
pub open spec fn claim_step(c: ProtocolConfig, a: StakeAccount, reward_balance: u64) -> Result<
    (ProtocolConfig, StakeAccount),
    VaultError,
> {
    match reconcile_staker(c, a, reward_balance) {
        Err(e) => Err(e),
        Ok((c2, a2)) => if a2.rewards_owed == 0 {
            Err(VaultError::NoRewardsToClaim)
        } else if c2.total_rewards_claimed + a2.rewards_owed > u64::MAX {
            Err(VaultError::Overflow)
        } else {
            Ok(
                (
                    ProtocolConfig {
                        total_rewards_claimed: (c2.total_rewards_claimed + a2.rewards_owed) as u64,
                        ..c2
                    },
                    StakeAccount { rewards_owed: 0, ..a2 },
                ),
            )
        },
    }
}

/// What a successful claim pays out: the rewards owed once the ledger is reconciled.
pub open spec fn claimed_amount(c: ProtocolConfig, a: StakeAccount, reward_balance: u64) -> u64 {
    match reconcile_staker(c, a, reward_balance) {
        Ok((_, a2)) => a2.rewards_owed,
        Err(_) => 0,
    }
}

/// Pays the staker everything they are owed out of the reward pool, as `claim_step` says.
/// Returns the event and the transfer to make. Fails, changing nothing, where `claim_step` fails.
pub fn handler(ctx: &mut ClaimRewards) -> (r: Result<(RewardsClaimed, Vec<TokenTransfer>), VaultError>)
    ensures
        ({
            let c = *old(ctx);
            let paid = claimed_amount(c.protocol_config, c.stake_account, c.staker_reward_balance);
            match claim_step(c.protocol_config, c.stake_account, c.staker_reward_balance) {
                Err(e) => r matches Err(e2) && e2 == e && *final(ctx) == c,
                Ok((config, account)) => {
                    &&& r matches Ok((ev, ts)) && ev == (RewardsClaimed {
                        staker: c.staker,
                        amount: paid,
                    }) && ts@ == seq![
                        transfer_of(
                            c.protocol_config.staker_reward_ata,
                            c.staker_usdc_ata,
                            c.protocol_key,
                            paid as int,
                        ),
                    ]
                    &&& *final(ctx) == (ClaimRewards { protocol_config: config, stake_account: account, ..c })
                },
            }
        }),
{
    let mut config = ctx.protocol_config;
    let mut account = ctx.stake_account;
    match update_rewards(&mut config, Some(&mut account), ctx.staker_reward_balance) {
        Ok(()) => {},
        Err(e) => return Err(e),
    }
    let rewards = account.rewards_owed;
    if rewards == 0 {
        return Err(VaultError::NoRewardsToClaim);
    }
    if config.total_rewards_claimed > u64::MAX - rewards {
        return Err(VaultError::Overflow);
    }
    let mut transfers: Vec<TokenTransfer> = Vec::new();
    transfers.push(
        TokenTransfer {
            from: config.staker_reward_ata,
            to: ctx.staker_usdc_ata,
            authority: ctx.protocol_key,
            amount: rewards,
        },
    );
    account.rewards_owed = 0;
    config.total_rewards_claimed = config.total_rewards_claimed + rewards;
    ctx.protocol_config = config;
    ctx.stake_account = account;
    Ok((RewardsClaimed { staker: ctx.staker, amount: rewards }, transfers))
}

} // verus!
