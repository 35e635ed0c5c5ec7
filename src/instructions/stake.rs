use vstd::prelude::*;
use crate::address::Address;
use crate::errors::VaultError;
use crate::events::Staked;
use crate::helpers::{reconcile_staker, transfer_of, update_rewards, TokenTransfer};
use crate::state::{ProtocolConfig, StakeAccount};

verus! {

/// What a stake deposit reads.
#[derive(Clone, Copy, Debug)]
pub struct Stake {
    /// Who signed the request.
    pub staker: Address,
    pub protocol_config: ProtocolConfig,
    /// The staker's account; all zero where it is created by this deposit.
    pub stake_account: StakeAccount,
    /// The staker's governance-token holding account.
    pub staker_tandem_ata: Address,
    /// The pool's governance-token holding account.
    pub stake_tandem_ata: Address,
    /// The staker-reward pool's current balance.
    pub staker_reward_balance: u64,
    /// Address derivation bump of the stake account.
    pub bump: u8,
}

/// The pool and the staker's account after a deposit of `amount` at time `now`, or the error
/// that stops it. The ledger is reconciled first; the lockup restarts for the whole stake.
pub open spec fn stake_step(
    c: ProtocolConfig,
    a: StakeAccount,
    staker: Address,
    amount: u64,
    reward_balance: u64,
    now: i64,
    bump: u8,
) -> Result<(ProtocolConfig, StakeAccount), VaultError> {
    if amount == 0 {
        Err(VaultError::ZeroAmount)
    } else {
        match reconcile_staker(c, a, reward_balance) {
            Err(e) => Err(e),
            Ok((c2, a2)) => if a2.staked_amount + amount > u64::MAX || c2.total_staked + amount
                > u64::MAX {
                Err(VaultError::Overflow)
            } else {
                Ok(
                    (
                        ProtocolConfig { total_staked: (c2.total_staked + amount) as u64, ..c2 },
                        StakeAccount {
                            staker,
                            staked_amount: (a2.staked_amount + amount) as u64,
                            last_stake_ts: now,
                            bump,
                            ..a2
                        },
                    ),
                )
            },
        }
    }
}

/// Deposits `amount` of the governance token into the pool for the staker, as `stake_step` says.
/// Returns the event and the transfer to make. Fails, changing nothing, where `stake_step` fails.
pub fn handler(ctx: &mut Stake, amount: u64, now: i64) -> (r: Result<(Staked, Vec<TokenTransfer>), VaultError>)
    ensures
        ({
            let c = *old(ctx);
            match stake_step(
                c.protocol_config,
                c.stake_account,
                c.staker,
                amount,
                c.staker_reward_balance,
                now,
                c.bump,
            ) {
                Err(e) => r matches Err(e2) && e2 == e && *final(ctx) == c,
                Ok((config, account)) => {
                    &&& r matches Ok((ev, ts)) && ev == (Staked {
                        staker: c.staker,
                        amount,
                        total_staked: config.total_staked,
                    }) && ts@ == seq![
                        transfer_of(c.staker_tandem_ata, c.stake_tandem_ata, c.staker, amount as int),
                    ]
                    &&& *final(ctx) == (Stake { protocol_config: config, stake_account: account, ..c })
                },
            }
        }),
{
    if amount == 0 {
        return Err(VaultError::ZeroAmount);
    }
    let mut config = ctx.protocol_config;
    let mut account = ctx.stake_account;
    match update_rewards(&mut config, Some(&mut account), ctx.staker_reward_balance) {
        Ok(()) => {},
        Err(e) => return Err(e),
    }
    if account.staked_amount > u64::MAX - amount {
        return Err(VaultError::Overflow);
    }
    if config.total_staked > u64::MAX - amount {
        return Err(VaultError::Overflow);
    }
    account.staker = ctx.staker;
    account.staked_amount = account.staked_amount + amount;
    account.last_stake_ts = now;
    account.bump = ctx.bump;
    config.total_staked = config.total_staked + amount;
    let mut transfers: Vec<TokenTransfer> = Vec::new();
    transfers.push(
        TokenTransfer {
            from: ctx.staker_tandem_ata,
            to: ctx.stake_tandem_ata,
            authority: ctx.staker,
            amount,
        },
    );
    ctx.protocol_config = config;
    ctx.stake_account = account;
    let event = Staked { staker: ctx.staker, amount, total_staked: config.total_staked };
    Ok((event, transfers))
}

} // verus!
