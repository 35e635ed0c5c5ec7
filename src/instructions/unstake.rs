use vstd::prelude::*;
use crate::address::Address;
use crate::errors::VaultError;
use crate::events::Unstaked;
use crate::helpers::{reconcile_staker, transfer_of, update_rewards, TokenTransfer};
use crate::state::{ProtocolConfig, StakeAccount, LOCKUP_SECONDS};

verus! {

/// What a withdrawal of a whole stake reads.
#[derive(Clone, Copy, Debug)]
pub struct Unstake {
    /// Who signed the request.
    pub staker: Address,
    /// The configuration record's own address; the pool signs its transfers under it.
    pub protocol_key: Address,
    pub protocol_config: ProtocolConfig,
    pub stake_account: StakeAccount,
    /// The staker's governance-token holding account.
    pub staker_tandem_ata: Address,
    /// The pool's governance-token holding account.
    pub stake_tandem_ata: Address,
    /// The staker-reward pool's current balance.
    pub staker_reward_balance: u64,
}

/// Whether the lockup that started at the account's latest stake is over at `now`.
pub open spec fn lockup_elapsed(a: StakeAccount, now: i64) -> bool {
    now >= a.last_stake_ts + LOCKUP_SECONDS
}

/// The pool and the staker's account after the whole stake is withdrawn at time `now`, or the
/// error that stops it. The ledger is reconciled after the checks and before the withdrawal.
pub open spec fn unstake_step(c: ProtocolConfig, a: StakeAccount, reward_balance: u64, now: i64) -> Result<
    (ProtocolConfig, StakeAccount),
    VaultError,
> {
    if a.staked_amount == 0 {
        Err(VaultError::NothingStaked)
    } else if !lockup_elapsed(a, now) {
        Err(VaultError::LockupNotElapsed)
    } else {
        match reconcile_staker(c, a, reward_balance) {
            Err(e) => Err(e),
            Ok((c2, a2)) => if c2.total_staked < a.staked_amount {
                Err(VaultError::Overflow)
            } else {
                Ok(
                    (
                        ProtocolConfig {
                            total_staked: (c2.total_staked - a.staked_amount) as u64,
                            ..c2
                        },
                        StakeAccount { staked_amount: 0, ..a2 },
                    ),
                )
            },
        }
    }
}

/// Withdraws the staker's whole stake, as `unstake_step` says. Returns the event and the
/// transfer to make. Fails, changing nothing, where `unstake_step` fails.
pub fn handler(ctx: &mut Unstake, now: i64) -> (r: Result<(Unstaked, Vec<TokenTransfer>), VaultError>)
    ensures
        ({
            let c = *old(ctx);
            match unstake_step(c.protocol_config, c.stake_account, c.staker_reward_balance, now) {
                Err(e) => r matches Err(e2) && e2 == e && *final(ctx) == c,
                Ok((config, account)) => {
                    &&& r matches Ok((ev, ts)) && ev == (Unstaked {
                        staker: c.staker,
                        amount: c.stake_account.staked_amount,
                        total_staked: config.total_staked,
                    }) && ts@ == seq![
                        transfer_of(
                            c.stake_tandem_ata,
                            c.staker_tandem_ata,
                            c.protocol_key,
                            c.stake_account.staked_amount as int,
                        ),
                    ]
                    &&& *final(ctx) == (Unstake { protocol_config: config, stake_account: account, ..c })
                },
            }
        }),
{
    let unstake_amount = ctx.stake_account.staked_amount;
    if unstake_amount == 0 {
        return Err(VaultError::NothingStaked);
    }
    if (now as i128) < (ctx.stake_account.last_stake_ts as i128) + (LOCKUP_SECONDS as i128) {
        return Err(VaultError::LockupNotElapsed);
    }
    let mut config = ctx.protocol_config;
    let mut account = ctx.stake_account;
    match update_rewards(&mut config, Some(&mut account), ctx.staker_reward_balance) {
        Ok(()) => {},
        Err(e) => return Err(e),
    }
    if config.total_staked < unstake_amount {
        return Err(VaultError::Overflow);
    }
    account.staked_amount = 0;
    config.total_staked = config.total_staked - unstake_amount;
    let mut transfers: Vec<TokenTransfer> = Vec::new();
    transfers.push(
        TokenTransfer {
            from: ctx.stake_tandem_ata,
            to: ctx.staker_tandem_ata,
            authority: ctx.protocol_key,
            amount: unstake_amount,
        },
    );
    ctx.protocol_config = config;
    ctx.stake_account = account;
    let event = Unstaked {
        staker: ctx.staker,
        amount: unstake_amount,
        total_staked: config.total_staked,
    };
    Ok((event, transfers))
}

/// One second before the lockup ends, withdrawing fails with `LockupNotElapsed`; at its end it
/// succeeds, unless reconciliation fails or the pool's total is short of the stake.
pub proof fn lemma_lockup_boundary(c: ProtocolConfig, a: StakeAccount, reward_balance: u64)
    requires
        a.staked_amount > 0,
        a.last_stake_ts + LOCKUP_SECONDS <= i64::MAX,
    ensures
        unstake_step(c, a, reward_balance, (a.last_stake_ts + LOCKUP_SECONDS - 1) as i64) == Err::<
            (ProtocolConfig, StakeAccount),
            VaultError,
        >(VaultError::LockupNotElapsed),
        reconcile_staker(c, a, reward_balance) is Ok && c.total_staked >= a.staked_amount
            ==> unstake_step(c, a, reward_balance, (a.last_stake_ts + LOCKUP_SECONDS) as i64) is Ok,
{
}

} // verus!
