use vstd::prelude::*;
use crate::address::Address;
use crate::errors::VaultError;
use crate::state::{ProtocolConfig, StakeAccount, BPS_DENOMINATOR, REWARD_PRECISION};

verus! {

/// A movement of tokens that an operation asks the token ledger to make.
#[derive(Clone, Copy, Debug)]
pub struct TokenTransfer {
    /// The holding account debited.
    pub from: Address,
    /// The holding account credited.
    pub to: Address,
    /// Who signs for `from`: a principal, or a record on whose behalf the program signs.
    pub authority: Address,
    /// Amount moved.
    pub amount: u64,
}

/// The transfer of `amount` from `from` to `to`, signed by `authority`.
pub open spec fn transfer_of(from: Address, to: Address, authority: Address, amount: int) -> TokenTransfer {
    TokenTransfer { from, to, authority, amount: amount as u64 }
}

/// The fee charged on a transfer of `amount`: `fee_bps` basis points, rounded down.
pub open spec fn fee_of(amount: int, fee_bps: int) -> int {
    amount * fee_bps / 10_000
}

/// The stakers' half of a fee, rounded down.
pub open spec fn staker_share(fee: int) -> int {
    fee / 2
}

/// The buyback half of a fee: the rest, rounding remainder included.
pub open spec fn buyback_share(fee: int) -> int {
    fee - staker_share(fee)
}

/// The transfers that pay a fee out of `from`: each half to its pool, where that half is not zero.
pub open spec fn fee_transfers(
    fee: int,
    from: Address,
    staker_reward_ata: Address,
    buyback_ata: Address,
    authority: Address,
) -> Seq<TokenTransfer> {
    let to_stakers = if staker_share(fee) > 0 {
        seq![transfer_of(from, staker_reward_ata, authority, staker_share(fee))]
    } else {
        Seq::empty()
    };
    let to_buyback = if buyback_share(fee) > 0 {
        seq![transfer_of(from, buyback_ata, authority, buyback_share(fee))]
    } else {
        Seq::empty()
    };
    to_stakers + to_buyback
}

/// Computes the fee on `amount` and appends the transfers that pay it, each half out of
/// `vault_usdc_ata` to its pool, signed by `vault_authority`. Returns the fee.
/// Fails with `Overflow`, appending nothing, where the fee does not fit in a `u64`.
pub fn calculate_and_transfer_fee(
    amount: u64,
    fee_bps: u16,
    vault_usdc_ata: Address,
    staker_reward_ata: Address,
    buyback_ata: Address,
    vault_authority: Address,
    transfers: &mut Vec<TokenTransfer>,
) -> (r: Result<u64, VaultError>)
    ensures
        fee_of(amount as int, fee_bps as int) > u64::MAX ==> {
            &&& r == Err::<u64, VaultError>(VaultError::Overflow)
            &&& final(transfers)@ == old(transfers)@
        },
        fee_of(amount as int, fee_bps as int) <= u64::MAX ==> {
            &&& r == Ok::<u64, VaultError>(fee_of(amount as int, fee_bps as int) as u64)
            &&& final(transfers)@ == old(transfers)@ + fee_transfers(
                fee_of(amount as int, fee_bps as int),
                vault_usdc_ata,
                staker_reward_ata,
                buyback_ata,
                vault_authority,
            )
        },
{
    assert((amount as u128) * (fee_bps as u128) <= 0xffff_ffff_ffff_ffff * 0xffffu128)
        by (nonlinear_arith);
    let product: u128 = (amount as u128) * (fee_bps as u128);
    let wide_fee: u128 = product / BPS_DENOMINATOR;
    if wide_fee > u64::MAX as u128 {
        return Err(VaultError::Overflow);
    }
    let fee = wide_fee as u64;
    if fee == 0 {
        assert(fee_transfers(0, vault_usdc_ata, staker_reward_ata, buyback_ata, vault_authority)
            =~= Seq::empty());
        assert(old(transfers)@ + Seq::<TokenTransfer>::empty() =~= old(transfers)@);
        return Ok(0);
    }
    let staker_fee = fee / 2;
    let buyback_fee = fee - staker_fee;
    if staker_fee > 0 {
        transfers.push(
            TokenTransfer {
                from: vault_usdc_ata,
                to: staker_reward_ata,
                authority: vault_authority,
                amount: staker_fee,
            },
        );
    }
    if buyback_fee > 0 {
        transfers.push(
            TokenTransfer {
                from: vault_usdc_ata,
                to: buyback_ata,
                authority: vault_authority,
                amount: buyback_fee,
            },
        );
    }
    assert(transfers@ =~= old(transfers)@ + fee_transfers(
        fee as int,
        vault_usdc_ata,
        staker_reward_ata,
        buyback_ata,
        vault_authority,
    ));
    Ok(fee)
}

/// The pool's accounting once the reward income received since the last reconciliation is spread
/// over the current stake, or the error that stops it. Income is what the reward pool holds plus
/// what stakers already claimed, less what was already spread. With nothing staked the income
/// waits for the next reconciliation.
pub open spec fn settle_pool(c: ProtocolConfig, reward_balance: u64) -> Result<ProtocolConfig, VaultError> {
    let deposited = reward_balance + c.total_rewards_claimed;
    let new_rewards = deposited - c.total_rewards_processed;
    if new_rewards < 0 {
        Err(VaultError::Overflow)
    } else if c.total_staked > 0 && new_rewards > 0 {
        let stored = c.reward_per_token_stored + new_rewards * (REWARD_PRECISION as int) / (c.total_staked as int);
        if stored > u128::MAX || deposited > u64::MAX {
            Err(VaultError::Overflow)
        } else {
            Ok(
                ProtocolConfig {
                    reward_per_token_stored: stored as u128,
                    total_rewards_processed: deposited as u64,
                    ..c
                },
            )
        }
    } else {
        Ok(c)
    }
}

/// A staker's account once what its stake earned since its last snapshot of the accumulator is
/// added to what it is owed, or the error that stops it.
pub open spec fn accrue_staker(c: ProtocolConfig, a: StakeAccount) -> Result<StakeAccount, VaultError> {
    let gap = c.reward_per_token_stored - a.reward_per_token_paid;
    if gap < 0 || a.staked_amount * gap > u128::MAX {
        Err(VaultError::Overflow)
    } else {
        let owed = a.rewards_owed + a.staked_amount * gap / (REWARD_PRECISION as int);
        if owed > u64::MAX {
            Err(VaultError::Overflow)
        } else {
            Ok(
                StakeAccount {
                    rewards_owed: owed as u64,
                    reward_per_token_paid: c.reward_per_token_stored,
                    ..a
                },
            )
        }
    }
}

/// Reconciliation of the pool and of one staker's account, in that order.
pub open spec fn reconcile_staker(c: ProtocolConfig, a: StakeAccount, reward_balance: u64) -> Result<
    (ProtocolConfig, StakeAccount),
    VaultError,
> {
    match settle_pool(c, reward_balance) {
        Err(e) => Err(e),
        Ok(c2) => match accrue_staker(c2, a) {
            Err(e) => Err(e),
            Ok(a2) => Ok((c2, a2)),
        },
    }
}

/// Brings the reward accounting up to date against the reward pool's current balance: first the
/// pool's accumulator, then, where one is given, the staker's account. On failure nothing changes.
pub fn update_rewards(
    config: &mut ProtocolConfig,
    stake_account: Option<&mut StakeAccount>,
    reward_ata_balance: u64,
) -> (r: Result<(), VaultError>)
    ensures
        match stake_account {
            None => match settle_pool(*old(config), reward_ata_balance) {
                Ok(c) => r is Ok && *final(config) == c,
                Err(e) => r == Err::<(), VaultError>(e) && *final(config) == *old(config),
            },
            Some(a) => match reconcile_staker(*old(config), *a, reward_ata_balance) {
                Ok((c, a2)) => r is Ok && *final(config) == c && *final(a) == a2,
                Err(e) => {
                    &&& r == Err::<(), VaultError>(e)
                    &&& *final(config) == *old(config)
                    &&& *final(a) == *a
                },
            },
        },
{
    let total_deposited_ever: u128 = reward_ata_balance as u128 + config.total_rewards_claimed as u128;
    if total_deposited_ever < config.total_rewards_processed as u128 {
        return Err(VaultError::Overflow);
    }
    let new_rewards: u128 = total_deposited_ever - config.total_rewards_processed as u128;
    let mut stored: u128 = config.reward_per_token_stored;
    let mut processed: u64 = config.total_rewards_processed;
    if config.total_staked > 0 && new_rewards > 0 {
        assert(new_rewards * REWARD_PRECISION <= 0x3_ffff_ffff_ffff_fffe * REWARD_PRECISION)
            by (nonlinear_arith)
            requires
                new_rewards <= 0x3_ffff_ffff_ffff_fffe,
        ;
        let delta: u128 = new_rewards * REWARD_PRECISION / (config.total_staked as u128);
        if delta > u128::MAX - stored || total_deposited_ever > u64::MAX as u128 {
            return Err(VaultError::Overflow);
        }
        stored = stored + delta;
        processed = total_deposited_ever as u64;
    }
    let ghost settled = ProtocolConfig {
        reward_per_token_stored: stored,
        total_rewards_processed: processed,
        ..*config
    };
    assert(settle_pool(*old(config), reward_ata_balance) == Ok::<ProtocolConfig, VaultError>(settled));
    match stake_account {
        None => {
            config.reward_per_token_stored = stored;
            config.total_rewards_processed = processed;
            Ok(())
        },
        Some(user) => {
            if user.reward_per_token_paid > stored {
                return Err(VaultError::Overflow);
            }
            let gap: u128 = stored - user.reward_per_token_paid;
            if gap != 0 && user.staked_amount as u128 > u128::MAX / gap {
                proof {
                    vstd::arithmetic::div_mod::lemma_fundamental_div_mod(u128::MAX as int, gap as int);
                    assert(user.staked_amount * gap > u128::MAX) by (nonlinear_arith)
                        requires
                            user.staked_amount >= u128::MAX / gap + 1,
                            u128::MAX == gap * (u128::MAX / gap) + u128::MAX % gap,
                            u128::MAX % gap < gap,
                            gap > 0,
                    ;
                }
                return Err(VaultError::Overflow);
            }
            proof {
                if gap != 0 {
                    vstd::arithmetic::div_mod::lemma_fundamental_div_mod(u128::MAX as int, gap as int);
                    assert(user.staked_amount * gap <= u128::MAX) by (nonlinear_arith)
                        requires
                            user.staked_amount <= u128::MAX / gap,
                            u128::MAX == gap * (u128::MAX / gap) + u128::MAX % gap,
                            u128::MAX % gap >= 0,
                            gap > 0,
                    ;
                }
            }
            let pending: u128 = (user.staked_amount as u128) * gap / REWARD_PRECISION;
            if pending > (u64::MAX - user.rewards_owed) as u128 {
                return Err(VaultError::Overflow);
            }
            user.rewards_owed = user.rewards_owed + pending as u64;
            user.reward_per_token_paid = stored;
            config.reward_per_token_stored = stored;
            config.total_rewards_processed = processed;
            Ok(())
        },
    }
}

/// Everything a list of transfers moves.
pub open spec fn transfers_total(ts: Seq<TokenTransfer>) -> int
    decreases ts.len(),
{
    if ts.len() == 0 {
        0
    } else {
        transfers_total(ts.drop_last()) + ts.last().amount
    }
}

/// A fee splits into the stakers' half, rounded down, and the buyback rest, which add up to the
/// fee; the transfers that pay it move exactly the fee.
pub proof fn lemma_fee_split(
    fee: int,
    from: Address,
    staker_reward_ata: Address,
    buyback_ata: Address,
    authority: Address,
)
    requires
        0 <= fee <= u64::MAX,
    ensures
        staker_share(fee) == fee / 2,
        buyback_share(fee) == fee - fee / 2,
        staker_share(fee) + buyback_share(fee) == fee,
        0 <= staker_share(fee) <= buyback_share(fee) <= staker_share(fee) + 1,
        transfers_total(fee_transfers(fee, from, staker_reward_ata, buyback_ata, authority)) == fee,
{
    let ts = fee_transfers(fee, from, staker_reward_ata, buyback_ata, authority);
    if staker_share(fee) > 0 {
        let first = ts.drop_last();
        assert(first.drop_last().len() == 0);
        assert(transfers_total(first.drop_last()) == 0);
        assert(first.last() == ts[0]);
        assert(transfers_total(first) == ts[0].amount);
        assert(transfers_total(ts) == ts[0].amount + ts[1].amount);
    } else if buyback_share(fee) > 0 {
        assert(ts.drop_last().len() == 0);
        assert(transfers_total(ts.drop_last()) == 0);
        assert(transfers_total(ts) == ts[0].amount);
    } else {
        assert(ts =~= Seq::<TokenTransfer>::empty());
    }
}

/// After a successful reconciliation, the income spread so far never exceeds what the reward
/// pool holds plus what was already claimed from it.
pub proof fn lemma_settled_income_is_covered(c: ProtocolConfig, reward_balance: u64)
    ensures
        settle_pool(c, reward_balance) matches Ok(c2) ==> c2.total_rewards_processed <= reward_balance
            + c2.total_rewards_claimed,
{
}

/// Reconciling again against the same reward-pool balance, with nothing staked or withdrawn in
/// between, changes nothing: neither the pool nor the staker's account.
pub proof fn lemma_reconcile_idempotent(c: ProtocolConfig, a: StakeAccount, reward_balance: u64)
    requires
        reconcile_staker(c, a, reward_balance) is Ok,
    ensures
        ({
            let (c1, a1) = reconcile_staker(c, a, reward_balance)->Ok_0;
            &&& settle_pool(c1, reward_balance) == Ok::<ProtocolConfig, VaultError>(c1)
            &&& reconcile_staker(c1, a1, reward_balance) == Ok::<
                (ProtocolConfig, StakeAccount),
                VaultError,
            >((c1, a1))
        }),
{
    let (c1, a1) = reconcile_staker(c, a, reward_balance)->Ok_0;
    assert(settle_pool(c1, reward_balance) == Ok::<ProtocolConfig, VaultError>(c1));
    assert(a1.reward_per_token_paid == c1.reward_per_token_stored);
    assert(a1.staked_amount * 0 == 0);
    assert(accrue_staker(c1, a1) == Ok::<StakeAccount, VaultError>(a1));
}

} // verus!
