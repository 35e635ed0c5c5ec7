use vstd::prelude::*;
use crate::address::Address;
use crate::helpers::{accrue_staker, settle_pool};
use crate::instructions::claim_rewards::claim_step;
use crate::instructions::stake::stake_step;
use crate::instructions::unstake::unstake_step;
use crate::state::{ProtocolConfig, StakeAccount};

verus! {

/// An operation on the staking pool, against the stake account at `index` of a list of accounts.
/// `Settle` is the reconciliation that a direct send or a proposal approval makes.
pub enum PoolOp {
    Stake { index: usize, staker: Address, amount: u64, reward_balance: u64, now: i64, bump: u8 },
    Unstake { index: usize, reward_balance: u64, now: i64 },
    Claim { index: usize, reward_balance: u64 },
    Settle { reward_balance: u64 },
}

/// Everything staked across the accounts.
pub open spec fn staked_sum(accounts: Seq<StakeAccount>) -> int
    decreases accounts.len(),
{
    if accounts.len() == 0 {
        0
    } else {
        staked_sum(accounts.drop_last()) + accounts.last().staked_amount
    }
}

/// The pool after one operation. An operation that fails leaves everything as it was, as does
/// one that names no account of the list.
pub open spec fn pool_step(c: ProtocolConfig, accounts: Seq<StakeAccount>, op: PoolOp) -> (
    ProtocolConfig,
    Seq<StakeAccount>,
) {
    match op {
        PoolOp::Stake { index, staker, amount, reward_balance, now, bump } => {
            if index < accounts.len() {
                match stake_step(c, accounts[index as int], staker, amount, reward_balance, now, bump) {
                    Ok((c2, a2)) => (c2, accounts.update(index as int, a2)),
                    Err(_) => (c, accounts),
                }
            } else {
                (c, accounts)
            }
        },
        PoolOp::Unstake { index, reward_balance, now } => {
            if index < accounts.len() {
                match unstake_step(c, accounts[index as int], reward_balance, now) {
                    Ok((c2, a2)) => (c2, accounts.update(index as int, a2)),
                    Err(_) => (c, accounts),
                }
            } else {
                (c, accounts)
            }
        },
        PoolOp::Claim { index, reward_balance } => {
            if index < accounts.len() {
                match claim_step(c, accounts[index as int], reward_balance) {
                    Ok((c2, a2)) => (c2, accounts.update(index as int, a2)),
                    Err(_) => (c, accounts),
                }
            } else {
                (c, accounts)
            }
        },
        PoolOp::Settle { reward_balance } => match settle_pool(c, reward_balance) {
            Ok(c2) => (c2, accounts),
            Err(_) => (c, accounts),
        },
    }
}

/// The pool after a sequence of operations, applied in order.
pub open spec fn run_pool(c: ProtocolConfig, accounts: Seq<StakeAccount>, ops: Seq<PoolOp>) -> (
    ProtocolConfig,
    Seq<StakeAccount>,
)
    decreases ops.len(),
{
    if ops.len() == 0 {
        (c, accounts)
    } else {
        let (c2, a2) = pool_step(c, accounts, ops[0]);
        run_pool(c2, a2, ops.subrange(1, ops.len() as int))
    }
}

proof fn lemma_staked_sum_update(s: Seq<StakeAccount>, i: int, a: StakeAccount)
    requires
        0 <= i < s.len(),
    ensures
        staked_sum(s.update(i, a)) == staked_sum(s) - s[i].staked_amount + a.staked_amount,
    decreases s.len(),
{
    let u = s.update(i, a);
    if i == s.len() - 1 {
        assert(u.drop_last() =~= s.drop_last());
    } else {
        assert(u.drop_last() =~= s.drop_last().update(i, a));
        lemma_staked_sum_update(s.drop_last(), i, a);
    }
}

proof fn lemma_settle_keeps_stake(c: ProtocolConfig, reward_balance: u64)
    ensures
        settle_pool(c, reward_balance) matches Ok(c2) ==> {
            &&& c2.total_staked == c.total_staked
            &&& c2.reward_per_token_stored >= c.reward_per_token_stored
        },
{
}

proof fn lemma_accrue_keeps_stake(c: ProtocolConfig, a: StakeAccount)
    ensures
        accrue_staker(c, a) matches Ok(a2) ==> a2.staked_amount == a.staked_amount,
{
}

proof fn lemma_step_accounting(c: ProtocolConfig, accounts: Seq<StakeAccount>, op: PoolOp)
    ensures
        c.total_staked == staked_sum(accounts) ==> pool_step(c, accounts, op).0.total_staked
            == staked_sum(pool_step(c, accounts, op).1),
        pool_step(c, accounts, op).0.reward_per_token_stored >= c.reward_per_token_stored,
{
    match op {
        PoolOp::Stake { index, staker, amount, reward_balance, now, bump } => {
            lemma_settle_keeps_stake(c, reward_balance);
            if index < accounts.len() {
                if let Ok(c2) = settle_pool(c, reward_balance) {
                    lemma_accrue_keeps_stake(c2, accounts[index as int]);
                }
                if let Ok((c2, a2)) = stake_step(
                    c,
                    accounts[index as int],
                    staker,
                    amount,
                    reward_balance,
                    now,
                    bump,
                ) {
                    lemma_staked_sum_update(accounts, index as int, a2);
                }
            }
        },
        PoolOp::Unstake { index, reward_balance, now } => {
            lemma_settle_keeps_stake(c, reward_balance);
            if index < accounts.len() {
                if let Ok(c2) = settle_pool(c, reward_balance) {
                    lemma_accrue_keeps_stake(c2, accounts[index as int]);
                }
                if let Ok((c2, a2)) = unstake_step(c, accounts[index as int], reward_balance, now) {
                    lemma_staked_sum_update(accounts, index as int, a2);
                }
            }
        },
        PoolOp::Claim { index, reward_balance } => {
            lemma_settle_keeps_stake(c, reward_balance);
            if index < accounts.len() {
                if let Ok(c2) = settle_pool(c, reward_balance) {
                    lemma_accrue_keeps_stake(c2, accounts[index as int]);
                }
                if let Ok((c2, a2)) = claim_step(c, accounts[index as int], reward_balance) {
                    lemma_staked_sum_update(accounts, index as int, a2);
                }
            }
        },
        PoolOp::Settle { reward_balance } => {
            lemma_settle_keeps_stake(c, reward_balance);
        },
    }
}

/// Whatever sequence of stakes, withdrawals, claims and reconciliations is applied, the pool's
/// `total_staked` stays equal to the sum of the accounts' stakes.
pub proof fn lemma_total_staked_is_sum(c: ProtocolConfig, accounts: Seq<StakeAccount>, ops: Seq<PoolOp>)
    requires
        c.total_staked == staked_sum(accounts),
    ensures
        run_pool(c, accounts, ops).0.total_staked == staked_sum(run_pool(c, accounts, ops).1),
    decreases ops.len(),
{
    if ops.len() > 0 {
        lemma_step_accounting(c, accounts, ops[0]);
        let (c2, a2) = pool_step(c, accounts, ops[0]);
        lemma_total_staked_is_sum(c2, a2, ops.subrange(1, ops.len() as int));
    }
}

/// Whatever sequence of stakes, withdrawals, claims and reconciliations is applied, the reward
/// accumulator `reward_per_token_stored` never decreases.
pub proof fn lemma_reward_per_token_never_decreases(
    c: ProtocolConfig,
    accounts: Seq<StakeAccount>,
    ops: Seq<PoolOp>,
)
    ensures
        run_pool(c, accounts, ops).0.reward_per_token_stored >= c.reward_per_token_stored,
    decreases ops.len(),
{
    if ops.len() > 0 {
        lemma_step_accounting(c, accounts, ops[0]);
        let (c2, a2) = pool_step(c, accounts, ops[0]);
        lemma_reward_per_token_never_decreases(c2, a2, ops.subrange(1, ops.len() as int));
    }
}

} // verus!
