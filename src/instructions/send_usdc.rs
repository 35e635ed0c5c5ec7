use vstd::prelude::*;
use crate::address::Address;
use crate::errors::VaultError;
use crate::events::UsdcSent;
use crate::helpers::{
    calculate_and_transfer_fee, fee_of, fee_transfers, settle_pool, transfer_of, update_rewards,
    TokenTransfer,
};
use crate::state::{ProtocolConfig, Vault, WhitelistEntry};

verus! {

/// What a direct transfer out of a vault reads.
#[derive(Clone, Copy, Debug)]
pub struct SendUsdc {
    /// Who signed the request.
    pub signer: Address,
    /// The vault record's own address; the vault signs its transfers under it.
    pub vault_key: Address,
    pub vault: Vault,
    /// The recipient's holding account.
    pub recipient_ata: Address,
    /// The wallet that owns `recipient_ata`.
    pub recipient_owner: Address,
    /// A whitelist entry offered to bypass the tiers, if any.
    pub whitelist_entry: Option<WhitelistEntry>,
    pub protocol_config: ProtocolConfig,
    /// The staker-reward pool's current balance.
    pub staker_reward_balance: u64,
}

/// The entry belongs to the vault and names the recipient's owner.
pub open spec fn whitelist_applies(
    entry: Option<WhitelistEntry>,
    vault_key: Address,
    recipient_owner: Address,
) -> bool {
    match entry {
        Some(e) => e.vault@ == vault_key@ && e.address@ == recipient_owner@,
        None => false,
    }
}

/// The tier in which `signer` may send `amount` out of `vault`, or why it may not.
/// The human always may (tier 0). The agent may only while the vault is not paused: to a
/// whitelisted recipient (tier 0), up to `tier1_max` (tier 1), up to `tier2_max` in an emergency
/// (tier 2); more takes a proposal.
pub open spec fn authorization(
    vault: Vault,
    signer: Address,
    amount: u64,
    is_emergency: bool,
    whitelisted: bool,
) -> Result<u8, VaultError> {
    if amount == 0 {
        Err(VaultError::ZeroAmount)
    } else if signer@ == vault.human@ {
        Ok(0)
    } else if signer@ != vault.agent@ {
        Err(VaultError::OnlyAgentOrHuman)
    } else if vault.paused {
        Err(VaultError::VaultPaused)
    } else if whitelisted {
        Ok(0)
    } else if amount <= vault.tier1_max {
        Ok(1)
    } else if amount <= vault.tier2_max {
        if is_emergency {
            Ok(2)
        } else {
            Err(VaultError::NotEmergency)
        }
    } else {
        Err(VaultError::TierTooHigh)
    }
}

/// Whether the entry is the one the transfer was authorized by.
pub fn whitelist_matches(
    entry: &Option<WhitelistEntry>,
    vault_key: &Address,
    recipient_owner: &Address,
) -> (r: bool)
    ensures
        r == whitelist_applies(*entry, *vault_key, *recipient_owner),
{
    match entry {
        Some(e) => e.vault == *vault_key && e.address == *recipient_owner,
        None => false,
    }
}

/// Decides whether `signer` may send `amount` out of `vault`, and in which tier.
pub fn authorize_transfer(
    vault: &Vault,
    signer: &Address,
    amount: u64,
    is_emergency: bool,
    whitelisted: bool,
) -> (r: Result<u8, VaultError>)
    ensures
        r == authorization(*vault, *signer, amount, is_emergency, whitelisted),
{
    if amount == 0 {
        return Err(VaultError::ZeroAmount);
    }
    let is_human = *signer == vault.human;
    let is_agent = *signer == vault.agent;
    if !is_human && !is_agent {
        return Err(VaultError::OnlyAgentOrHuman);
    }
    if is_human {
        return Ok(0);
    }
    if vault.paused {
        return Err(VaultError::VaultPaused);
    }
    if whitelisted {
        Ok(0)
    } else if amount <= vault.tier1_max {
        Ok(1)
    } else if amount <= vault.tier2_max {
        if is_emergency {
            Ok(2)
        } else {
            Err(VaultError::NotEmergency)
        }
    } else {
        Err(VaultError::TierTooHigh)
    }
}

/// The transfers a direct send requests: the amount to the recipient, then the fee.
pub open spec fn send_transfers(ctx: SendUsdc, amount: u64, fee: int) -> Seq<TokenTransfer> {
    seq![transfer_of(ctx.vault.vault_usdc_ata, ctx.recipient_ata, ctx.vault_key, amount as int)]
        + fee_transfers(
        fee,
        ctx.vault.vault_usdc_ata,
        ctx.protocol_config.staker_reward_ata,
        ctx.protocol_config.buyback_ata,
        ctx.vault_key,
    )
}

/// Sends `amount` out of the vault to the recipient if the signer may, reconciling the reward
/// ledger first and charging the fee on top. Returns what happened and the transfers to make.
/// Fails, changing nothing, where the signer may not (see `authorization`), where reconciliation
/// fails, or where the fee overflows.
pub fn handler(ctx: &mut SendUsdc, amount: u64, is_emergency: bool) -> (r: Result<
    (UsdcSent, Vec<TokenTransfer>),
    VaultError,
>)
    ensures
        ({
            let c = *old(ctx);
            let wl = whitelist_applies(c.whitelist_entry, c.vault_key, c.recipient_owner);
            let fee = fee_of(amount as int, c.protocol_config.fee_bps as int);
            match authorization(c.vault, c.signer, amount, is_emergency, wl) {
                Err(e) => r matches Err(e2) && e2 == e && *final(ctx) == c,
                Ok(tier) => match settle_pool(c.protocol_config, c.staker_reward_balance) {
                    Err(e) => r matches Err(e2) && e2 == e && *final(ctx) == c,
                    Ok(settled) => if fee > u64::MAX {
                        r matches Err(e2) && e2 == VaultError::Overflow && *final(ctx) == c
                    } else {
                        &&& r matches Ok((ev, ts)) && ev == (UsdcSent {
                            vault: c.vault_key,
                            signer: c.signer,
                            recipient: c.recipient_owner,
                            amount,
                            fee: fee as u64,
                            tier,
                            whitelisted: wl && c.signer@ != c.vault.human@,
                        }) && ts@ == send_transfers(c, amount, fee)
                        &&& *final(ctx) == (SendUsdc { protocol_config: settled, ..c })
                    },
                },
            }
        }),
{
    let whitelisted = whitelist_matches(&ctx.whitelist_entry, &ctx.vault_key, &ctx.recipient_owner);
    let tier = match authorize_transfer(&ctx.vault, &ctx.signer, amount, is_emergency, whitelisted) {
        Ok(t) => t,
        Err(e) => return Err(e),
    };
    let is_human = ctx.signer == ctx.vault.human;
    let mut config = ctx.protocol_config;
    match update_rewards(&mut config, None, ctx.staker_reward_balance) {
        Ok(()) => {},
        Err(e) => return Err(e),
    }
    let mut transfers: Vec<TokenTransfer> = Vec::new();
    transfers.push(
        TokenTransfer {
            from: ctx.vault.vault_usdc_ata,
            to: ctx.recipient_ata,
            authority: ctx.vault_key,
            amount,
        },
    );
    let fee = match calculate_and_transfer_fee(
        amount,
        config.fee_bps,
        ctx.vault.vault_usdc_ata,
        config.staker_reward_ata,
        config.buyback_ata,
        ctx.vault_key,
        &mut transfers,
    ) {
        Ok(f) => f,
        Err(e) => return Err(e),
    };
    ctx.protocol_config = config;
    let event = UsdcSent {
        vault: ctx.vault_key,
        signer: ctx.signer,
        recipient: ctx.recipient_owner,
        amount,
        fee,
        tier,
        whitelisted: whitelisted && !is_human,
    };
    Ok((event, transfers))
}

/// The tier boundaries for the agent, on a vault that is not paused, paying a recipient that is
/// not whitelisted: `tier1_max` itself is tier 1 with or without an emergency; one more needs the
/// emergency flag and is then tier 2; one more than `tier2_max` is refused whatever the flag.
pub proof fn lemma_tier_boundaries(vault: Vault, agent: Address)
    requires
        vault.wf(),
        agent@ == vault.agent@,
        agent@ != vault.human@,
        !vault.paused,
        vault.tier1_max > 0,
        vault.tier2_max < u64::MAX,
    ensures
        forall|e: bool|
            #[trigger] authorization(vault, agent, vault.tier1_max, e, false) == Ok::<u8, VaultError>(1),
        vault.tier1_max < vault.tier2_max ==> {
            &&& authorization(vault, agent, (vault.tier1_max + 1) as u64, false, false)
                == Err::<u8, VaultError>(VaultError::NotEmergency)
            &&& authorization(vault, agent, (vault.tier1_max + 1) as u64, true, false)
                == Ok::<u8, VaultError>(2)
        },
        forall|e: bool|
            #[trigger] authorization(vault, agent, (vault.tier2_max + 1) as u64, e, false)
                == Err::<u8, VaultError>(VaultError::TierTooHigh),
{
}

} // verus!
