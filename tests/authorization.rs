use agent_vault::address::Address;
use agent_vault::errors::VaultError;
use agent_vault::instructions::send_usdc::{authorize_transfer, handler, whitelist_matches, SendUsdc};
use agent_vault::state::{ProtocolConfig, Vault, WhitelistEntry};

fn addr(b: u8) -> Address {
    Address::new([b; 32])
}

fn vault() -> Vault {
    Vault {
        human: addr(1),
        agent: addr(2),
        usdc_mint: addr(3),
        vault_usdc_ata: addr(4),
        tier1_max: 100,
        tier2_max: 1000,
        paused: false,
        proposal_count: 0,
        bump: 254,
    }
}

fn config(fee_bps: u16) -> ProtocolConfig {
    ProtocolConfig {
        authority: addr(30),
        fee_bps,
        usdc_mint: addr(3),
        tandem_mint: addr(31),
        staker_reward_ata: addr(20),
        buyback_ata: addr(21),
        reward_per_token_stored: 0,
        total_staked: 0,
        total_rewards_claimed: 0,
        total_rewards_processed: 0,
        bump: 253,
    }
}

fn send_ctx(signer: Address) -> SendUsdc {
    SendUsdc {
        signer,
        vault_key: addr(9),
        vault: vault(),
        recipient_ata: addr(40),
        recipient_owner: addr(41),
        whitelist_entry: None,
        protocol_config: config(25),
        staker_reward_balance: 0,
    }
}

#[test]
fn agent_scenario_tiers_and_fees() {
    let mut ctx = send_ctx(addr(2));
    let (ev, ts) = handler(&mut ctx, 50, false).unwrap();
    assert_eq!(ev.tier, 1);
    assert_eq!(ev.fee, 0);
    assert!(!ev.whitelisted);
    assert_eq!(ts.len(), 1);
    assert_eq!(ts[0].from, addr(4));
    assert_eq!(ts[0].to, addr(40));
    assert_eq!(ts[0].authority, addr(9));
    assert_eq!(ts[0].amount, 50);

    let (ev, ts) = handler(&mut ctx, 500, true).unwrap();
    assert_eq!(ev.tier, 2);
    assert_eq!(ev.fee, 1);
    assert_eq!(ts.len(), 2);
    assert_eq!(ts[0].amount, 500);
    // stakers' share 0 makes no transfer; buyback gets 1
    assert_eq!(ts[1].to, addr(21));
    assert_eq!(ts[1].amount, 1);

    assert_eq!(handler(&mut ctx, 1500, true).unwrap_err(), VaultError::TierTooHigh);
    assert_eq!(handler(&mut ctx, 1500, false).unwrap_err(), VaultError::TierTooHigh);
}

#[test]
fn tier_boundaries() {
    let v = vault();
    let agent = addr(2);
    assert_eq!(authorize_transfer(&v, &agent, 100, false, false), Ok(1));
    assert_eq!(authorize_transfer(&v, &agent, 100, true, false), Ok(1));
    assert_eq!(authorize_transfer(&v, &agent, 101, false, false), Err(VaultError::NotEmergency));
    assert_eq!(authorize_transfer(&v, &agent, 101, true, false), Ok(2));
    assert_eq!(authorize_transfer(&v, &agent, 1000, true, false), Ok(2));
    assert_eq!(authorize_transfer(&v, &agent, 1001, true, false), Err(VaultError::TierTooHigh));
    assert_eq!(authorize_transfer(&v, &agent, 1001, false, false), Err(VaultError::TierTooHigh));
}

#[test]
fn equal_tiers_leave_no_emergency_band() {
    let mut v = vault();
    v.tier2_max = 100;
    assert_eq!(authorize_transfer(&v, &addr(2), 101, true, false), Err(VaultError::TierTooHigh));
}

#[test]
fn zero_amount_is_refused() {
    let mut ctx = send_ctx(addr(1));
    assert_eq!(handler(&mut ctx, 0, false).unwrap_err(), VaultError::ZeroAmount);
}

#[test]
fn stranger_is_refused() {
    let mut ctx = send_ctx(addr(77));
    assert_eq!(handler(&mut ctx, 10, false).unwrap_err(), VaultError::OnlyAgentOrHuman);
}

#[test]
fn paused_vault_refuses_agent_but_not_human() {
    let mut ctx = send_ctx(addr(2));
    ctx.vault.paused = true;
    assert_eq!(handler(&mut ctx, 10, false).unwrap_err(), VaultError::VaultPaused);
    ctx.signer = addr(1);
    let (ev, _) = handler(&mut ctx, 1_000_000, false).unwrap();
    assert_eq!(ev.tier, 0);
    assert!(!ev.whitelisted);
    assert_eq!(ev.fee, 2500);
}

#[test]
fn whitelisted_recipient_bypasses_tiers() {
    let mut ctx = send_ctx(addr(2));
    ctx.whitelist_entry = Some(WhitelistEntry { vault: addr(9), address: addr(41), added_at: 5, bump: 1 });
    let (ev, ts) = handler(&mut ctx, 50_000, false).unwrap();
    assert_eq!(ev.tier, 0);
    assert!(ev.whitelisted);
    assert_eq!(ev.fee, 125);
    assert_eq!(ev.recipient, addr(41));
    assert_eq!(ts.len(), 3);
    assert_eq!(ts[1].amount, 62);
    assert_eq!(ts[2].amount, 63);
}

#[test]
fn whitelist_entry_of_another_vault_or_recipient_does_not_apply() {
    let other_vault = Some(WhitelistEntry { vault: addr(8), address: addr(41), added_at: 5, bump: 1 });
    let other_recipient = Some(WhitelistEntry { vault: addr(9), address: addr(42), added_at: 5, bump: 1 });
    assert!(!whitelist_matches(&other_vault, &addr(9), &addr(41)));
    assert!(!whitelist_matches(&other_recipient, &addr(9), &addr(41)));
    assert!(!whitelist_matches(&None, &addr(9), &addr(41)));
    let mut ctx = send_ctx(addr(2));
    ctx.whitelist_entry = other_vault;
    assert_eq!(handler(&mut ctx, 5000, true).unwrap_err(), VaultError::TierTooHigh);
}

#[test]
fn send_reconciles_the_reward_ledger_first() {
    let mut ctx = send_ctx(addr(2));
    ctx.protocol_config.total_staked = 100;
    ctx.staker_reward_balance = 40;
    handler(&mut ctx, 10, false).unwrap();
    assert_eq!(ctx.protocol_config.reward_per_token_stored, 400_000_000_000);
    assert_eq!(ctx.protocol_config.total_rewards_processed, 40);
}

#[test]
fn failed_send_changes_nothing() {
    let mut ctx = send_ctx(addr(2));
    ctx.protocol_config.total_staked = 100;
    ctx.staker_reward_balance = 40;
    assert_eq!(handler(&mut ctx, 5000, false).unwrap_err(), VaultError::TierTooHigh);
    assert_eq!(ctx.protocol_config.reward_per_token_stored, 0);
    assert_eq!(ctx.protocol_config.total_rewards_processed, 0);
}

#[test]
fn stale_reward_accounting_overflows() {
    let mut ctx = send_ctx(addr(2));
    ctx.protocol_config.total_rewards_processed = 50;
    ctx.staker_reward_balance = 10;
    assert_eq!(handler(&mut ctx, 10, false).unwrap_err(), VaultError::Overflow);
    assert_eq!(ctx.protocol_config.total_rewards_processed, 50);
}

#[test]
fn address_equality_compares_every_byte() {
    let mut b = [7u8; 32];
    let a = Address::new(b);
    b[31] = 8;
    assert_ne!(a, Address::new(b));
    assert_eq!(a, Address::new([7u8; 32]));
}
