use agent_vault::address::Address;
use agent_vault::errors::VaultError;
use agent_vault::instructions::add_whitelist::{self, AddWhitelist};
use agent_vault::instructions::initialize::{self, Initialize};
use agent_vault::instructions::initialize_protocol::{self, InitializeProtocol};
use agent_vault::instructions::pause::{self, Pause};
use agent_vault::instructions::remove_whitelist::{self, RemoveWhitelist};
use agent_vault::instructions::set_tiers::{self, SetTiers};
use agent_vault::instructions::unpause::{self, Unpause};
use agent_vault::instructions::update_protocol_config::{self, UpdateProtocolConfig};
use agent_vault::state::{Vault, WhitelistEntry};

fn addr(b: u8) -> Address {
    Address::new([b; 32])
}

fn init_ctx() -> Initialize {
    Initialize {
        human: addr(1),
        agent: addr(2),
        usdc_mint: addr(3),
        vault_key: addr(9),
        vault_usdc_ata: addr(4),
        bump: 254,
    }
}

fn vault() -> Vault {
    initialize::handler(&init_ctx(), 100, 1000).unwrap().0
}

#[test]
fn initialize_creates_unpaused_vault() {
    let (v, ev) = initialize::handler(&init_ctx(), 100, 1000).unwrap();
    assert_eq!(v.human, addr(1));
    assert_eq!(v.agent, addr(2));
    assert_eq!(v.usdc_mint, addr(3));
    assert_eq!(v.vault_usdc_ata, addr(4));
    assert_eq!((v.tier1_max, v.tier2_max), (100, 1000));
    assert!(!v.paused);
    assert_eq!(v.proposal_count, 0);
    assert_eq!(v.bump, 254);
    assert_eq!(ev.vault, addr(9));
    assert_eq!(ev.human, addr(1));
    assert!(initialize::handler(&init_ctx(), 5, 5).is_ok());
}

#[test]
fn initialize_rejects_unordered_tiers() {
    assert_eq!(initialize::handler(&init_ctx(), 1001, 1000).unwrap_err(), VaultError::InvalidThresholds);
}

#[test]
fn set_tiers_by_human_only_and_ordered() {
    let mut ctx = SetTiers { human: addr(1), vault_key: addr(9), vault: vault() };
    let ev = set_tiers::handler(&mut ctx, 7, 70).unwrap();
    assert_eq!((ev.tier1_max, ev.tier2_max), (7, 70));
    assert_eq!((ctx.vault.tier1_max, ctx.vault.tier2_max), (7, 70));
    assert_eq!(set_tiers::handler(&mut ctx, 71, 70).unwrap_err(), VaultError::InvalidThresholds);
    ctx.human = addr(2);
    assert_eq!(set_tiers::handler(&mut ctx, 1, 2).unwrap_err(), VaultError::OnlyHuman);
    assert_eq!((ctx.vault.tier1_max, ctx.vault.tier2_max), (7, 70));
}

#[test]
fn whitelist_add_and_remove() {
    let mut ctx = AddWhitelist { human: addr(1), vault_key: addr(9), vault: vault(), whitelist_entry: None, bump: 3 };
    let ev = add_whitelist::handler(&mut ctx, addr(41), 555).unwrap();
    assert_eq!(ev.address, addr(41));
    let entry = ctx.whitelist_entry.unwrap();
    assert_eq!(entry.vault, addr(9));
    assert_eq!(entry.address, addr(41));
    assert_eq!(entry.added_at, 555);
    assert_eq!(entry.bump, 3);
    assert_eq!(add_whitelist::handler(&mut ctx, addr(41), 556).unwrap_err(), VaultError::AlreadyWhitelisted);
    let rm = RemoveWhitelist { human: addr(1), vault_key: addr(9), vault: vault(), whitelist_entry: entry };
    let ev = remove_whitelist::handler(&rm).unwrap();
    assert_eq!(ev.address, addr(41));
    assert_eq!(ev.vault, addr(9));
}

#[test]
fn whitelist_is_managed_by_human_only() {
    let mut ctx = AddWhitelist { human: addr(2), vault_key: addr(9), vault: vault(), whitelist_entry: None, bump: 3 };
    assert_eq!(add_whitelist::handler(&mut ctx, addr(41), 1).unwrap_err(), VaultError::OnlyHuman);
    assert!(ctx.whitelist_entry.is_none());
    let entry = WhitelistEntry { vault: addr(9), address: addr(41), added_at: 1, bump: 3 };
    let rm = RemoveWhitelist { human: addr(2), vault_key: addr(9), vault: vault(), whitelist_entry: entry };
    assert_eq!(remove_whitelist::handler(&rm).unwrap_err(), VaultError::OnlyHuman);
}

#[test]
fn pause_and_unpause() {
    let mut p = Pause { human: addr(1), vault_key: addr(9), vault: vault() };
    assert_eq!(pause::handler(&mut p).unwrap().vault, addr(9));
    assert!(p.vault.paused);
    assert_eq!(pause::handler(&mut p).unwrap_err(), VaultError::VaultPaused);
    let mut u = Unpause { human: addr(1), vault_key: addr(9), vault: p.vault };
    assert_eq!(unpause::handler(&mut u).unwrap().vault, addr(9));
    assert!(!u.vault.paused);
    assert_eq!(unpause::handler(&mut u).unwrap_err(), VaultError::VaultNotPaused);
}

#[test]
fn only_human_pauses() {
    let mut p = Pause { human: addr(2), vault_key: addr(9), vault: vault() };
    assert_eq!(pause::handler(&mut p).unwrap_err(), VaultError::OnlyHuman);
    assert!(!p.vault.paused);
    let mut paused = vault();
    paused.paused = true;
    let mut u = Unpause { human: addr(2), vault_key: addr(9), vault: paused };
    assert_eq!(unpause::handler(&mut u).unwrap_err(), VaultError::OnlyHuman);
    assert!(u.vault.paused);
}

fn protocol_ctx() -> InitializeProtocol {
    InitializeProtocol {
        authority: addr(30),
        usdc_mint: addr(3),
        tandem_mint: addr(31),
        staker_reward_ata: addr(20),
        buyback_ata: addr(21),
        bump: 250,
    }
}

#[test]
fn initialize_protocol_starts_empty() {
    let (c, ev) = initialize_protocol::handler(&protocol_ctx(), 25).unwrap();
    assert_eq!(c.authority, addr(30));
    assert_eq!(c.fee_bps, 25);
    assert_eq!(c.staker_reward_ata, addr(20));
    assert_eq!(c.buyback_ata, addr(21));
    assert_eq!(c.reward_per_token_stored, 0);
    assert_eq!(c.total_staked, 0);
    assert_eq!(c.total_rewards_claimed, 0);
    assert_eq!(c.total_rewards_processed, 0);
    assert_eq!(c.bump, 250);
    assert_eq!(ev.fee_bps, 25);
    assert_eq!(ev.tandem_mint, addr(31));
    assert!(initialize_protocol::handler(&protocol_ctx(), 10_000).is_ok());
}

#[test]
fn initialize_protocol_rejects_fee_above_whole() {
    assert_eq!(initialize_protocol::handler(&protocol_ctx(), 10_001).unwrap_err(), VaultError::InvalidFeeBps);
}

#[test]
fn update_protocol_config_by_authority() {
    let (mut c, _) = initialize_protocol::handler(&protocol_ctx(), 25).unwrap();
    c.total_staked = 77;
    let mut ctx = UpdateProtocolConfig { authority: addr(30), protocol_config: c, buyback_ata: addr(22) };
    update_protocol_config::handler(&mut ctx, 50).unwrap();
    assert_eq!(ctx.protocol_config.fee_bps, 50);
    assert_eq!(ctx.protocol_config.buyback_ata, addr(22));
    assert_eq!(ctx.protocol_config.total_staked, 77);
    assert_eq!(update_protocol_config::handler(&mut ctx, 10_001).unwrap_err(), VaultError::InvalidFeeBps);
    ctx.authority = addr(1);
    assert_eq!(update_protocol_config::handler(&mut ctx, 10).unwrap_err(), VaultError::OnlyAuthority);
    assert_eq!(ctx.protocol_config.fee_bps, 50);
}
