pub mod add_whitelist;
pub mod approve_proposal;
pub mod cancel_proposal;
pub mod claim_rewards;
pub mod close_proposal;
pub mod initialize;
pub mod initialize_protocol;
pub mod pause;
pub mod propose;
pub mod remove_whitelist;
pub mod send_usdc;
pub mod set_tiers;
pub mod stake;
pub mod unpause;
pub mod unstake;
pub mod update_protocol_config;
