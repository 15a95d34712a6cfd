//! Accounts of the named-role stablecoin program.
pub mod role_types;

use crate::pubkey::Pubkey;
use vstd::prelude::*;

verus! {

/// Which feature set a stablecoin is created with.
#[derive(Clone, Copy, Debug, PartialEq, Eq, Structural)]
pub enum StablecoinPreset {
    /// Minimal.
    SSS1,
    /// Compliant: transfer hook, permanent delegate and frozen new accounts.
    SSS2,
}

/// The configuration of one stablecoin mint.
#[derive(Clone, Debug)]
pub struct StablecoinConfig {
    pub name: String,
    pub symbol: String,
    pub uri: String,
    pub decimals: u8,
    pub enable_transfer_hook: bool,
    pub enable_permanent_delegate: bool,
    pub default_account_frozen: bool,
    pub master_authority: Pubkey,
    pub mint: Pubkey,
    pub bump: u8,
}

/// One role, named by `role_type` (see `role_types`), held by `wallet`.
#[derive(Clone, Debug)]
pub struct RoleAccount {
    pub wallet: Pubkey,
    pub role_type: String,
    pub bump: u8,
}

/// Whether `wallet` is blacklisted, why, and since when (Unix seconds).
#[derive(Clone, Debug)]
pub struct BlacklistAccount {
    pub wallet: Pubkey,
    pub reason: String,
    pub created_at: i64,
    pub is_blacklisted: bool,
    pub bump: u8,
}

/// Whether all transfers of the stablecoin are paused.
#[derive(Clone, Copy, Debug)]
pub struct PauseState {
    pub is_paused: bool,
    pub bump: u8,
}

} // verus!
