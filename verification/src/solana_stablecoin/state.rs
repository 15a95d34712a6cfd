//! Accounts of the bit-mask stablecoin program.
pub mod roles;

use crate::pubkey::Pubkey;
use vstd::prelude::*;

verus! {

/// Which feature set a stablecoin is created with.
#[derive(Clone, Copy, Debug, PartialEq, Eq, Structural)]
pub enum StablecoinPreset {
    /// Minimal.
    SSS1,
    /// Compliant.
    SSS2,
}

/// The configuration of one stablecoin mint.
#[derive(Clone, Copy, Debug)]
pub struct StablecoinConfig {
    pub mint: Pubkey,
    pub admin: Pubkey,
    pub pause_authority: Pubkey,
    pub blacklist_authority: Pubkey,
    pub freeze_authority: Pubkey,
    pub preset: StablecoinPreset,
    pub bump: u8,
}

/// The roles granted to one user, as a bit mask of the values in `roles`.
#[derive(Clone, Copy, Debug)]
pub struct RoleAccount {
    pub user: Pubkey,
    pub roles: u16,
    pub bump: u8,
}

/// Whether one user is blacklisted.
#[derive(Clone, Copy, Debug)]
pub struct BlacklistAccount {
    pub user: Pubkey,
    pub is_blacklisted: bool,
    pub bump: u8,
}

/// Whether all transfers of the stablecoin are paused.
#[derive(Clone, Copy, Debug)]
pub struct PauseState {
    pub is_paused: bool,
    pub bump: u8,
}

} // verus!
