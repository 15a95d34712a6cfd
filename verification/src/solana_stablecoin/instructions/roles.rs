//! Granting and revoking role bits.
use crate::error::StablecoinError;
use crate::pubkey::Pubkey;
use crate::solana_stablecoin::state::{RoleAccount, StablecoinConfig};
use vstd::prelude::*;

verus! {

/// Whether `admin` may change roles: it is the configured admin.
pub open spec fn may_update_roles(config: StablecoinConfig, admin: Pubkey) -> bool {
    admin == config.admin
}

/// Sets the roles of `user` to exactly the mask `roles`: on success the role
/// account names `user`, holds `roles` and records `bump`. Refused with
/// `Unauthorized`, leaving the account as it was, when `admin` is not the
/// configured admin.
pub fn handler(
    config: &StablecoinConfig,
    admin: Pubkey,
    role_account: &mut RoleAccount,
    bump: u8,
    user: Pubkey,
    roles: u16,
) -> (r: Result<(), StablecoinError>)
    ensures
        may_update_roles(*config, admin) ==> r is Ok && *final(role_account) == (RoleAccount {
            user,
            roles,
            bump,
        }),
        !may_update_roles(*config, admin) ==> r == Err::<(), StablecoinError>(
            StablecoinError::Unauthorized,
        ) && *final(role_account) == *old(role_account),
        admin != config.admin ==> r == Err::<(), StablecoinError>(StablecoinError::Unauthorized)
            && *final(role_account) == *old(role_account),
{
    if admin != config.admin {
        return Err(StablecoinError::Unauthorized);
    }
    role_account.user = user;
    role_account.roles = roles;
    role_account.bump = bump;
    Ok(())
}

} // verus!
