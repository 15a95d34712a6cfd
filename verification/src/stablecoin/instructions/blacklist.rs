//! Adding wallets to and removing them from the blacklist.
use crate::error::StablecoinError;
use crate::pubkey::Pubkey;
use crate::stablecoin::roles_check::holds_role;
use crate::stablecoin::state::role_types::BLACKLISTER;
use crate::stablecoin::state::{BlacklistAccount, RoleAccount};
use vstd::prelude::*;

verus! {

/// Blacklists `user` for `reason` at time `now` (Unix seconds): on success
/// the entry names `user`, holds `reason` and `now`, is blacklisted and
/// records `bump`. Refused with `Unauthorized`, leaving the entry as it was,
/// when the role is not `BLACKLISTER`.
pub fn add_handler(
    role_account: &RoleAccount,
    blacklist_account: &mut BlacklistAccount,
    bump: u8,
    user: Pubkey,
    reason: String,
    now: i64,
) -> (r: Result<(), StablecoinError>)
    ensures
        role_account.role_type@ == BLACKLISTER@ ==> r is Ok && *final(blacklist_account) == (
        BlacklistAccount { wallet: user, reason, created_at: now, is_blacklisted: true, bump }),
        role_account.role_type@ != BLACKLISTER@ ==> r == Err::<(), StablecoinError>(
            StablecoinError::Unauthorized,
        ) && *final(blacklist_account) == *old(blacklist_account),
{
    if !holds_role(role_account, BLACKLISTER) {
        return Err(StablecoinError::Unauthorized);
    }
    blacklist_account.wallet = user;
    blacklist_account.reason = reason;
    blacklist_account.created_at = now;
    blacklist_account.is_blacklisted = true;
    blacklist_account.bump = bump;
    Ok(())
}

/// Takes the entry's wallet off the blacklist: on success the entry is no
/// longer blacklisted and keeps its other fields. Refused with
/// `Unauthorized`, leaving the entry as it was, when the role is not
/// `BLACKLISTER`.
pub fn remove_handler(
    role_account: &RoleAccount,
    blacklist_account: &mut BlacklistAccount,
    user: Pubkey,
) -> (r: Result<(), StablecoinError>)
    ensures
        role_account.role_type@ == BLACKLISTER@ ==> r is Ok && *final(blacklist_account) == (
        BlacklistAccount { is_blacklisted: false, ..*old(blacklist_account) }),
        role_account.role_type@ != BLACKLISTER@ ==> r == Err::<(), StablecoinError>(
            StablecoinError::Unauthorized,
        ) && *final(blacklist_account) == *old(blacklist_account),
{
    if !holds_role(role_account, BLACKLISTER) {
        return Err(StablecoinError::Unauthorized);
    }
    blacklist_account.is_blacklisted = false;
    Ok(())
}

} // verus!
