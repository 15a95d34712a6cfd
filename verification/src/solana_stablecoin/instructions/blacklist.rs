//! Adding users to and removing them from the blacklist.
use crate::error::StablecoinError;
use crate::pubkey::Pubkey;
use crate::solana_stablecoin::state::{BlacklistAccount, StablecoinConfig};
use vstd::prelude::*;

verus! {

/// Whether `authority` may manage the blacklist: it is the admin or the
/// blacklist authority.
pub open spec fn may_manage_blacklist(config: StablecoinConfig, authority: Pubkey) -> bool {
    authority == config.admin || authority == config.blacklist_authority
}

/// The blacklist entry that `add_handler` writes for `user`.
pub open spec fn listed(user: Pubkey, bump: u8) -> BlacklistAccount {
    BlacklistAccount { user, is_blacklisted: true, bump }
}

/// The entry `entry` after `remove_handler`: no longer blacklisted, the rest
/// as it was.
pub open spec fn delisted(entry: BlacklistAccount) -> BlacklistAccount {
    BlacklistAccount { is_blacklisted: false, ..entry }
}

/// Blacklists `user`: on success the entry names `user`, is blacklisted and
/// records `bump`. Refused with `Unauthorized`, leaving the entry as it was,
/// when `authority` is neither the admin nor the blacklist authority.
pub fn add_handler(
    config: &StablecoinConfig,
    authority: Pubkey,
    blacklist_account: &mut BlacklistAccount,
    bump: u8,
    user: Pubkey,
) -> (r: Result<(), StablecoinError>)
    ensures
        may_manage_blacklist(*config, authority) ==> r is Ok && *final(blacklist_account)
            == listed(user, bump),
        !may_manage_blacklist(*config, authority) ==> r == Err::<(), StablecoinError>(
            StablecoinError::Unauthorized,
        ) && *final(blacklist_account) == *old(blacklist_account),
        authority != config.admin && authority != config.blacklist_authority ==> r == Err::<
            (),
            StablecoinError,
        >(StablecoinError::Unauthorized) && *final(blacklist_account) == *old(blacklist_account),
{
    if authority != config.admin && authority != config.blacklist_authority {
        return Err(StablecoinError::Unauthorized);
    }
    blacklist_account.user = user;
    blacklist_account.is_blacklisted = true;
    blacklist_account.bump = bump;
    Ok(())
}

/// Takes `user` off the blacklist: on success the entry is no longer
/// blacklisted and keeps its other fields. Refused with `Unauthorized`,
/// leaving the entry as it was, when `authority` is neither the admin nor the
/// blacklist authority.
pub fn remove_handler(
    config: &StablecoinConfig,
    authority: Pubkey,
    blacklist_account: &mut BlacklistAccount,
    user: Pubkey,
) -> (r: Result<(), StablecoinError>)
    ensures
        may_manage_blacklist(*config, authority) ==> r is Ok && *final(blacklist_account)
            == delisted(*old(blacklist_account)),
        !may_manage_blacklist(*config, authority) ==> r == Err::<(), StablecoinError>(
            StablecoinError::Unauthorized,
        ) && *final(blacklist_account) == *old(blacklist_account),
        authority != config.admin && authority != config.blacklist_authority ==> r == Err::<
            (),
            StablecoinError,
        >(StablecoinError::Unauthorized) && *final(blacklist_account) == *old(blacklist_account),
{
    if authority != config.admin && authority != config.blacklist_authority {
        return Err(StablecoinError::Unauthorized);
    }
    blacklist_account.is_blacklisted = false;
    Ok(())
}

} // verus!
