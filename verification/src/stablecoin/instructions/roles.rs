//! Granting roles.
use crate::pubkey::Pubkey;
use crate::stablecoin::state::RoleAccount;
use vstd::prelude::*;

verus! {

/// The role account that grants `role_type` to `wallet`, stored at the
/// address found with `bump`. Only the holder of the master role reaches
/// this: the caller must present the master role account of its own wallet.
pub fn add_handler(role_type: String, wallet: Pubkey, bump: u8) -> (role_account: RoleAccount)
    ensures
        role_account.wallet == wallet,
        role_account.role_type == role_type,
        role_account.bump == bump,
{
    RoleAccount { wallet, role_type, bump }
}

} // verus!
