//! Minting stablecoins.
use crate::error::StablecoinError;
use crate::stablecoin::state::role_types::MINTER;
use crate::stablecoin::state::RoleAccount;
use crate::stablecoin::roles_check::holds_role;
use crate::token_cpi::TokenCpi;
use vstd::prelude::*;

verus! {

/// Decides a mint of `amount` by the holder of `role_account`: the Token-2022
/// mint to perform, or `Unauthorized` when the role is not `MINTER`.
pub fn handler(role_account: &RoleAccount, amount: u64) -> (r: Result<TokenCpi, StablecoinError>)
    ensures
        role_account.role_type@ == MINTER@ ==> r == Ok::<TokenCpi, StablecoinError>(
            TokenCpi::MintTo { amount },
        ),
        role_account.role_type@ != MINTER@ ==> r == Err::<TokenCpi, StablecoinError>(
            StablecoinError::Unauthorized,
        ),
{
    if !holds_role(role_account, MINTER) {
        return Err(StablecoinError::Unauthorized);
    }
    Ok(TokenCpi::MintTo { amount })
}

} // verus!
