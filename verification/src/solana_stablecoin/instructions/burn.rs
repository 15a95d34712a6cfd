//! Burning stablecoins.
use crate::error::StablecoinError;
use crate::pubkey::Pubkey;
use crate::solana_stablecoin::state::roles::{grants, BURNER};
use crate::solana_stablecoin::state::{RoleAccount, StablecoinConfig};
use crate::token_cpi::TokenCpi;
use vstd::prelude::*;

verus! {

/// Whether `burner`, whose role account (if any) is `role_account`, may burn:
/// it is the admin or its roles include `BURNER`.
pub open spec fn may_burn(
    config: StablecoinConfig,
    burner: Pubkey,
    role_account: Option<&RoleAccount>,
) -> bool {
    burner == config.admin || (role_account matches Some(r) && grants(r.roles, BURNER))
}

/// Decides a burn of `amount` by `burner`: the Token-2022 burn to perform, or
/// `Unauthorized` when `burner` is neither the admin nor holds `BURNER`.
pub fn handler(
    config: &StablecoinConfig,
    burner: Pubkey,
    role_account: Option<&RoleAccount>,
    amount: u64,
) -> (r: Result<TokenCpi, StablecoinError>)
    ensures
        may_burn(*config, burner, role_account) ==> r == Ok::<
            TokenCpi,
            StablecoinError,
        >(TokenCpi::Burn { amount }),
        !may_burn(*config, burner, role_account) ==> r == Err::<
            TokenCpi,
            StablecoinError,
        >(StablecoinError::Unauthorized),
        burner != config.admin && (role_account matches Some(a) ==> a.roles & 0x0004u16 == 0u16)
            ==> r == Err::<TokenCpi, StablecoinError>(StablecoinError::Unauthorized),
{
    let has_role = match role_account {
        Some(role_account) => (role_account.roles & BURNER) != 0,
        None => false,
    };
    if burner != config.admin && !has_role {
        return Err(StablecoinError::Unauthorized);
    }
    Ok(TokenCpi::Burn { amount })
}

} // verus!
