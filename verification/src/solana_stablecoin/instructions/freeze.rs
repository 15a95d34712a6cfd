//! Freezing and thawing token accounts.
use crate::error::StablecoinError;
use crate::pubkey::Pubkey;
use crate::solana_stablecoin::state::StablecoinConfig;
use crate::token_cpi::TokenCpi;
use vstd::prelude::*;

verus! {

/// Whether `authority` may freeze and thaw token accounts: it is the admin or
/// the freeze authority.
pub open spec fn may_freeze(config: StablecoinConfig, authority: Pubkey) -> bool {
    authority == config.admin || authority == config.freeze_authority
}

/// Decides a freeze by `authority`: the Token-2022 freeze to perform, or
/// `Unauthorized` when `authority` is neither the admin nor the freeze
/// authority.
pub fn freeze_handler(config: &StablecoinConfig, authority: Pubkey) -> (r: Result<
    TokenCpi,
    StablecoinError,
>)
    ensures
        may_freeze(*config, authority) ==> r == Ok::<TokenCpi, StablecoinError>(
            TokenCpi::FreezeAccount,
        ),
        !may_freeze(*config, authority) ==> r == Err::<TokenCpi, StablecoinError>(
            StablecoinError::Unauthorized,
        ),
        authority != config.admin && authority != config.freeze_authority ==> r == Err::<
            TokenCpi,
            StablecoinError,
        >(StablecoinError::Unauthorized),
{
    if authority != config.admin && authority != config.freeze_authority {
        return Err(StablecoinError::Unauthorized);
    }
    Ok(TokenCpi::FreezeAccount)
}

/// Decides a thaw by `authority`: the Token-2022 thaw to perform, or
/// `Unauthorized` when `authority` is neither the admin nor the freeze
/// authority.
pub fn thaw_handler(config: &StablecoinConfig, authority: Pubkey) -> (r: Result<
    TokenCpi,
    StablecoinError,
>)
    ensures
        may_freeze(*config, authority) ==> r == Ok::<TokenCpi, StablecoinError>(
            TokenCpi::ThawAccount,
        ),
        !may_freeze(*config, authority) ==> r == Err::<TokenCpi, StablecoinError>(
            StablecoinError::Unauthorized,
        ),
        authority != config.admin && authority != config.freeze_authority ==> r == Err::<
            TokenCpi,
            StablecoinError,
        >(StablecoinError::Unauthorized),
{
    if authority != config.admin && authority != config.freeze_authority {
        return Err(StablecoinError::Unauthorized);
    }
    Ok(TokenCpi::ThawAccount)
}

} // verus!
