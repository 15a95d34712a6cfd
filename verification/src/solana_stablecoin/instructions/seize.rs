//! Seizing stablecoins through the permanent delegate.
use crate::error::StablecoinError;
use crate::pubkey::Pubkey;
use crate::solana_stablecoin::state::StablecoinConfig;
use crate::token_cpi::TokenCpi;
use vstd::prelude::*;

verus! {

/// Whether `authority` may seize: it is the admin.
pub open spec fn may_seize(config: StablecoinConfig, authority: Pubkey) -> bool {
    authority == config.admin
}

/// Decides a seizure of `amount` by `authority` from a token account of a mint
/// with `decimals`: the checked transfer to perform, or `Unauthorized` when
/// `authority` is not the admin.
pub fn handler(config: &StablecoinConfig, authority: Pubkey, amount: u64, decimals: u8) -> (r:
    Result<TokenCpi, StablecoinError>)
    ensures
        may_seize(*config, authority) ==> r == Ok::<TokenCpi, StablecoinError>(
            TokenCpi::TransferChecked { amount, decimals },
        ),
        !may_seize(*config, authority) ==> r == Err::<TokenCpi, StablecoinError>(
            StablecoinError::Unauthorized,
        ),
        authority != config.admin ==> r == Err::<TokenCpi, StablecoinError>(
            StablecoinError::Unauthorized,
        ),
{
    if authority != config.admin {
        return Err(StablecoinError::Unauthorized);
    }
    Ok(TokenCpi::TransferChecked { amount, decimals })
}

} // verus!
