//! The check that every transfer of the stablecoin passes through.
use crate::error::StablecoinError;
use crate::solana_stablecoin::state::{BlacklistAccount, PauseState};
use vstd::prelude::*;

verus! {

/// Whether the pause state, when there is one, pauses transfers.
pub open spec fn pauses(pause_state: Option<&PauseState>) -> bool {
    pause_state matches Some(p) && p.is_paused
}

/// Whether the blacklist entry, when there is one, blacklists its user.
pub open spec fn blocks(entry: Option<&BlacklistAccount>) -> bool {
    entry matches Some(b) && b.is_blacklisted
}

/// The answer to a transfer: refused with `Paused` while paused; otherwise
/// refused with `Blacklisted` when the source's or the destination's owner is
/// blacklisted; otherwise allowed.
pub open spec fn transfer_verdict(
    pause_state: Option<&PauseState>,
    source_blacklist: Option<&BlacklistAccount>,
    destination_blacklist: Option<&BlacklistAccount>,
) -> Result<(), StablecoinError> {
    if pauses(pause_state) {
        Err(StablecoinError::Paused)
    } else if blocks(source_blacklist) || blocks(destination_blacklist) {
        Err(StablecoinError::Blacklisted)
    } else {
        Ok(())
    }
}

/// Decides whether a transfer of `amount` may proceed, from the pause state
/// and the blacklist entries of the source's and destination's owners (each
/// absent when the account does not exist). The amount plays no part.
pub fn handler(
    pause_state: Option<&PauseState>,
    source_blacklist: Option<&BlacklistAccount>,
    destination_blacklist: Option<&BlacklistAccount>,
    amount: u64,
) -> (r: Result<(), StablecoinError>)
    ensures
        r == transfer_verdict(pause_state, source_blacklist, destination_blacklist),
{
    if let Some(pause_state) = pause_state {
        if pause_state.is_paused {
            return Err(StablecoinError::Paused);
        }
    }
    if let Some(blacklist) = source_blacklist {
        if blacklist.is_blacklisted {
            return Err(StablecoinError::Blacklisted);
        }
    }
    if let Some(blacklist) = destination_blacklist {
        if blacklist.is_blacklisted {
            return Err(StablecoinError::Blacklisted);
        }
    }
    Ok(())
}

} // verus!
