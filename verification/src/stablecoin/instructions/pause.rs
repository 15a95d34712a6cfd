//! Pausing and resuming all transfers.
use crate::error::StablecoinError;
use crate::stablecoin::roles_check::holds_role;
use crate::stablecoin::state::role_types::PAUSER;
use crate::stablecoin::state::{PauseState, RoleAccount};
use vstd::prelude::*;

verus! {

/// Pauses transfers: on success the pause state is paused and records
/// `bump`. Refused with `Unauthorized`, leaving the state as it was, when the
/// role is not `PAUSER`.
pub fn pause_handler(role_account: &RoleAccount, pause_state: &mut PauseState, bump: u8) -> (r:
    Result<(), StablecoinError>)
    ensures
        role_account.role_type@ == PAUSER@ ==> r is Ok && *final(pause_state) == (PauseState {
            is_paused: true,
            bump,
        }),
        role_account.role_type@ != PAUSER@ ==> r == Err::<(), StablecoinError>(
            StablecoinError::Unauthorized,
        ) && *final(pause_state) == *old(pause_state),
{
    if !holds_role(role_account, PAUSER) {
        return Err(StablecoinError::Unauthorized);
    }
    pause_state.is_paused = true;
    pause_state.bump = bump;
    Ok(())
}

/// Resumes transfers: on success the pause state is not paused and records
/// `bump`. Refused with `Unauthorized`, leaving the state as it was, when the
/// role is not `PAUSER`.
pub fn unpause_handler(role_account: &RoleAccount, pause_state: &mut PauseState, bump: u8) -> (r:
    Result<(), StablecoinError>)
    ensures
        role_account.role_type@ == PAUSER@ ==> r is Ok && *final(pause_state) == (PauseState {
            is_paused: false,
            bump,
        }),
        role_account.role_type@ != PAUSER@ ==> r == Err::<(), StablecoinError>(
            StablecoinError::Unauthorized,
        ) && *final(pause_state) == *old(pause_state),
{
    if !holds_role(role_account, PAUSER) {
        return Err(StablecoinError::Unauthorized);
    }
    pause_state.is_paused = false;
    pause_state.bump = bump;
    Ok(())
}

} // verus!
