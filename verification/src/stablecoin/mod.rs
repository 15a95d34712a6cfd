//! The stablecoin program whose roles are named, one role account per role
//! and wallet, with its mint set up through Token-2022 extensions.
pub mod instructions;
pub mod laws;
pub mod roles_check;
pub mod state;

use crate::pubkey::Pubkey;
use vstd::prelude::*;

verus! {

/// The transfer-hook program that a compliant mint calls on every transfer
/// (`sssHook111111111111111111111111111111111111` in base 58).
pub open spec fn transfer_hook_program() -> Pubkey {
    Pubkey {
        bytes: [
            13, 8, 142, 87, 211, 139, 247, 135, 21, 32, 167, 166, 97, 153, 163, 169, 226, 174, 168,
            65, 190, 103, 195, 117, 240, 7, 97, 240, 0, 0, 0, 0,
        ],
    }
}

/// The address of the transfer-hook program.
pub fn transfer_hook_id() -> (id: Pubkey)
    ensures
        id == transfer_hook_program(),
{
    Pubkey {
        bytes: [
            13, 8, 142, 87, 211, 139, 247, 135, 21, 32, 167, 166, 97, 153, 163, 169, 226, 174, 168,
            65, 190, 103, 195, 117, 240, 7, 97, 240, 0, 0, 0, 0,
        ],
    }
}

} // verus!
