//! The stablecoin program whose roles are bit masks and whose configuration
//! names one authority per duty.
pub mod instructions;
pub mod laws;
pub mod state;

use crate::pubkey::Pubkey;
use vstd::prelude::*;

verus! {

/// The address of this program (`8fsBJKMGbZbQUHAHLqzgY8vkAzmCHUYkwAEQ3AFNSqMR`
/// in base 58); its mint calls it back on every transfer.
pub open spec fn this_program() -> Pubkey {
    Pubkey {
        bytes: [
            113, 246, 157, 124, 91, 198, 25, 120, 31, 239, 80, 9, 241, 72, 122, 204, 98, 122, 102,
            188, 71, 15, 0, 166, 192, 69, 154, 21, 156, 68, 100, 152,
        ],
    }
}

/// The address of this program.
pub fn id() -> (id: Pubkey)
    ensures
        id == this_program(),
{
    Pubkey {
        bytes: [
            113, 246, 157, 124, 91, 198, 25, 120, 31, 239, 80, 9, 241, 72, 122, 204, 98, 122, 102,
            188, 71, 15, 0, 166, 192, 69, 154, 21, 156, 68, 100, 152,
        ],
    }
}

} // verus!
