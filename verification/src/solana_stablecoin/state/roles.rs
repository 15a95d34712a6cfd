//! The role bits of `RoleAccount::roles`.
use vstd::prelude::*;

verus! {

/// Bit 0.
pub const ADMIN: u16 = 0x0001;

/// Bit 1.
pub const MINTER: u16 = 0x0002;

/// Bit 2.
pub const BURNER: u16 = 0x0004;

/// Bit 3.
pub const BLACK_LISTER: u16 = 0x0008;

/// Bit 4.
pub const FREEZER: u16 = 0x0010;

/// Whether the mask `roles` grants `role` (shares a set bit with it).
pub open spec fn grants(roles: u16, role: u16) -> bool {
    roles & role != 0
}

} // verus!
