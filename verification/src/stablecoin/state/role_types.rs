//! The names of the roles that a `RoleAccount` can hold.
use vstd::prelude::*;

verus! {

pub const MASTER: &'static str = "master";

pub const MINTER: &'static str = "minter";

pub const BURNER: &'static str = "burner";

pub const PAUSER: &'static str = "pauser";

pub const FREEZER: &'static str = "freezer";

pub const BLACKLISTER: &'static str = "blacklister";

pub const SEIZER: &'static str = "seizer";

} // verus!
