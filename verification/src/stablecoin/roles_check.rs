//! The role check that guards every privileged instruction.
use crate::stablecoin::state::RoleAccount;
use vstd::prelude::*;

verus! {

/// Whether `role_account` holds the role named `role_type`.
pub fn holds_role(role_account: &RoleAccount, role_type: &str) -> (r: bool)
    ensures
        r == (role_account.role_type@ == role_type@),
{
    role_account.role_type == role_type.to_owned()
}

} // verus!
