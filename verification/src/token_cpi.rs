//! The calls into the Token-2022 program that an instruction decides to make.
use vstd::prelude::*;

verus! {

/// A Token-2022 instruction that the caller has been authorized to invoke on
/// the stablecoin's mint, with the caller as the token authority.
#[derive(Clone, Copy, Debug, PartialEq, Eq, Structural)]
pub enum TokenCpi {
    /// Mint `amount` base units to the destination token account.
    MintTo { amount: u64 },
    /// Burn `amount` base units from the source token account.
    Burn { amount: u64 },
    /// Freeze the token account.
    FreezeAccount,
    /// Thaw the token account.
    ThawAccount,
    /// Move `amount` base units between two token accounts, checked against
    /// the mint's `decimals`.
    TransferChecked { amount: u64, decimals: u8 },
}

} // verus!
