//! The calls into Token-2022 that set up a stablecoin's mint.
use crate::pubkey::Pubkey;
use vstd::prelude::*;

verus! {

/// The state that a token account of the mint starts in.
#[derive(Clone, Copy, Debug, PartialEq, Eq, Structural)]
pub enum AccountState {
    Uninitialized,
    Initialized,
    Frozen,
}

/// One call into Token-2022 that sets up the new mint, signed by the admin.
#[derive(Clone, Debug)]
pub enum MintSetupStep {
    /// Point the mint's metadata at `metadata_address`, changeable by
    /// `authority`.
    MetadataPointerInitialize { authority: Option<Pubkey>, metadata_address: Option<Pubkey> },
    /// Make `delegate` a delegate of every token account of the mint.
    PermanentDelegateInitialize { delegate: Pubkey },
    /// Call `program_id` on every transfer, changeable by `authority`.
    TransferHookInitialize { authority: Option<Pubkey>, program_id: Option<Pubkey> },
    /// Start every new token account of the mint in `state`.
    DefaultAccountStateInitialize { state: AccountState },
    /// Initialize the mint itself.
    InitializeMint2 { decimals: u8, mint_authority: Pubkey, freeze_authority: Option<Pubkey> },
    /// Store the token's name, symbol and URI in the mint.
    TokenMetadataInitialize { name: String, symbol: String, uri: String },
}

} // verus!
