//! Verified core of a Solana stablecoin standard: the access rules, state
//! transitions and account decoding of the stablecoin programs and of their
//! transfer-hook program, independent of the on-chain runtime.
pub mod error;
pub mod le_bytes;
pub mod mint_setup;
pub mod pubkey;
pub mod solana_stablecoin;
pub mod stablecoin;
pub mod token_cpi;
pub mod transfer_hook;
