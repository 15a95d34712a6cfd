//! The transfer-hook program that Token-2022 calls on every transfer of a
//! compliant stablecoin.
pub mod account_data;
pub mod extra_account_metas;

use crate::error::StablecoinError;
use crate::transfer_hook::account_data::{
    blacklist_account_error,
    blacklist_flag,
    decode_blacklist_account,
    decode_pause_state,
    pause_state_error,
    AccountDecodeError,
};
use crate::transfer_hook::extra_account_metas::{
    blacklist_seeds,
    config_seeds,
    execute_discriminator,
    extra_account_count,
    extra_account_metas,
    init_meta_list,
    meta_bytes,
    meta_list_bytes,
    metas_bytes,
    pause_seeds,
    stablecoin_program_index,
    zeros,
};
use crate::le_bytes::le_bytes;
use crate::pubkey::Pubkey;
use anchor_lang::solana_program::program_error::ProgramError;
use vstd::prelude::*;

verus! {

/// Why a transfer was not let through.
#[derive(Clone, Copy, Debug, PartialEq, Eq, Structural)]
pub enum ExecuteError {
    /// An account could not be read.
    Decode(AccountDecodeError),
    /// The stablecoin's rules refuse the transfer.
    Refused(StablecoinError),
}

/// Whether `data`, a `PauseState` account, pauses transfers, or why it
/// cannot be read.
pub open spec fn pause_outcome(data: Seq<u8>) -> Result<bool, AccountDecodeError> {
    match pause_state_error(data) {
        Some(e) => Err(e),
        None => Ok(data[8] == 1),
    }
}

/// Whether the blacklist entry whose account holds `data` blacklists its
/// wallet (an account with no data is no entry), or why it cannot be read.
pub open spec fn blacklist_outcome(data: Seq<u8>) -> Result<bool, AccountDecodeError> {
    if data.len() == 0 {
        Ok(false)
    } else {
        match blacklist_account_error(data) {
            Some(e) => Err(e),
            None => Ok(blacklist_flag(data)),
        }
    }
}

/// The answer to a transfer, checking in order the pause state, the
/// source owner's entry and the destination owner's entry: the first that
/// cannot be read or that refuses decides.
pub open spec fn execute_outcome(
    pause_data: Seq<u8>,
    source_blacklist_data: Seq<u8>,
    destination_blacklist_data: Seq<u8>,
) -> Result<(), ExecuteError> {
    match pause_outcome(pause_data) {
        Err(e) => Err(ExecuteError::Decode(e)),
        Ok(true) => Err(ExecuteError::Refused(StablecoinError::Paused)),
        Ok(false) => match blacklist_outcome(source_blacklist_data) {
            Err(e) => Err(ExecuteError::Decode(e)),
            Ok(true) => Err(ExecuteError::Refused(StablecoinError::Blacklisted)),
            Ok(false) => match blacklist_outcome(destination_blacklist_data) {
                Err(e) => Err(ExecuteError::Decode(e)),
                Ok(true) => Err(ExecuteError::Refused(StablecoinError::Blacklisted)),
                Ok(false) => Ok(()),
            },
        },
    }
}

/// Whether the blacklist entry account holding `data` blacklists its wallet.
fn entry_blocks(data: &[u8]) -> (r: Result<bool, ExecuteError>)
    ensures
        match blacklist_outcome(data@) {
            Ok(b) => r == Ok::<bool, ExecuteError>(b),
            Err(e) => r == Err::<bool, ExecuteError>(ExecuteError::Decode(e)),
        },
{
    if data.len() == 0 {
        return Ok(false);
    }
    match decode_blacklist_account(data) {
        Ok(entry) => Ok(entry.is_blacklisted),
        Err(e) => Err(ExecuteError::Decode(e)),
    }
}

/// Decides whether a transfer of `amount` may proceed, from the raw data of
/// the pause state account and of the blacklist entry accounts of the
/// source's and destination's owners. The amount plays no part.
pub fn execute(
    pause_data: &[u8],
    source_blacklist_data: &[u8],
    destination_blacklist_data: &[u8],
    amount: u64,
) -> (r: Result<(), ExecuteError>)
    ensures
        r == execute_outcome(pause_data@, source_blacklist_data@, destination_blacklist_data@),
{
    let pause_state = match decode_pause_state(pause_data) {
        Ok(pause_state) => pause_state,
        Err(e) => return Err(ExecuteError::Decode(e)),
    };
    if pause_state.is_paused {
        return Err(ExecuteError::Refused(StablecoinError::Paused));
    }
    if entry_blocks(source_blacklist_data)? {
        return Err(ExecuteError::Refused(StablecoinError::Blacklisted));
    }
    if entry_blocks(destination_blacklist_data)? {
        return Err(ExecuteError::Refused(StablecoinError::Blacklisted));
    }
    Ok(())
}

/// The stablecoin program, which owns the accounts that the hook reads
/// (`8fsBJKMGbZbQUHAHLqzgY8vkAzmCHUYkwAEQ3AFNSqMR` in base 58).
pub open spec fn stablecoin_program() -> Pubkey {
    Pubkey {
        bytes: [
            113, 246, 157, 124, 91, 198, 25, 120, 31, 239, 80, 9, 241, 72, 122, 204, 98, 122, 102,
            188, 71, 15, 0, 166, 192, 69, 154, 21, 156, 68, 100, 152,
        ],
    }
}

/// The address of the stablecoin program.
pub fn stablecoin_program_id() -> (id: Pubkey)
    ensures
        id == stablecoin_program(),
{
    Pubkey {
        bytes: [
            113, 246, 157, 124, 91, 198, 25, 120, 31, 239, 80, 9, 241, 72, 122, 204, 98, 122, 102,
            188, 71, 15, 0, 166, 192, 69, 154, 21, 156, 68, 100, 152,
        ],
    }
}

/// The stored bytes of a read-only, non-signing extra account at the fixed
/// address `key`.
pub open spec fn fixed_meta_bytes(key: Seq<u8>) -> Seq<u8> {
    seq![0u8] + key + seq![0u8, 0u8]
}

/// The stored bytes of a read-only, non-signing extra account whose address
/// derives from the packed seeds `seeds` under the stablecoin program.
pub open spec fn stablecoin_pda_meta_bytes(seeds: Seq<u8>) -> Seq<u8> {
    seq![(stablecoin_program_index() + 128) as u8] + seeds + zeros(32 - seeds.len()) + seq![
        0u8,
        0u8,
    ]
}

/// The validation data that lists the five extra accounts of a transfer.
pub open spec fn validation_data() -> Seq<u8> {
    execute_discriminator() + le_bytes(4 + 35 * extra_account_count() as int, 4) + le_bytes(
        extra_account_count() as int,
        4,
    ) + fixed_meta_bytes(stablecoin_program()@) + stablecoin_pda_meta_bytes(config_seeds())
        + stablecoin_pda_meta_bytes(pause_seeds()) + stablecoin_pda_meta_bytes(blacklist_seeds(0))
        + stablecoin_pda_meta_bytes(blacklist_seeds(2))
}

/// The number of bytes that the validation data takes: the type tag, the
/// length, the count and 35 bytes per extra account.
pub fn extra_account_meta_list_size() -> (size: usize)
    ensures
        size == validation_data().len(),
        size == 16 + 35 * extra_account_count(),
{
    assert(validation_data().len() == 16 + 35 * extra_account_count()) by {
        reveal_with_fuel(le_bytes, 5);
    }
    16 + 35 * 5
}

/// Writes the list of the five extra accounts of a transfer into the fresh
/// (all-zero) validation account data `extra_metas_data`. Succeeds exactly
/// when the data holds at least the `extra_account_meta_list_size()` bytes
/// that the list takes; the bytes after them stay zero.
pub fn initialize_extra_account_meta_list(extra_metas_data: &mut [u8]) -> (r: Result<
    (),
    ProgramError,
>)
    requires
        forall|i: int| 0 <= i < old(extra_metas_data)@.len() ==> old(extra_metas_data)@[i] == 0,
    ensures
        final(extra_metas_data)@.len() == old(extra_metas_data)@.len(),
        r is Ok <==> old(extra_metas_data)@.len() >= 16 + 35 * extra_account_count(),
        r is Ok ==> final(extra_metas_data)@ == validation_data() + zeros(
            old(extra_metas_data)@.len() - (16 + 35 * extra_account_count()),
        ),
{
    let account_metas = extra_account_metas()?;
    let r = init_meta_list(extra_metas_data, &account_metas);
    proof {
        if r is Ok {
            let ms = account_metas@;
            reveal_with_fuel(metas_bytes, 6);
            assert(meta_bytes(ms[0]) =~= fixed_meta_bytes(stablecoin_program()@));
            assert(meta_bytes(ms[1]) =~= stablecoin_pda_meta_bytes(config_seeds()));
            assert(meta_bytes(ms[2]) =~= stablecoin_pda_meta_bytes(pause_seeds()));
            assert(meta_bytes(ms[3]) =~= stablecoin_pda_meta_bytes(blacklist_seeds(0)));
            assert(meta_bytes(ms[4]) =~= stablecoin_pda_meta_bytes(blacklist_seeds(2)));
            assert(ms.drop_last().drop_last().drop_last().drop_last().drop_last() =~= Seq::empty());
            assert(meta_list_bytes(ms) =~= validation_data());
            assert(old(extra_metas_data)@.subrange(191int, old(extra_metas_data)@.len() as int)
                =~= zeros(old(extra_metas_data)@.len() - 191));
        }
    }
    r
}

} // verus!
