//! Reading the stablecoin program's accounts from their raw data: an 8-byte
//! account discriminator followed by the fields in Borsh encoding.
use crate::le_bytes::{
    le_bytes,
    le_unsigned,
    lemma_le_round_trip,
    lemma_le_unsigned_after_prefix,
    lemma_le_unsigned_before_suffix,
    pow256,
};
use crate::pubkey::Pubkey;
use crate::stablecoin::state::{BlacklistAccount, PauseState};
use vstd::prelude::*;
use vstd::utf8::{decode_utf8, encode_utf8, valid_utf8};

verus! {

broadcast use vstd::array::group_array_axioms;

/// Why account data could not be read as the expected account.
#[derive(Clone, Copy, Debug, PartialEq, Eq, Structural)]
pub enum AccountDecodeError {
    /// Fewer than 8 bytes: there is no discriminator.
    AccountDiscriminatorNotFound,
    /// The discriminator names another account type.
    AccountDiscriminatorMismatch,
    /// The fields after the discriminator are malformed.
    AccountDidNotDeserialize,
}

/// The discriminator of `PauseState` accounts.
pub open spec fn pause_state_discriminator() -> Seq<u8> {
    seq![21u8, 123u8, 173u8, 77u8, 60u8, 203u8, 197u8, 145u8]
}

/// The discriminator of `BlacklistAccount` accounts.
pub open spec fn blacklist_account_discriminator() -> Seq<u8> {
    seq![2u8, 49u8, 70u8, 213u8, 18u8, 183u8, 239u8, 224u8]
}

/// What is wrong with the discriminator of `data` when the expected one is
/// `discriminator`, if anything.
pub open spec fn header_error(data: Seq<u8>, discriminator: Seq<u8>) -> Option<
    AccountDecodeError,
> {
    if data.len() < 8 {
        Some(AccountDecodeError::AccountDiscriminatorNotFound)
    } else if data.subrange(0, 8) != discriminator {
        Some(AccountDecodeError::AccountDiscriminatorMismatch)
    } else {
        None
    }
}

/// The signed (two's complement) little-endian 64-bit number in the 8 bytes
/// of `data` from `at`.
pub open spec fn le_i64(data: Seq<u8>, at: int) -> int {
    let u = le_unsigned(data, at, 8);
    if u < 0x8000_0000_0000_0000 {
        u
    } else {
        u - 0x1_0000_0000_0000_0000
    }
}

/// What is wrong with `data` as a `PauseState` account, if anything: after
/// the discriminator, a flag byte that must be 0 or 1 and the bump.
pub open spec fn pause_state_error(data: Seq<u8>) -> Option<AccountDecodeError> {
    match header_error(data, pause_state_discriminator()) {
        Some(e) => Some(e),
        None => if data.len() < 10 || data[8] > 1 {
            Some(AccountDecodeError::AccountDidNotDeserialize)
        } else {
            None
        },
    }
}

/// The length of the reason in `BlacklistAccount` data: the 32-bit number
/// after the discriminator and the wallet.
pub open spec fn reason_len(data: Seq<u8>) -> int {
    le_unsigned(data, 40, 4)
}

/// What is wrong with `data` as a `BlacklistAccount` account, if anything:
/// after the discriminator, the 32-byte wallet, the reason (a 32-bit length
/// and that many bytes of UTF-8), the 64-bit creation time, a flag byte that
/// must be 0 or 1, and the bump.
pub open spec fn blacklist_account_error(data: Seq<u8>) -> Option<AccountDecodeError> {
    match header_error(data, blacklist_account_discriminator()) {
        Some(e) => Some(e),
        None => if data.len() < 44 || data.len() < 54 + reason_len(data) || !valid_utf8(
            data.subrange(44, 44 + reason_len(data)),
        ) || data[52 + reason_len(data)] > 1 {
            Some(AccountDecodeError::AccountDidNotDeserialize)
        } else {
            None
        },
    }
}

/// Whether `data`, a well-formed `BlacklistAccount`, blacklists its wallet.
pub open spec fn blacklist_flag(data: Seq<u8>) -> bool {
    data[52 + reason_len(data)] == 1
}

/// Checks that `data` starts with `discriminator`.
fn check_header(data: &[u8], discriminator: &[u8; 8]) -> (r: Result<(), AccountDecodeError>)
    ensures
        match header_error(data@, discriminator@) {
            Some(e) => r == Err::<(), AccountDecodeError>(e),
            None => r is Ok,
        },
{
    if data.len() < 8 {
        return Err(AccountDecodeError::AccountDiscriminatorNotFound);
    }
    let mut i: usize = 0;
    while i < 8
        invariant
            i <= 8 <= data@.len(),
            forall|j: int| 0 <= j < i ==> data@[j] == discriminator@[j],
        decreases 8 - i,
    {
        if data[i] != discriminator[i] {
            assert(data@.subrange(0, 8)[i as int] != discriminator@[i as int]);
            return Err(AccountDecodeError::AccountDiscriminatorMismatch);
        }
        i = i + 1;
    }
    assert(data@.subrange(0, 8) =~= discriminator@);
    Ok(())
}

/// Reads a `PauseState` account as its program wrote it.
pub fn decode_pause_state(data: &[u8]) -> (r: Result<PauseState, AccountDecodeError>)
    ensures
        match pause_state_error(data@) {
            Some(e) => r == Err::<PauseState, AccountDecodeError>(e),
            None => r == Ok::<PauseState, AccountDecodeError>(
                PauseState { is_paused: data@[8] == 1, bump: data@[9] },
            ),
        },
{
    let discriminator: [u8; 8] = [21, 123, 173, 77, 60, 203, 197, 145];
    assert(discriminator@ =~= pause_state_discriminator());
    check_header(data, &discriminator)?;
    if data.len() < 10 || data[8] > 1 {
        return Err(AccountDecodeError::AccountDidNotDeserialize);
    }
    Ok(PauseState { is_paused: data[8] == 1, bump: data[9] })
}

/// The unsigned little-endian 32-bit number in the 4 bytes of `data` from `at`.
fn read_u32_le(data: &[u8], at: usize) -> (n: u32)
    requires
        at + 4 <= data.len(),
    ensures
        n == le_unsigned(data@, at as int, 4),
{
    let u1: u32 = data[at + 3] as u32;
    let u2: u32 = data[at + 2] as u32 + 256 * u1;
    let u3: u32 = data[at + 1] as u32 + 256 * u2;
    let u: u32 = data[at] as u32 + 256 * u3;
    assert(u == le_unsigned(data@, at as int, 4)) by {
        reveal_with_fuel(le_unsigned, 5);
    }
    u
}

/// The signed little-endian 64-bit number in the 8 bytes of `data` from `at`.
fn read_i64_le(data: &[u8], at: usize) -> (n: i64)
    requires
        at + 8 <= data.len(),
    ensures
        n == le_i64(data@, at as int),
{
    let u1: u64 = data[at + 7] as u64;
    let u2: u64 = data[at + 6] as u64 + 256 * u1;
    let u3: u64 = data[at + 5] as u64 + 256 * u2;
    let u4: u64 = data[at + 4] as u64 + 256 * u3;
    let u5: u64 = data[at + 3] as u64 + 256 * u4;
    let u6: u64 = data[at + 2] as u64 + 256 * u5;
    let u7: u64 = data[at + 1] as u64 + 256 * u6;
    let u: u64 = data[at] as u64 + 256 * u7;
    assert(u == le_unsigned(data@, at as int, 8)) by {
        reveal_with_fuel(le_unsigned, 9);
    }
    if u < 0x8000_0000_0000_0000 {
        u as i64
    } else {
        -((u64::MAX - u) as i64) - 1
    }
}

/// The address in the 32 bytes of `data` from `at`.
fn read_pubkey(data: &[u8], at: usize) -> (key: Pubkey)
    requires
        at + 32 <= data.len(),
    ensures
        key@ == data@.subrange(at as int, at + 32),
{
    let mut bytes: [u8; 32] = [0; 32];
    let mut i: usize = 0;
    while i < 32
        invariant
            i <= 32,
            at + 32 <= data.len(),
            forall|j: int| 0 <= j < i ==> bytes@[j] == data@[at + j],
        decreases 32 - i,
    {
        bytes[i] = data[at + i];
        i = i + 1;
    }
    assert(bytes@ =~= data@.subrange(at as int, at + 32));
    Pubkey { bytes }
}

/// The `len` bytes of `data` from `at`.
fn copy_bytes(data: &[u8], at: usize, len: usize) -> (bytes: Vec<u8>)
    requires
        at + len <= data.len(),
    ensures
        bytes@ == data@.subrange(at as int, at + len),
{
    let mut bytes: Vec<u8> = Vec::new();
    let mut i: usize = 0;
    while i < len
        invariant
            i <= len,
            at + len <= data.len(),
            bytes@ == data@.subrange(at as int, at + i),
        decreases len - i,
    {
        bytes.push(data[at + i]);
        i = i + 1;
        assert(bytes@ =~= data@.subrange(at as int, at + i));
    }
    bytes
}

/// The text that the bytes `bytes` encode in UTF-8, or `None` when they are
/// not UTF-8, by `String::from_utf8`. Trusted: std accepts exactly the valid
/// UTF-8 byte sequences and decodes them to their characters.
#[verifier::external_body]
fn string_from_utf8(bytes: Vec<u8>) -> (text: Option<String>)
    ensures
        text is Some <==> valid_utf8(bytes@),
        text matches Some(s) ==> s@ == decode_utf8(bytes@),
{
    String::from_utf8(bytes).ok()
}

/// Reads a `BlacklistAccount` account as its program wrote it.
pub fn decode_blacklist_account(data: &[u8]) -> (r: Result<BlacklistAccount, AccountDecodeError>)
    ensures
        match blacklist_account_error(data@) {
            Some(e) => r == Err::<BlacklistAccount, AccountDecodeError>(e),
            None => r matches Ok(entry) && {
                &&& entry.wallet@ == data@.subrange(8, 40)
                &&& entry.reason@ == decode_utf8(data@.subrange(44, 44 + reason_len(data@)))
                &&& entry.created_at == le_i64(data@, 44 + reason_len(data@))
                &&& entry.is_blacklisted == blacklist_flag(data@)
                &&& entry.is_blacklisted == (data@[52 + reason_len(data@)] == 1)
                &&& entry.bump == data@[53 + reason_len(data@)]
            },
        },
{
    let discriminator: [u8; 8] = [2, 49, 70, 213, 18, 183, 239, 224];
    assert(discriminator@ =~= blacklist_account_discriminator());
    check_header(data, &discriminator)?;
    if data.len() < 54 {
        assert(reason_len(data@) >= 0) by {
            reveal_with_fuel(le_unsigned, 5);
        }
        return Err(AccountDecodeError::AccountDidNotDeserialize);
    }
    let n: u32 = read_u32_le(data, 40);
    if ((data.len() - 54) as u64) < (n as u64) {
        return Err(AccountDecodeError::AccountDidNotDeserialize);
    }
    let n: usize = n as usize;
    let reason = match string_from_utf8(copy_bytes(data, 44, n)) {
        Some(reason) => reason,
        None => return Err(AccountDecodeError::AccountDidNotDeserialize),
    };
    let created_at: i64 = read_i64_le(data, 44 + n);
    if data[52 + n] > 1 {
        return Err(AccountDecodeError::AccountDidNotDeserialize);
    }
    let wallet = read_pubkey(data, 8);
    Ok(
        BlacklistAccount {
            wallet,
            reason,
            created_at,
            is_blacklisted: data[52 + n] == 1,
            bump: data[53 + n],
        },
    )
}

/// The 8 little-endian two's complement bytes of the 64-bit number `x`.
pub open spec fn i64_le_bytes(x: int) -> Seq<u8> {
    le_bytes(
        if x >= 0 {
            x
        } else {
            x + 0x1_0000_0000_0000_0000
        },
        8,
    )
}

/// A flag as the byte 0 or 1.
pub open spec fn flag_byte(b: bool) -> u8 {
    if b {
        1
    } else {
        0
    }
}

/// The data of a `PauseState` account as the stablecoin program stores it.
pub open spec fn pause_state_data(p: PauseState) -> Seq<u8> {
    pause_state_discriminator() + seq![flag_byte(p.is_paused), p.bump]
}

/// The data of a `BlacklistAccount` account as the stablecoin program
/// stores it.
pub open spec fn blacklist_account_data(entry: BlacklistAccount) -> Seq<u8> {
    let reason = encode_utf8(entry.reason@);
    blacklist_account_discriminator() + entry.wallet@ + le_bytes(reason.len() as int, 4) + reason
        + i64_le_bytes(entry.created_at as int) + seq![flag_byte(entry.is_blacklisted), entry.bump]
}

/// Reading a stored pause state gives back that pause state.
pub proof fn pause_state_reads_back(p: PauseState)
    ensures
        pause_state_error(pause_state_data(p)) is None,
        (pause_state_data(p)[8] == 1) == p.is_paused,
        pause_state_data(p)[9] == p.bump,
{
    assert(pause_state_data(p).subrange(0, 8) =~= pause_state_discriminator());
}

/// Whether `entry` fits the account that the stablecoin program allocates
/// for it: 8 + 32 + (4 + 50) + 8 + 1 + 1 bytes, so a reason of at most 50
/// bytes of UTF-8. The program stores no other entry: writing a larger one
/// back into its account fails.
pub open spec fn fits_blacklist_account(entry: BlacklistAccount) -> bool {
    encode_utf8(entry.reason@).len() <= 50
}

/// Reading a stored pause state gives back that pause state, whatever bytes
/// follow it in its account.
pub proof fn pause_state_reads_back_with_padding(p: PauseState, padding: Seq<u8>)
    ensures
        pause_state_error(pause_state_data(p) + padding) is None,
        ((pause_state_data(p) + padding)[8] == 1) == p.is_paused,
        (pause_state_data(p) + padding)[9] == p.bump,
{
    assert((pause_state_data(p) + padding).subrange(0, 8) =~= pause_state_discriminator());
}

/// Reading a stored blacklist entry gives back that entry.
pub proof fn blacklist_account_reads_back(entry: BlacklistAccount)
    requires
        fits_blacklist_account(entry),
    ensures
        ({
            let data = blacklist_account_data(entry);
            let n = reason_len(data);
            &&& blacklist_account_error(data) is None
            &&& data.subrange(8, 40) == entry.wallet@
            &&& decode_utf8(data.subrange(44, 44 + n)) == entry.reason@
            &&& le_i64(data, 44 + n) == entry.created_at
            &&& blacklist_flag(data) == entry.is_blacklisted
            &&& data[53 + n] == entry.bump
        }),
{
    blacklist_account_reads_back_with_padding(entry, Seq::empty());
    assert(blacklist_account_data(entry) + Seq::empty() =~= blacklist_account_data(entry));
}

/// Reading a stored blacklist entry gives back that entry whatever bytes
/// follow it in its account (the account is allocated for the longest
/// reason, so a shorter one leaves unused bytes at the end): every field,
/// the blacklist flag among them, is read at its place after the reason,
/// never from the end of the data.
pub proof fn blacklist_account_reads_back_with_padding(entry: BlacklistAccount, padding: Seq<u8>)
    requires
        fits_blacklist_account(entry),
    ensures
        ({
            let data = blacklist_account_data(entry) + padding;
            let n = encode_utf8(entry.reason@).len() as int;
            &&& reason_len(data) == n
            &&& blacklist_account_error(data) is None
            &&& data.subrange(8, 40) == entry.wallet@
            &&& decode_utf8(data.subrange(44, 44 + n)) == entry.reason@
            &&& le_i64(data, 44 + n) == entry.created_at
            &&& blacklist_flag(data) == entry.is_blacklisted
            &&& data[53 + n] == entry.bump
        }),
{
    broadcast use vstd::utf8::encode_utf8_valid_utf8, vstd::utf8::encode_utf8_decode_utf8;

    assert(pow256(4) == 0x1_0000_0000) by {
        reveal_with_fuel(pow256, 5);
    }
    assert(pow256(8) == 0x1_0000_0000_0000_0000) by {
        reveal_with_fuel(pow256, 9);
    }
    let data = blacklist_account_data(entry) + padding;
    let header = blacklist_account_discriminator() + entry.wallet@;
    let reason = encode_utf8(entry.reason@);
    let len_bytes = le_bytes(reason.len() as int, 4);
    let x: int = entry.created_at as int;
    let u: int = if x >= 0 {
        x
    } else {
        x + 0x1_0000_0000_0000_0000
    };
    let time = i64_le_bytes(x);
    let tail = seq![flag_byte(entry.is_blacklisted), entry.bump] + padding;
    lemma_le_round_trip(reason.len() as int, 4);
    lemma_le_round_trip(u, 8);
    assert(data =~= header + (len_bytes + (reason + time + tail)));
    lemma_le_unsigned_after_prefix(header, len_bytes + (reason + time + tail), 0, 4);
    lemma_le_unsigned_before_suffix(len_bytes, reason + time + tail, 0, 4);
    let n: int = reason.len() as int;
    assert(reason_len(data) == n);
    assert(data =~= (header + len_bytes + reason) + (time + tail));
    lemma_le_unsigned_after_prefix(header + len_bytes + reason, time + tail, 0, 8);
    lemma_le_unsigned_before_suffix(time, tail, 0, 8);
    assert(data.subrange(0, 8) =~= blacklist_account_discriminator());
    assert(data.subrange(8, 40) =~= entry.wallet@);
    assert(data.subrange(44, 44 + n) =~= reason);
}

} // verus!
