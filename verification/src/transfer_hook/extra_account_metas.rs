//! The extra accounts that Token-2022 must pass to the hook on every
//! transfer, described as seeds of program-derived addresses and stored in
//! the hook's validation account.
use anchor_lang::solana_program::program_error::ProgramError;
use spl_tlv_account_resolution::account::ExtraAccountMeta;
use spl_tlv_account_resolution::seeds::Seed;
use spl_tlv_account_resolution::state::ExtraAccountMetaList;
use spl_transfer_hook_interface::instruction::ExecuteInstruction;
use crate::le_bytes::le_bytes;
use crate::pubkey::Pubkey;
use crate::transfer_hook::{stablecoin_program, stablecoin_program_id};
use vstd::prelude::*;

verus! {

broadcast use vstd::array::group_array_axioms;

/// Declares the runtime's program error, which the account-resolution
/// library reports.
#[verifier::external_type_specification]
#[verifier::external_body]
pub struct ExProgramError(ProgramError);

/// One seed of a program-derived address, resolved at transfer time.
#[derive(Clone, Debug)]
pub enum SeedConfig {
    /// Fixed bytes.
    Literal { bytes: Vec<u8> },
    /// `length` bytes of the instruction data from `index`.
    InstructionData { index: u8, length: u8 },
    /// The address of the account at `index` in the transfer's accounts.
    AccountKey { index: u8 },
    /// `length` bytes of the data of the account at `account_index`, from
    /// `data_index`.
    AccountData { account_index: u8, data_index: u8, length: u8 },
}

/// One extra account as stored in the validation account: how its address is
/// found (`discriminator` 1: derived from the seeds packed in
/// `address_config`) and how it is passed.
#[derive(Clone, Copy, Debug)]
pub struct AccountMetaConfig {
    pub discriminator: u8,
    pub address_config: [u8; 32],
    pub is_signer: bool,
    pub is_writable: bool,
}

/// The packed form of one seed: a tag byte and its parameters; a literal
/// also carries its length.
pub open spec fn seed_bytes(seed: SeedConfig) -> Seq<u8> {
    match seed {
        SeedConfig::Literal { bytes } => seq![1u8, bytes.len() as u8] + bytes@,
        SeedConfig::InstructionData { index, length } => seq![2u8, index, length],
        SeedConfig::AccountKey { index } => seq![3u8, index],
        SeedConfig::AccountData { account_index, data_index, length } => seq![
            4u8,
            account_index,
            data_index,
            length,
        ],
    }
}

/// The packed seeds, one after another.
pub open spec fn packed_seeds(seeds: Seq<SeedConfig>) -> Seq<u8>
    decreases seeds.len(),
{
    if seeds.len() == 0 {
        Seq::empty()
    } else {
        packed_seeds(seeds.drop_last()) + seed_bytes(seeds.last())
    }
}

/// `n` zero bytes.
pub open spec fn zeros(n: int) -> Seq<u8> {
    Seq::new(n as nat, |i: int| 0u8)
}

/// The 32-byte address configuration of `seeds`: the packed seeds, then
/// zeros.
pub open spec fn address_config_of(seeds: Seq<SeedConfig>) -> Seq<u8> {
    packed_seeds(seeds) + zeros(32 - packed_seeds(seeds).len())
}

/// Whether `seed` can be packed without overflowing its length byte.
pub open spec fn packable(seed: SeedConfig) -> bool {
    seed matches SeedConfig::Literal { bytes } ==> bytes.len() <= 253
}

/// The extra account at the fixed address `key`, by
/// `ExtraAccountMeta::new_with_pubkey`. Trusted: the library stores the
/// address itself as the configuration, with discriminator 0.
#[verifier::external_body]
fn meta_with_pubkey(key: &Pubkey, is_signer: bool, is_writable: bool) -> (r: Result<
    AccountMetaConfig,
    ProgramError,
>)
    ensures
        r is Ok,
        r matches Ok(meta) ==> meta.discriminator == 0,
        r matches Ok(meta) ==> meta.address_config@ == key@,
        r matches Ok(meta) ==> meta.is_signer == is_signer,
        r matches Ok(meta) ==> meta.is_writable == is_writable,
{
    let key = anchor_lang::solana_program::pubkey::Pubkey::new_from_array(key.bytes);
    let m = ExtraAccountMeta::new_with_pubkey(&key, is_signer, is_writable)?;
    Ok(AccountMetaConfig { discriminator: m.discriminator, address_config: m.address_config, is_signer: m.is_signer.into(), is_writable: m.is_writable.into() })
}

/// The extra account whose address derives from `seeds` under the program
/// at `program_index` in the transfer's accounts, by
/// `ExtraAccountMeta::new_external_pda_with_seeds`. Trusted: the library
/// marks the program's position by setting the top bit of the discriminator,
/// failing when the position does not fit in the remaining seven bits, and
/// packs the seeds one after another into 32 bytes, zero-filled, failing when
/// they need more than 32 bytes.
#[verifier::external_body]
fn meta_with_external_seeds(program_index: u8, seeds: &Vec<SeedConfig>, signer: bool, writable: bool)
    -> (r: Result<AccountMetaConfig, ProgramError>)
    requires
        forall|i: int| 0 <= i < seeds@.len() ==> packable(#[trigger] seeds@[i]),
    ensures
        r is Ok <==> !(program_index >= 128 || packed_seeds(seeds@).len() > 32),
        r matches Ok(meta) ==> meta.discriminator == program_index + 128,
        r matches Ok(meta) ==> meta.address_config@ == address_config_of(seeds@),
        r matches Ok(meta) ==> meta.is_signer == signer,
        r matches Ok(meta) ==> meta.is_writable == writable,
{
    let seeds: Vec<Seed> = seeds.iter().map(|s| match s {
        SeedConfig::Literal { bytes } => Seed::Literal { bytes: bytes.clone() },
        SeedConfig::InstructionData { index, length } => Seed::InstructionData { index: *index, length: *length },
        SeedConfig::AccountKey { index } => Seed::AccountKey { index: *index },
        SeedConfig::AccountData { account_index: a, data_index: d, length: l } => Seed::AccountData { account_index: *a, data_index: *d, length: *l },
    }).collect();
    let m = ExtraAccountMeta::new_external_pda_with_seeds(program_index, &seeds, signer, writable)?;
    Ok(AccountMetaConfig { discriminator: m.discriminator, address_config: m.address_config, is_signer: m.is_signer.into(), is_writable: m.is_writable.into() })
}

/// The 35 stored bytes of one extra account: the discriminator, the address
/// configuration, then the signer and writable flags as 0 or 1.
pub open spec fn meta_bytes(meta: AccountMetaConfig) -> Seq<u8> {
    seq![meta.discriminator] + meta.address_config@ + seq![
        if meta.is_signer {
            1u8
        } else {
            0u8
        },
        if meta.is_writable {
            1u8
        } else {
            0u8
        },
    ]
}

/// The stored bytes of the extra accounts, one after another.
pub open spec fn metas_bytes(metas: Seq<AccountMetaConfig>) -> Seq<u8>
    decreases metas.len(),
{
    if metas.len() == 0 {
        Seq::empty()
    } else {
        metas_bytes(metas.drop_last()) + meta_bytes(metas.last())
    }
}

/// The 8-byte type tag of the transfer-hook `Execute` instruction.
pub open spec fn execute_discriminator() -> Seq<u8> {
    seq![105u8, 37u8, 101u8, 197u8, 75u8, 251u8, 102u8, 26u8]
}

/// The validation data for `metas`: one type-length-value entry tagged with
/// the `Execute` instruction whose value is the count of extra accounts
/// followed by the extra accounts.
pub open spec fn meta_list_bytes(metas: Seq<AccountMetaConfig>) -> Seq<u8> {
    execute_discriminator() + le_bytes(4 + 35 * metas.len() as int, 4) + le_bytes(
        metas.len() as int,
        4,
    )
        + metas_bytes(metas)
}

/// Writes the validation data for `metas` into the fresh (all-zero) account
/// data `data`, by `ExtraAccountMetaList::init::<ExecuteInstruction>`.
/// Trusted: on zeroed data the library places its single entry at the start
/// and fails when the data is too short for it or the entry's length does
/// not fit in 32 bits. What a failed call leaves in `data` is not stated.
#[verifier::external_body]
pub(crate) fn init_meta_list(data: &mut [u8], metas: &Vec<AccountMetaConfig>) -> (r: Result<(), ProgramError>)
    requires
        forall|i: int| 0 <= i < old(data)@.len() ==> old(data)@[i] == 0,
    ensures
        final(data)@.len() == old(data)@.len(),
        r is Ok <==> 4 + 35 * metas@.len() <= u32::MAX && old(data)@.len() >= 16 + 35
            * metas@.len(),
        r is Ok ==> final(data)@ == meta_list_bytes(metas@) + old(data)@.subrange(
            16 + 35 * metas@.len() as int,
            old(data)@.len() as int,
        ),
{
    let metas: Vec<ExtraAccountMeta> = metas.iter().map(|m| ExtraAccountMeta {
        discriminator: m.discriminator,
        address_config: m.address_config,
        is_signer: m.is_signer.into(),
        is_writable: m.is_writable.into(),
    }).collect();
    ExtraAccountMetaList::init::<ExecuteInstruction>(data, &metas)
}

/// The position, in a transfer's accounts, of the stablecoin program: the
/// first extra account, after the source (0), the mint (1), the destination
/// (2), the source's owner (3) and the validation account (4).
pub open spec fn stablecoin_program_index() -> u8 {
    5
}

/// The seeds of the stablecoin configuration: "config" and the mint's
/// address (account 1).
pub open spec fn config_seeds() -> Seq<u8> {
    seq![1u8, 6u8, 99u8, 111u8, 110u8, 102u8, 105u8, 103u8, 3u8, 1u8]
}

/// The seeds of the pause state: "pause" and the configuration's address
/// (account 6).
pub open spec fn pause_seeds() -> Seq<u8> {
    seq![1u8, 5u8, 112u8, 97u8, 117u8, 115u8, 101u8, 3u8, 6u8]
}

/// The seeds of the blacklist entry of the owner of the token account at
/// `account`: "blacklist", the configuration's address (account 6), and the
/// 32 owner bytes of that token account's data from offset 32.
pub open spec fn blacklist_seeds(account: u8) -> Seq<u8> {
    seq![
        1u8,
        9u8,
        98u8,
        108u8,
        97u8,
        99u8,
        107u8,
        108u8,
        105u8,
        115u8,
        116u8,
        3u8,
        6u8,
        4u8,
        account,
        32u8,
        32u8,
    ]
}

/// Whether `meta` is a read-only, non-signing account at the fixed address
/// `key`.
pub open spec fn fixed_at(meta: AccountMetaConfig, key: Seq<u8>) -> bool {
    &&& meta.discriminator == 0
    &&& meta.address_config@ == key
    &&& !meta.is_signer
    &&& !meta.is_writable
}

/// Whether `meta` is a read-only, non-signing account whose address derives
/// from the packed seeds `seeds` under the stablecoin program.
pub open spec fn derived_under_stablecoin(meta: AccountMetaConfig, seeds: Seq<u8>) -> bool {
    &&& meta.discriminator == stablecoin_program_index() + 128
    &&& meta.address_config@ == seeds + zeros(32 - seeds.len())
    &&& !meta.is_signer
    &&& !meta.is_writable
}

/// The number of extra accounts of a transfer.
pub open spec fn extra_account_count() -> nat {
    5
}

/// The extra accounts of a transfer, at positions 5 to 9: the stablecoin
/// program, then, as addresses of that program, its configuration of the
/// mint, its pause state, and its blacklist entries of the source's
/// (account 0) and the destination's (account 2) owners.
pub fn extra_account_metas() -> (r: Result<Vec<AccountMetaConfig>, ProgramError>)
    ensures
        r matches Ok(metas) && {
            &&& metas@.len() == extra_account_count()
            &&& fixed_at(metas@[0], stablecoin_program()@)
            &&& derived_under_stablecoin(metas@[1], config_seeds())
            &&& derived_under_stablecoin(metas@[2], pause_seeds())
            &&& derived_under_stablecoin(metas@[3], blacklist_seeds(0))
            &&& derived_under_stablecoin(metas@[4], blacklist_seeds(2))
        },
{
    let program = meta_with_pubkey(&stablecoin_program_id(), false, false)?;
    let config_seed_list = vec![
        SeedConfig::Literal { bytes: vec![99, 111, 110, 102, 105, 103] },
        SeedConfig::AccountKey { index: 1 },
    ];
    proof {
        reveal_with_fuel(packed_seeds, 3);
        assert(packed_seeds(config_seed_list@) =~= config_seeds());
    }
    let config = meta_with_external_seeds(5, &config_seed_list, false, false)?;
    let pause_seed_list = vec![
        SeedConfig::Literal { bytes: vec![112, 97, 117, 115, 101] },
        SeedConfig::AccountKey { index: 6 },
    ];
    proof {
        reveal_with_fuel(packed_seeds, 3);
        assert(packed_seeds(pause_seed_list@) =~= pause_seeds());
    }
    let pause = meta_with_external_seeds(5, &pause_seed_list, false, false)?;
    let source_seeds = vec![
        SeedConfig::Literal { bytes: vec![98, 108, 97, 99, 107, 108, 105, 115, 116] },
        SeedConfig::AccountKey { index: 6 },
        SeedConfig::AccountData { account_index: 0, data_index: 32, length: 32 },
    ];
    proof {
        reveal_with_fuel(packed_seeds, 4);
        assert(packed_seeds(source_seeds@) =~= blacklist_seeds(0));
    }
    let source_blacklist = meta_with_external_seeds(5, &source_seeds, false, false)?;
    let destination_seeds = vec![
        SeedConfig::Literal { bytes: vec![98, 108, 97, 99, 107, 108, 105, 115, 116] },
        SeedConfig::AccountKey { index: 6 },
        SeedConfig::AccountData { account_index: 2, data_index: 32, length: 32 },
    ];
    proof {
        reveal_with_fuel(packed_seeds, 4);
        assert(packed_seeds(destination_seeds@) =~= blacklist_seeds(2));
    }
    let destination_blacklist = meta_with_external_seeds(5, &destination_seeds, false, false)?;
    Ok(vec![program, config, pause, source_blacklist, destination_blacklist])
}

} // verus!
