//! Creating the configuration of a new stablecoin.
use crate::mint_setup::MintSetupStep;
use crate::pubkey::Pubkey;
use crate::solana_stablecoin::{id, this_program};
use crate::solana_stablecoin::state::{StablecoinConfig, StablecoinPreset};
use vstd::prelude::*;

verus! {

/// The configuration that `handler` creates: `admin` holds every authority.
pub open spec fn initial_config(
    admin: Pubkey,
    mint: Pubkey,
    preset: StablecoinPreset,
    bump: u8,
) -> StablecoinConfig {
    StablecoinConfig {
        mint,
        admin,
        pause_authority: admin,
        blacklist_authority: admin,
        freeze_authority: admin,
        preset,
        bump,
    }
}

/// The configuration of the stablecoin `mint` created by `admin` with
/// `preset`, stored at the address found with `bump`. The pause, blacklist
/// and freeze authorities all start as `admin`.
pub fn handler(admin: Pubkey, mint: Pubkey, preset: StablecoinPreset, bump: u8) -> (config:
    StablecoinConfig)
    ensures
        config == initial_config(admin, mint, preset, bump),
        config.mint == mint,
        config.admin == admin,
        config.pause_authority == admin,
        config.blacklist_authority == admin,
        config.freeze_authority == admin,
        config.preset == preset,
        config.bump == bump,
{
    StablecoinConfig {
        mint,
        admin,
        pause_authority: admin,
        blacklist_authority: admin,
        freeze_authority: admin,
        preset,
        bump,
    }
}

/// The Token-2022 calls that set up `mint` for `admin`: the metadata
/// pointer to the mint itself; for the compliant preset (`SSS2`) the
/// permanent delegate `admin` and the transfer hook into this program; then
/// the mint with 6 decimals and `admin` as mint and freeze authority.
pub open spec fn mint_setup_steps(admin: Pubkey, mint: Pubkey, preset: StablecoinPreset) -> Seq<
    MintSetupStep,
> {
    let compliance = if preset == StablecoinPreset::SSS2 {
        seq![
            MintSetupStep::PermanentDelegateInitialize { delegate: admin },
            MintSetupStep::TransferHookInitialize {
                authority: Some(admin),
                program_id: Some(this_program()),
            },
        ]
    } else {
        Seq::empty()
    };
    seq![MintSetupStep::MetadataPointerInitialize { authority: Some(admin), metadata_address: Some(mint) }]
        + compliance + seq![
        MintSetupStep::InitializeMint2 {
            decimals: 6,
            mint_authority: admin,
            freeze_authority: Some(admin),
        },
    ]
}

/// The calls that set up the stablecoin `mint` of `admin` with `preset`, in
/// the order they are made.
pub fn mint_setup(admin: Pubkey, mint: Pubkey, preset: StablecoinPreset) -> (steps: Vec<
    MintSetupStep,
>)
    ensures
        steps@ == mint_setup_steps(admin, mint, preset),
{
    let mut steps: Vec<MintSetupStep> = Vec::new();
    steps.push(
        MintSetupStep::MetadataPointerInitialize {
            authority: Some(admin),
            metadata_address: Some(mint),
        },
    );
    if preset == StablecoinPreset::SSS2 {
        steps.push(MintSetupStep::PermanentDelegateInitialize { delegate: admin });
        steps.push(
            MintSetupStep::TransferHookInitialize { authority: Some(admin), program_id: Some(id()) },
        );
    }
    steps.push(
        MintSetupStep::InitializeMint2 {
            decimals: 6,
            mint_authority: admin,
            freeze_authority: Some(admin),
        },
    );
    steps
}

} // verus!
