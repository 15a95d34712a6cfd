//! Creating a stablecoin: its configuration, its master role and the setup
//! of its Token-2022 mint.
use crate::mint_setup::{AccountState, MintSetupStep};
use crate::pubkey::Pubkey;
use crate::stablecoin::state::role_types::MASTER;
use crate::stablecoin::state::{RoleAccount, StablecoinConfig, StablecoinPreset};
use crate::stablecoin::{transfer_hook_id, transfer_hook_program};
use vstd::prelude::*;

verus! {

/// Everything that creating a stablecoin produces.
pub struct InitializeOutcome {
    /// The new configuration account.
    pub config: StablecoinConfig,
    /// The master role of the creator.
    pub admin_role: RoleAccount,
    /// The Token-2022 calls that set up the mint, in the order they are made.
    pub mint_setup: Vec<MintSetupStep>,
}

/// The Token-2022 calls that set up `mint` for `admin`: the metadata pointer
/// to the mint itself; for the compliant preset the permanent delegate, the
/// transfer hook and frozen new accounts; then the mint with `admin` as mint
/// and freeze authority; then the metadata.
pub open spec fn mint_setup_steps(
    admin: Pubkey,
    mint: Pubkey,
    preset: StablecoinPreset,
    name: String,
    symbol: String,
    uri: String,
    decimals: u8,
) -> Seq<MintSetupStep> {
    let compliance = if preset == StablecoinPreset::SSS2 {
        seq![
            MintSetupStep::PermanentDelegateInitialize { delegate: admin },
            MintSetupStep::TransferHookInitialize {
                authority: Some(admin),
                program_id: Some(transfer_hook_program()),
            },
            MintSetupStep::DefaultAccountStateInitialize { state: AccountState::Frozen },
        ]
    } else {
        Seq::empty()
    };
    seq![MintSetupStep::MetadataPointerInitialize { authority: Some(admin), metadata_address: Some(mint) }]
        + compliance + seq![
        MintSetupStep::InitializeMint2 {
            decimals,
            mint_authority: admin,
            freeze_authority: Some(admin),
        },
        MintSetupStep::TokenMetadataInitialize { name, symbol, uri },
    ]
}

/// Creates the stablecoin `mint` for `admin` with `preset`: its configuration
/// (at the address found with `config_bump`), the master role of `admin` (at
/// the address found with `admin_role_bump`) and the calls that set up the
/// mint. The three compliance features are on exactly for `SSS2`.
pub fn handler(
    admin: Pubkey,
    mint: Pubkey,
    config_bump: u8,
    admin_role_bump: u8,
    preset: StablecoinPreset,
    name: String,
    symbol: String,
    uri: String,
    decimals: u8,
) -> (outcome: InitializeOutcome)
    ensures
        outcome.config == (StablecoinConfig {
            name,
            symbol,
            uri,
            decimals,
            enable_transfer_hook: preset == StablecoinPreset::SSS2,
            enable_permanent_delegate: preset == StablecoinPreset::SSS2,
            default_account_frozen: preset == StablecoinPreset::SSS2,
            master_authority: admin,
            mint,
            bump: config_bump,
        }),
        outcome.admin_role.wallet == admin,
        outcome.admin_role.role_type@ == MASTER@,
        outcome.admin_role.bump == admin_role_bump,
        outcome.mint_setup@ == mint_setup_steps(admin, mint, preset, name, symbol, uri, decimals),
{
    let compliant = preset == StablecoinPreset::SSS2;
    let config = StablecoinConfig {
        name: name.clone(),
        symbol: symbol.clone(),
        uri: uri.clone(),
        decimals,
        enable_transfer_hook: compliant,
        enable_permanent_delegate: compliant,
        default_account_frozen: compliant,
        master_authority: admin,
        mint,
        bump: config_bump,
    };
    let admin_role = RoleAccount {
        wallet: admin,
        role_type: MASTER.to_owned(),
        bump: admin_role_bump,
    };
    let mut mint_setup: Vec<MintSetupStep> = Vec::new();
    mint_setup.push(
        MintSetupStep::MetadataPointerInitialize {
            authority: Some(admin),
            metadata_address: Some(mint),
        },
    );
    if config.enable_permanent_delegate {
        mint_setup.push(MintSetupStep::PermanentDelegateInitialize { delegate: admin });
    }
    if config.enable_transfer_hook {
        mint_setup.push(
            MintSetupStep::TransferHookInitialize {
                authority: Some(admin),
                program_id: Some(transfer_hook_id()),
            },
        );
    }
    if config.default_account_frozen {
        mint_setup.push(
            MintSetupStep::DefaultAccountStateInitialize { state: AccountState::Frozen },
        );
    }
    mint_setup.push(
        MintSetupStep::InitializeMint2 {
            decimals,
            mint_authority: admin,
            freeze_authority: Some(admin),
        },
    );
    mint_setup.push(MintSetupStep::TokenMetadataInitialize { name, symbol, uri });
    InitializeOutcome { config, admin_role, mint_setup }
}

} // verus!
