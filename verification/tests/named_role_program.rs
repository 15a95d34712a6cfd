use stablecoin::error::StablecoinError;
use stablecoin::pubkey::Pubkey;
use stablecoin::mint_setup::{AccountState, MintSetupStep};
use stablecoin::stablecoin::instructions::{blacklist, initialize, mint, pause, roles};
use stablecoin::stablecoin::roles_check::holds_role;
use stablecoin::stablecoin::state::role_types;
use stablecoin::stablecoin::state::{BlacklistAccount, PauseState, RoleAccount, StablecoinPreset};
use stablecoin::stablecoin::transfer_hook_id;
use stablecoin::token_cpi::TokenCpi;

fn key(b: u8) -> Pubkey {
    Pubkey::new_from_array([b; 32])
}

fn role(name: &str) -> RoleAccount {
    RoleAccount { wallet: key(3), role_type: name.to_string(), bump: 1 }
}

fn step_names(steps: &[MintSetupStep]) -> Vec<&'static str> {
    steps
        .iter()
        .map(|s| match s {
            MintSetupStep::MetadataPointerInitialize { .. } => "metadata_pointer",
            MintSetupStep::PermanentDelegateInitialize { .. } => "permanent_delegate",
            MintSetupStep::TransferHookInitialize { .. } => "transfer_hook",
            MintSetupStep::DefaultAccountStateInitialize { .. } => "default_state",
            MintSetupStep::InitializeMint2 { .. } => "mint",
            MintSetupStep::TokenMetadataInitialize { .. } => "metadata",
        })
        .collect()
}

#[test]
fn transfer_hook_program_id_decodes_its_base58_name() {
    // sssHook111111111111111111111111111111111111
    let expected: [u8; 32] = [
        13, 8, 142, 87, 211, 139, 247, 135, 21, 32, 167, 166, 97, 153, 163, 169, 226, 174, 168,
        65, 190, 103, 195, 117, 240, 7, 97, 240, 0, 0, 0, 0,
    ];
    assert_eq!(transfer_hook_id().to_bytes(), expected);
    let from_runtime = anchor_lang::solana_program::pubkey::Pubkey::try_from(
        "sssHook111111111111111111111111111111111111",
    )
    .unwrap();
    assert_eq!(from_runtime.to_bytes(), expected);
}

#[test]
fn minimal_preset_sets_up_a_plain_mint() {
    let out = initialize::handler(
        key(2), key(1), 250, 251, StablecoinPreset::SSS1,
        "USD Coin".to_string(), "USDX".to_string(), "https://x.io".to_string(), 6,
    );
    assert_eq!(out.config.name, "USD Coin");
    assert_eq!(out.config.symbol, "USDX");
    assert_eq!(out.config.uri, "https://x.io");
    assert_eq!(out.config.decimals, 6);
    assert!(!out.config.enable_transfer_hook);
    assert!(!out.config.enable_permanent_delegate);
    assert!(!out.config.default_account_frozen);
    assert!(out.config.master_authority == key(2));
    assert!(out.config.mint == key(1));
    assert_eq!(out.config.bump, 250);
    assert!(out.admin_role.wallet == key(2));
    assert_eq!(out.admin_role.role_type, role_types::MASTER);
    assert_eq!(out.admin_role.bump, 251);
    assert_eq!(step_names(&out.mint_setup), vec!["metadata_pointer", "mint", "metadata"]);
    match &out.mint_setup[1] {
        MintSetupStep::InitializeMint2 { decimals, mint_authority, freeze_authority } => {
            assert_eq!(*decimals, 6);
            assert!(*mint_authority == key(2));
            assert!(*freeze_authority == Some(key(2)));
        }
        _ => panic!("expected the mint initialization"),
    }
    match &out.mint_setup[2] {
        MintSetupStep::TokenMetadataInitialize { name, symbol, uri } => {
            assert_eq!(name, "USD Coin");
            assert_eq!(symbol, "USDX");
            assert_eq!(uri, "https://x.io");
        }
        _ => panic!("expected the metadata"),
    }
}

#[test]
fn compliant_preset_adds_the_three_extensions() {
    let out = initialize::handler(
        key(2), key(1), 250, 251, StablecoinPreset::SSS2,
        "C".to_string(), "C".to_string(), "u".to_string(), 9,
    );
    assert!(out.config.enable_transfer_hook);
    assert!(out.config.enable_permanent_delegate);
    assert!(out.config.default_account_frozen);
    assert_eq!(
        step_names(&out.mint_setup),
        vec!["metadata_pointer", "permanent_delegate", "transfer_hook", "default_state", "mint", "metadata"]
    );
    match &out.mint_setup[0] {
        MintSetupStep::MetadataPointerInitialize { authority, metadata_address } => {
            assert!(*authority == Some(key(2)));
            assert!(*metadata_address == Some(key(1)));
        }
        _ => panic!("expected the metadata pointer"),
    }
    match &out.mint_setup[1] {
        MintSetupStep::PermanentDelegateInitialize { delegate } => assert!(*delegate == key(2)),
        _ => panic!("expected the permanent delegate"),
    }
    match &out.mint_setup[2] {
        MintSetupStep::TransferHookInitialize { authority, program_id } => {
            assert!(*authority == Some(key(2)));
            assert!(*program_id == Some(transfer_hook_id()));
        }
        _ => panic!("expected the transfer hook"),
    }
    match &out.mint_setup[3] {
        MintSetupStep::DefaultAccountStateInitialize { state } => assert_eq!(*state, AccountState::Frozen),
        _ => panic!("expected the default account state"),
    }
}

#[test]
fn mint_needs_the_minter_role() {
    assert_eq!(mint::handler(&role(role_types::MINTER), 42), Ok(TokenCpi::MintTo { amount: 42 }));
    assert_eq!(mint::handler(&role(role_types::MASTER), 42), Err(StablecoinError::Unauthorized));
    assert_eq!(mint::handler(&role("Minter"), 42), Err(StablecoinError::Unauthorized));
}

#[test]
fn pause_and_unpause_need_the_pauser_role() {
    let mut p = PauseState { is_paused: false, bump: 0 };
    assert_eq!(pause::pause_handler(&role(role_types::BURNER), &mut p, 5), Err(StablecoinError::Unauthorized));
    assert!(!p.is_paused && p.bump == 0);
    assert_eq!(pause::pause_handler(&role(role_types::PAUSER), &mut p, 5), Ok(()));
    assert!(p.is_paused && p.bump == 5);
    assert_eq!(pause::unpause_handler(&role(role_types::MASTER), &mut p, 6), Err(StablecoinError::Unauthorized));
    assert!(p.is_paused && p.bump == 5);
    assert_eq!(pause::unpause_handler(&role(role_types::PAUSER), &mut p, 6), Ok(()));
    assert!(!p.is_paused && p.bump == 6);
}

#[test]
fn blacklist_needs_the_blacklister_role() {
    let mut b = BlacklistAccount {
        wallet: key(0), reason: String::new(), created_at: 0, is_blacklisted: false, bump: 0,
    };
    assert_eq!(
        blacklist::add_handler(&role(role_types::SEIZER), &mut b, 4, key(8), "fraud".to_string(), 1_700_000_000),
        Err(StablecoinError::Unauthorized)
    );
    assert!(!b.is_blacklisted && b.reason.is_empty());
    assert_eq!(
        blacklist::add_handler(&role(role_types::BLACKLISTER), &mut b, 4, key(8), "fraud".to_string(), 1_700_000_000),
        Ok(())
    );
    assert!(b.is_blacklisted && b.wallet == key(8) && b.bump == 4);
    assert_eq!(b.reason, "fraud");
    assert_eq!(b.created_at, 1_700_000_000);
    assert_eq!(blacklist::remove_handler(&role(role_types::FREEZER), &mut b, key(8)), Err(StablecoinError::Unauthorized));
    assert!(b.is_blacklisted);
    assert_eq!(blacklist::remove_handler(&role(role_types::BLACKLISTER), &mut b, key(8)), Ok(()));
    assert!(!b.is_blacklisted && b.wallet == key(8));
    assert_eq!(b.reason, "fraud");
}

#[test]
fn add_role_records_the_role() {
    let r = roles::add_handler("minter".to_string(), key(5), 200);
    assert!(r.wallet == key(5));
    assert_eq!(r.role_type, "minter");
    assert_eq!(r.bump, 200);
    assert!(holds_role(&r, role_types::MINTER));
    assert!(!holds_role(&r, role_types::BURNER));
}

#[test]
fn master_role_grants_no_operating_role() {
    let master = role(role_types::MASTER);
    assert!(!holds_role(&master, role_types::MINTER));
    assert!(!holds_role(&master, role_types::PAUSER));
    assert!(!holds_role(&master, role_types::BLACKLISTER));
}
