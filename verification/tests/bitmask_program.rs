use stablecoin::error::StablecoinError;
use stablecoin::mint_setup::MintSetupStep;
use stablecoin::pubkey::Pubkey;
use stablecoin::solana_stablecoin::instructions::{
    blacklist, burn, freeze, initialize, roles, seize, transfer_hook,
};
use stablecoin::solana_stablecoin::state::roles::{BURNER, MINTER};
use stablecoin::solana_stablecoin::state::{
    BlacklistAccount, PauseState, RoleAccount, StablecoinConfig, StablecoinPreset,
};
use stablecoin::token_cpi::TokenCpi;

fn key(b: u8) -> Pubkey {
    Pubkey::new_from_array([b; 32])
}

fn config() -> StablecoinConfig {
    StablecoinConfig {
        mint: key(1),
        admin: key(2),
        pause_authority: key(3),
        blacklist_authority: key(4),
        freeze_authority: key(5),
        preset: StablecoinPreset::SSS2,
        bump: 254,
    }
}

#[test]
fn pubkeys_compare_by_every_byte() {
    let mut other = [7u8; 32];
    assert!(key(7) == Pubkey::new_from_array(other));
    other[31] = 8;
    assert!(key(7) != Pubkey::new_from_array(other));
    assert_eq!(key(9).to_bytes(), [9u8; 32]);
}

#[test]
fn initialize_gives_admin_every_authority() {
    let c = initialize::handler(key(2), key(1), StablecoinPreset::SSS1, 253);
    assert!(c.admin == key(2));
    assert!(c.mint == key(1));
    assert!(c.pause_authority == key(2));
    assert!(c.blacklist_authority == key(2));
    assert!(c.freeze_authority == key(2));
    assert!(c.preset == StablecoinPreset::SSS1);
    assert_eq!(c.bump, 253);
    assert!(freeze::freeze_handler(&c, key(2)).is_ok());
    assert!(seize::handler(&c, key(2), 1, 6).is_ok());
    assert_eq!(freeze::freeze_handler(&c, key(9)), Err(StablecoinError::Unauthorized));
}

#[test]
fn burn_needs_admin_or_burner_bit() {
    let c = config();
    assert_eq!(burn::handler(&c, key(2), None, 10), Ok(TokenCpi::Burn { amount: 10 }));
    let burner = RoleAccount { user: key(6), roles: BURNER | MINTER, bump: 1 };
    assert_eq!(burn::handler(&c, key(6), Some(&burner), 11), Ok(TokenCpi::Burn { amount: 11 }));
    let minter = RoleAccount { user: key(6), roles: MINTER, bump: 1 };
    assert_eq!(burn::handler(&c, key(6), Some(&minter), 11), Err(StablecoinError::Unauthorized));
    assert_eq!(burn::handler(&c, key(6), None, 11), Err(StablecoinError::Unauthorized));
}

#[test]
fn freeze_and_thaw_need_admin_or_freeze_authority() {
    let c = config();
    assert_eq!(freeze::freeze_handler(&c, key(5)), Ok(TokenCpi::FreezeAccount));
    assert_eq!(freeze::thaw_handler(&c, key(2)), Ok(TokenCpi::ThawAccount));
    assert_eq!(freeze::freeze_handler(&c, key(3)), Err(StablecoinError::Unauthorized));
    assert_eq!(freeze::thaw_handler(&c, key(4)), Err(StablecoinError::Unauthorized));
}

#[test]
fn seize_needs_admin() {
    let c = config();
    assert_eq!(
        seize::handler(&c, key(2), 500, 6),
        Ok(TokenCpi::TransferChecked { amount: 500, decimals: 6 })
    );
    assert_eq!(seize::handler(&c, key(5), 500, 6), Err(StablecoinError::Unauthorized));
}

#[test]
fn update_roles_sets_the_mask_for_the_admin_only() {
    let c = config();
    let mut r = RoleAccount { user: key(0), roles: 0, bump: 0 };
    assert_eq!(roles::handler(&c, key(3), &mut r, 9, key(6), BURNER), Err(StablecoinError::Unauthorized));
    assert!(r.user == key(0) && r.roles == 0 && r.bump == 0);
    assert_eq!(roles::handler(&c, key(2), &mut r, 9, key(6), BURNER), Ok(()));
    assert!(r.user == key(6) && r.roles == BURNER && r.bump == 9);
    assert!(burn::handler(&c, key(6), Some(&r), 1).is_ok());
}

#[test]
fn blacklist_add_and_remove() {
    let c = config();
    let mut b = BlacklistAccount { user: key(0), is_blacklisted: false, bump: 0 };
    assert_eq!(blacklist::add_handler(&c, key(5), &mut b, 7, key(8)), Err(StablecoinError::Unauthorized));
    assert!(!b.is_blacklisted && b.bump == 0);
    assert_eq!(blacklist::add_handler(&c, key(4), &mut b, 7, key(8)), Ok(()));
    assert!(b.is_blacklisted && b.user == key(8) && b.bump == 7);
    assert_eq!(
        transfer_hook::handler(None, Some(&b), None, 5),
        Err(StablecoinError::Blacklisted)
    );
    assert_eq!(blacklist::remove_handler(&c, key(3), &mut b, key(8)), Err(StablecoinError::Unauthorized));
    assert!(b.is_blacklisted);
    assert_eq!(blacklist::remove_handler(&c, key(2), &mut b, key(8)), Ok(()));
    assert!(!b.is_blacklisted && b.user == key(8) && b.bump == 7);
    assert_eq!(transfer_hook::handler(None, Some(&b), None, 5), Ok(()));
}

#[test]
fn transfer_hook_checks_pause_before_blacklists() {
    let paused = PauseState { is_paused: true, bump: 1 };
    let running = PauseState { is_paused: false, bump: 1 };
    let listed = BlacklistAccount { user: key(8), is_blacklisted: true, bump: 2 };
    let clear = BlacklistAccount { user: key(9), is_blacklisted: false, bump: 2 };
    assert_eq!(transfer_hook::handler(Some(&paused), Some(&listed), None, 1), Err(StablecoinError::Paused));
    assert_eq!(transfer_hook::handler(Some(&running), None, Some(&listed), 1), Err(StablecoinError::Blacklisted));
    assert_eq!(transfer_hook::handler(Some(&running), Some(&clear), Some(&clear), 1), Ok(()));
    assert_eq!(transfer_hook::handler(None, None, None, 0), Ok(()));
}

#[test]
fn mint_setup_adds_compliance_extensions_for_sss2_only() {
    let minimal = initialize::mint_setup(key(2), key(1), StablecoinPreset::SSS1);
    assert_eq!(minimal.len(), 2);
    match &minimal[0] {
        MintSetupStep::MetadataPointerInitialize { authority, metadata_address } => {
            assert!(*authority == Some(key(2)));
            assert!(*metadata_address == Some(key(1)));
        }
        _ => panic!("expected the metadata pointer"),
    }
    match &minimal[1] {
        MintSetupStep::InitializeMint2 { decimals, mint_authority, freeze_authority } => {
            assert_eq!(*decimals, 6);
            assert!(*mint_authority == key(2));
            assert!(*freeze_authority == Some(key(2)));
        }
        _ => panic!("expected the mint initialization"),
    }
    let compliant = initialize::mint_setup(key(2), key(1), StablecoinPreset::SSS2);
    assert_eq!(compliant.len(), 4);
    match &compliant[1] {
        MintSetupStep::PermanentDelegateInitialize { delegate } => assert!(*delegate == key(2)),
        _ => panic!("expected the permanent delegate"),
    }
    match &compliant[2] {
        MintSetupStep::TransferHookInitialize { authority, program_id } => {
            assert!(*authority == Some(key(2)));
            let own = anchor_lang::solana_program::pubkey::Pubkey::try_from(
                "8fsBJKMGbZbQUHAHLqzgY8vkAzmCHUYkwAEQ3AFNSqMR",
            )
            .unwrap();
            assert_eq!(program_id.unwrap().to_bytes(), own.to_bytes());
            assert!(*program_id == Some(stablecoin::solana_stablecoin::id()));
        }
        _ => panic!("expected the transfer hook"),
    }
    assert!(matches!(compliant[3], MintSetupStep::InitializeMint2 { .. }));
}
