use anchor_lang::solana_program::pubkey::Pubkey as Key;
use spl_tlv_account_resolution::account::ExtraAccountMeta;
use stablecoin::error::StablecoinError;
use stablecoin::transfer_hook::account_data::{
    decode_blacklist_account, decode_pause_state, AccountDecodeError,
};
use stablecoin::transfer_hook::extra_account_metas::extra_account_metas;
use stablecoin::transfer_hook::{
    execute, extra_account_meta_list_size, initialize_extra_account_meta_list, stablecoin_program_id,
    ExecuteError,
};

const PAUSE_DISC: [u8; 8] = [21, 123, 173, 77, 60, 203, 197, 145];
const BLACKLIST_DISC: [u8; 8] = [2, 49, 70, 213, 18, 183, 239, 224];

fn pause_data(paused: u8, bump: u8) -> Vec<u8> {
    let mut d = PAUSE_DISC.to_vec();
    d.push(paused);
    d.push(bump);
    d
}

fn blacklist_data(wallet: u8, reason: &[u8], created_at: i64, flag: u8, bump: u8) -> Vec<u8> {
    let mut d = BLACKLIST_DISC.to_vec();
    d.extend_from_slice(&[wallet; 32]);
    d.extend_from_slice(&(reason.len() as u32).to_le_bytes());
    d.extend_from_slice(reason);
    d.extend_from_slice(&created_at.to_le_bytes());
    d.push(flag);
    d.push(bump);
    d
}

#[test]
fn discriminators_are_the_account_name_hashes() {
    let h = anchor_lang::solana_program::hash::hash(b"account:PauseState");
    assert_eq!(&h.to_bytes()[..8], &PAUSE_DISC);
    let h = anchor_lang::solana_program::hash::hash(b"account:BlacklistAccount");
    assert_eq!(&h.to_bytes()[..8], &BLACKLIST_DISC);
}

#[test]
fn pause_state_decodes() {
    let p = decode_pause_state(&pause_data(1, 254)).unwrap();
    assert!(p.is_paused);
    assert_eq!(p.bump, 254);
    let p = decode_pause_state(&pause_data(0, 3)).unwrap();
    assert!(!p.is_paused);
    assert_eq!(decode_pause_state(&pause_data(2, 3)).unwrap_err(), AccountDecodeError::AccountDidNotDeserialize);
    assert_eq!(decode_pause_state(&PAUSE_DISC[..7]).unwrap_err(), AccountDecodeError::AccountDiscriminatorNotFound);
    assert_eq!(decode_pause_state(&PAUSE_DISC).unwrap_err(), AccountDecodeError::AccountDidNotDeserialize);
    let mut wrong = pause_data(0, 0);
    wrong[3] ^= 1;
    assert_eq!(decode_pause_state(&wrong).unwrap_err(), AccountDecodeError::AccountDiscriminatorMismatch);
    // trailing bytes are ignored, as the account may be larger than its fields
    let mut longer = pause_data(1, 9);
    longer.extend_from_slice(&[7, 7, 7]);
    assert!(decode_pause_state(&longer).unwrap().is_paused);
}

#[test]
fn blacklist_account_decodes() {
    let d = blacklist_data(8, "sanctioned — OFAC".as_bytes(), -5, 1, 77);
    let b = decode_blacklist_account(&d).unwrap();
    assert_eq!(b.wallet.to_bytes(), [8u8; 32]);
    assert_eq!(b.reason, "sanctioned — OFAC");
    assert_eq!(b.created_at, -5);
    assert!(b.is_blacklisted);
    assert_eq!(b.bump, 77);
    let b = decode_blacklist_account(&blacklist_data(1, b"", i64::MAX, 0, 0)).unwrap();
    assert_eq!(b.created_at, i64::MAX);
    assert!(!b.is_blacklisted);
    let b = decode_blacklist_account(&blacklist_data(1, b"x", i64::MIN, 0, 0)).unwrap();
    assert_eq!(b.created_at, i64::MIN);
}

#[test]
fn blacklist_account_errors() {
    let bad_utf8 = blacklist_data(8, &[0xff, 0xfe], 0, 1, 1);
    assert_eq!(decode_blacklist_account(&bad_utf8).unwrap_err(), AccountDecodeError::AccountDidNotDeserialize);
    let bad_flag = blacklist_data(8, b"r", 0, 2, 1);
    assert_eq!(decode_blacklist_account(&bad_flag).unwrap_err(), AccountDecodeError::AccountDidNotDeserialize);
    let mut short = blacklist_data(8, b"reason", 0, 1, 1);
    short.pop();
    assert_eq!(decode_blacklist_account(&short).unwrap_err(), AccountDecodeError::AccountDidNotDeserialize);
    assert_eq!(decode_blacklist_account(&pause_data(1, 1)).unwrap_err(), AccountDecodeError::AccountDiscriminatorMismatch);
    assert_eq!(decode_blacklist_account(&[]).unwrap_err(), AccountDecodeError::AccountDiscriminatorNotFound);
    let mut huge = blacklist_data(8, b"r", 0, 1, 1);
    huge[40..44].copy_from_slice(&u32::MAX.to_le_bytes());
    assert_eq!(decode_blacklist_account(&huge).unwrap_err(), AccountDecodeError::AccountDidNotDeserialize);
}

#[test]
fn execute_checks_pause_then_source_then_destination() {
    let clear = blacklist_data(1, b"", 0, 0, 1);
    let listed = blacklist_data(2, b"fraud", 0, 1, 1);
    assert_eq!(execute(&pause_data(0, 1), &[], &[], 10), Ok(()));
    assert_eq!(execute(&pause_data(0, 1), &clear, &clear, 10), Ok(()));
    assert_eq!(execute(&pause_data(1, 1), &listed, &listed, 10), Err(ExecuteError::Refused(StablecoinError::Paused)));
    assert_eq!(execute(&pause_data(0, 1), &listed, &[], 10), Err(ExecuteError::Refused(StablecoinError::Blacklisted)));
    assert_eq!(execute(&pause_data(0, 1), &[], &listed, 10), Err(ExecuteError::Refused(StablecoinError::Blacklisted)));
    assert_eq!(
        execute(&[], &[], &[], 10),
        Err(ExecuteError::Decode(AccountDecodeError::AccountDiscriminatorNotFound))
    );
    assert_eq!(
        execute(&pause_data(0, 1), &[1, 2, 3], &listed, 10),
        Err(ExecuteError::Decode(AccountDecodeError::AccountDiscriminatorNotFound))
    );
    assert_eq!(
        execute(&pause_data(0, 1), &listed, &[1, 2, 3], 10),
        Err(ExecuteError::Refused(StablecoinError::Blacklisted))
    );
}

fn stablecoin_program_bytes() -> [u8; 32] {
    anchor_lang::solana_program::pubkey::Pubkey::try_from("8fsBJKMGbZbQUHAHLqzgY8vkAzmCHUYkwAEQ3AFNSqMR")
        .unwrap()
        .to_bytes()
}

#[test]
fn extra_account_metas_are_the_stablecoin_programs_accounts() {
    let metas = extra_account_metas().unwrap();
    assert_eq!(metas.len(), 5);
    assert_eq!(stablecoin_program_id().to_bytes(), stablecoin_program_bytes());
    assert_eq!(metas[0].discriminator, 0);
    assert_eq!(metas[0].address_config, stablecoin_program_bytes());
    let mut config = vec![1, 6];
    config.extend_from_slice(b"config");
    config.extend_from_slice(&[3, 1]);
    config.resize(32, 0);
    assert_eq!(metas[1].address_config.to_vec(), config);
    let mut pause = vec![1, 5];
    pause.extend_from_slice(b"pause");
    pause.extend_from_slice(&[3, 6]);
    pause.resize(32, 0);
    assert_eq!(metas[2].address_config.to_vec(), pause);
    let mut source = vec![1, 9];
    source.extend_from_slice(b"blacklist");
    source.extend_from_slice(&[3, 6, 4, 0, 32, 32]);
    source.resize(32, 0);
    assert_eq!(metas[3].address_config.to_vec(), source);
    let mut destination = source.clone();
    destination[14] = 2;
    assert_eq!(metas[4].address_config.to_vec(), destination);
    for m in &metas[1..] {
        // a program-derived address of the account at position 5: the stablecoin program
        assert_eq!(m.discriminator, 128 + 5);
    }
    for m in &metas {
        assert!(!m.is_signer && !m.is_writable);
    }
}

#[test]
fn the_original_allocation_is_too_small_for_the_list() {
    let mut data = vec![0u8; 8 + 4 + 4 * 35];
    assert!(initialize_extra_account_meta_list(&mut data).is_err());
    let mut data = vec![0u8; extra_account_meta_list_size() - 1];
    assert!(initialize_extra_account_meta_list(&mut data).is_err());
}

#[test]
fn validation_account_holds_the_list() {
    assert_eq!(extra_account_meta_list_size(), 191);
    let mut data = vec![0u8; extra_account_meta_list_size()];
    initialize_extra_account_meta_list(&mut data).unwrap();
    let disc = anchor_lang::solana_program::hash::hash(b"spl-transfer-hook-interface:execute");
    assert_eq!(&data[..8], &disc.to_bytes()[..8]);
    assert_eq!(&data[..8], &[105, 37, 101, 197, 75, 251, 102, 26]);
    assert_eq!(&data[8..12], &179u32.to_le_bytes());
    assert_eq!(&data[12..16], &5u32.to_le_bytes());
    let metas = extra_account_metas().unwrap();
    for (i, m) in metas.iter().enumerate() {
        let at = 16 + 35 * i;
        assert_eq!(data[at], m.discriminator);
        assert_eq!(&data[at + 1..at + 33], &m.address_config);
        assert_eq!(&data[at + 33..at + 35], &[0, 0]);
    }
    let mut longer = vec![0u8; 200];
    initialize_extra_account_meta_list(&mut longer).unwrap();
    assert_eq!(&longer[..191], &data[..]);
    assert_eq!(&longer[191..], &[0u8; 9]);
}

#[test]
fn extra_accounts_resolve_to_the_stablecoin_programs_addresses() {
    let stablecoin = Key::new_from_array(stablecoin_program_bytes());
    let hook = Key::try_from("sssHook111111111111111111111111111111111111").unwrap();
    let mint = Key::new_from_array([1; 32]);
    let source_owner = Key::new_from_array([7; 32]);
    let destination_owner = Key::new_from_array([8; 32]);
    let token_account = |owner: &Key| {
        let mut d = vec![0u8; 165];
        d[..32].copy_from_slice(mint.as_ref());
        d[32..64].copy_from_slice(owner.as_ref());
        d
    };
    let mut keys: Vec<Key> = vec![
        Key::new_from_array([3; 32]),
        mint,
        Key::new_from_array([4; 32]),
        source_owner,
        Key::new_from_array([5; 32]),
    ];
    let datas: Vec<Option<Vec<u8>>> =
        vec![Some(token_account(&source_owner)), None, Some(token_account(&destination_owner)), None, None];
    for m in extra_account_metas().unwrap() {
        let meta = ExtraAccountMeta {
            discriminator: m.discriminator,
            address_config: m.address_config,
            ..Default::default()
        };
        let resolved = meta
            .resolve(&[], &hook, |i| {
                keys.get(i).map(|k| (k, datas.get(i).and_then(|d| d.as_deref())))
            })
            .unwrap();
        keys.push(resolved.pubkey);
    }
    let pda = |seeds: &[&[u8]]| Key::find_program_address(seeds, &stablecoin).0;
    let config = pda(&[b"config", mint.as_ref()]);
    assert_eq!(keys[5], stablecoin);
    assert_eq!(keys[6], config);
    assert_eq!(keys[7], pda(&[b"pause", config.as_ref()]));
    assert_eq!(keys[8], pda(&[b"blacklist", config.as_ref(), source_owner.as_ref()]));
    assert_eq!(keys[9], pda(&[b"blacklist", config.as_ref(), destination_owner.as_ref()]));
}
