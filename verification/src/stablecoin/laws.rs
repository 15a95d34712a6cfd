//! Properties that tie the named-role program to the transfer hook that
//! enforces its pause and blacklist.
use crate::error::StablecoinError;
use crate::pubkey::Pubkey;
use crate::mint_setup::{AccountState, MintSetupStep};
use crate::stablecoin::instructions::initialize::mint_setup_steps;
use crate::stablecoin::state::role_types::{BLACKLISTER, MASTER, MINTER, PAUSER};
use crate::stablecoin::state::{BlacklistAccount, PauseState, RoleAccount, StablecoinPreset};
use crate::stablecoin::transfer_hook_program;
use crate::transfer_hook::account_data::{
    blacklist_account_data,
    blacklist_account_reads_back,
    blacklist_account_reads_back_with_padding,
    fits_blacklist_account,
    pause_state_data,
    pause_state_reads_back,
};
use crate::transfer_hook::{blacklist_outcome, execute_outcome, ExecuteError};
use vstd::prelude::*;

verus! {

/// Once the pause state is paused, the hook refuses every transfer with
/// `Paused`, whatever the blacklist entries hold.
pub proof fn paused_state_stops_every_transfer(
    bump: u8,
    source_blacklist_data: Seq<u8>,
    destination_blacklist_data: Seq<u8>,
)
    ensures
        execute_outcome(
            pause_state_data(PauseState { is_paused: true, bump }),
            source_blacklist_data,
            destination_blacklist_data,
        ) == Err::<(), ExecuteError>(ExecuteError::Refused(StablecoinError::Paused)),
{
    pause_state_reads_back(PauseState { is_paused: true, bump });
}

/// Once the pause state is not paused, the hook refuses no transfer for
/// being paused, and lets through a transfer between owners whose stored
/// blacklist entries do not blacklist them.
pub proof fn unpaused_state_lets_transfers_through(
    bump: u8,
    source_entry: BlacklistAccount,
    destination_entry: BlacklistAccount,
    source_blacklist_data: Seq<u8>,
    destination_blacklist_data: Seq<u8>,
)
    requires
        !source_entry.is_blacklisted,
        !destination_entry.is_blacklisted,
        fits_blacklist_account(source_entry),
        fits_blacklist_account(destination_entry),
    ensures
        execute_outcome(
            pause_state_data(PauseState { is_paused: false, bump }),
            source_blacklist_data,
            destination_blacklist_data,
        ) != Err::<(), ExecuteError>(ExecuteError::Refused(StablecoinError::Paused)),
        execute_outcome(
            pause_state_data(PauseState { is_paused: false, bump }),
            blacklist_account_data(source_entry),
            blacklist_account_data(destination_entry),
        ) == Ok::<(), ExecuteError>(()),
{
    pause_state_reads_back(PauseState { is_paused: false, bump });
    blacklist_account_reads_back(source_entry);
    blacklist_account_reads_back(destination_entry);
}

/// A blacklisted wallet can neither send nor receive while transfers are not
/// paused: the hook refuses with `Blacklisted` (on the receiving side, once
/// the sender's entry could be read).
pub proof fn blacklisted_wallet_cannot_transfer(
    entry: BlacklistAccount,
    pause_bump: u8,
    other_blacklist_data: Seq<u8>,
)
    requires
        entry.is_blacklisted,
        fits_blacklist_account(entry),
    ensures
        execute_outcome(
            pause_state_data(PauseState { is_paused: false, bump: pause_bump }),
            blacklist_account_data(entry),
            other_blacklist_data,
        ) == Err::<(), ExecuteError>(ExecuteError::Refused(StablecoinError::Blacklisted)),
        blacklist_outcome(other_blacklist_data) is Ok ==> execute_outcome(
            pause_state_data(PauseState { is_paused: false, bump: pause_bump }),
            other_blacklist_data,
            blacklist_account_data(entry),
        ) == Err::<(), ExecuteError>(ExecuteError::Refused(StablecoinError::Blacklisted)),
{
    pause_state_reads_back(PauseState { is_paused: false, bump: pause_bump });
    blacklist_account_reads_back(entry);
}

/// A wallet taken off the blacklist can send to and receive from an owner
/// whose stored entry does not blacklist it, while transfers are not paused.
pub proof fn delisted_wallet_can_transfer(
    entry: BlacklistAccount,
    other: BlacklistAccount,
    pause_bump: u8,
)
    requires
        !entry.is_blacklisted,
        !other.is_blacklisted,
        fits_blacklist_account(entry),
        fits_blacklist_account(other),
    ensures
        execute_outcome(
            pause_state_data(PauseState { is_paused: false, bump: pause_bump }),
            blacklist_account_data(entry),
            blacklist_account_data(other),
        ) == Ok::<(), ExecuteError>(()),
        execute_outcome(
            pause_state_data(PauseState { is_paused: false, bump: pause_bump }),
            blacklist_account_data(other),
            blacklist_account_data(entry),
        ) == Ok::<(), ExecuteError>(()),
{
    pause_state_reads_back(PauseState { is_paused: false, bump: pause_bump });
    blacklist_account_reads_back(entry);
    blacklist_account_reads_back(other);
}

/// A blacklisted wallet's entry, as stored in its account (with whatever
/// unused bytes follow it there), stops the wallet from sending and from
/// receiving while transfers are not paused: the hook refuses with
/// `Blacklisted` (on the receiving side, once the sender's entry could be
/// read).
pub proof fn blacklisted_account_stops_transfers(
    entry: BlacklistAccount,
    padding: Seq<u8>,
    pause_bump: u8,
    other_blacklist_data: Seq<u8>,
)
    requires
        entry.is_blacklisted,
        fits_blacklist_account(entry),
    ensures
        execute_outcome(
            pause_state_data(PauseState { is_paused: false, bump: pause_bump }),
            blacklist_account_data(entry) + padding,
            other_blacklist_data,
        ) == Err::<(), ExecuteError>(ExecuteError::Refused(StablecoinError::Blacklisted)),
        blacklist_outcome(other_blacklist_data) is Ok ==> execute_outcome(
            pause_state_data(PauseState { is_paused: false, bump: pause_bump }),
            other_blacklist_data,
            blacklist_account_data(entry) + padding,
        ) == Err::<(), ExecuteError>(ExecuteError::Refused(StablecoinError::Blacklisted)),
{
    pause_state_reads_back(PauseState { is_paused: false, bump: pause_bump });
    blacklist_account_reads_back_with_padding(entry, padding);
    assert((blacklist_account_data(entry) + padding).len() > 0);
}

/// Entries that do not blacklist their wallets, as stored in their accounts
/// (with whatever unused bytes follow them), let a transfer between those
/// wallets through while transfers are not paused.
pub proof fn unlisted_accounts_let_transfers_through(
    source_entry: BlacklistAccount,
    source_padding: Seq<u8>,
    destination_entry: BlacklistAccount,
    destination_padding: Seq<u8>,
    pause_bump: u8,
)
    requires
        !source_entry.is_blacklisted,
        !destination_entry.is_blacklisted,
        fits_blacklist_account(source_entry),
        fits_blacklist_account(destination_entry),
    ensures
        execute_outcome(
            pause_state_data(PauseState { is_paused: false, bump: pause_bump }),
            blacklist_account_data(source_entry) + source_padding,
            blacklist_account_data(destination_entry) + destination_padding,
        ) == Ok::<(), ExecuteError>(()),
{
    pause_state_reads_back(PauseState { is_paused: false, bump: pause_bump });
    blacklist_account_reads_back_with_padding(source_entry, source_padding);
    blacklist_account_reads_back_with_padding(destination_entry, destination_padding);
    assert((blacklist_account_data(source_entry) + source_padding).len() > 0);
    assert((blacklist_account_data(destination_entry) + destination_padding).len() > 0);
}

/// Whether `step` initializes an extension of the mint (and not the mint or
/// its metadata).
pub open spec fn is_extension_step(step: MintSetupStep) -> bool {
    !(step is InitializeMint2) && !(step is TokenMetadataInitialize)
}

/// The mint is set up in the order Token-2022 requires: every extension
/// first, then the mint itself with `admin` as mint and freeze authority,
/// then the metadata, which the metadata pointer points at the mint itself.
pub proof fn mint_is_initialized_after_its_extensions(
    admin: Pubkey,
    mint: Pubkey,
    preset: StablecoinPreset,
    name: String,
    symbol: String,
    uri: String,
    decimals: u8,
)
    ensures
        ({
            let steps = mint_setup_steps(admin, mint, preset, name, symbol, uri, decimals);
            &&& steps.len() >= 3
            &&& steps[0] == MintSetupStep::MetadataPointerInitialize {
                authority: Some(admin),
                metadata_address: Some(mint),
            }
            &&& forall|i: int| 0 <= i < steps.len() - 2 ==> is_extension_step(#[trigger] steps[i])
            &&& steps[steps.len() - 2] == MintSetupStep::InitializeMint2 {
                decimals,
                mint_authority: admin,
                freeze_authority: Some(admin),
            }
            &&& steps.last() == MintSetupStep::TokenMetadataInitialize { name, symbol, uri }
        }),
{
}

/// A compliant (`SSS2`) mint, and only such a mint, gets the permanent
/// delegate `admin`, the transfer hook and frozen new accounts.
pub proof fn compliance_extensions_follow_the_preset(
    admin: Pubkey,
    mint: Pubkey,
    preset: StablecoinPreset,
    name: String,
    symbol: String,
    uri: String,
    decimals: u8,
)
    ensures
        ({
            let steps = mint_setup_steps(admin, mint, preset, name, symbol, uri, decimals);
            &&& (preset == StablecoinPreset::SSS2) == steps.contains(
                MintSetupStep::PermanentDelegateInitialize { delegate: admin },
            )
            &&& (preset == StablecoinPreset::SSS2) == steps.contains(
                MintSetupStep::TransferHookInitialize {
                    authority: Some(admin),
                    program_id: Some(transfer_hook_program()),
                },
            )
            &&& (preset == StablecoinPreset::SSS2) == steps.contains(
                MintSetupStep::DefaultAccountStateInitialize { state: AccountState::Frozen },
            )
        }),
{
    let steps = mint_setup_steps(admin, mint, preset, name, symbol, uri, decimals);
    if preset == StablecoinPreset::SSS2 {
        assert(steps[1] == MintSetupStep::PermanentDelegateInitialize { delegate: admin });
        assert(steps[2] == MintSetupStep::TransferHookInitialize {
            authority: Some(admin),
            program_id: Some(transfer_hook_program()),
        });
        assert(steps[3] == MintSetupStep::DefaultAccountStateInitialize {
            state: AccountState::Frozen,
        });
    }
}

/// The master role that the creator receives grants no other duty: to
/// mint, pause or manage the blacklist, the creator must first grant itself
/// the matching role.
pub proof fn master_role_is_not_an_operating_role(role_account: RoleAccount)
    requires
        role_account.role_type@ == MASTER@,
    ensures
        role_account.role_type@ != MINTER@,
        role_account.role_type@ != PAUSER@,
        role_account.role_type@ != BLACKLISTER@,
{
    reveal_strlit("master");
    reveal_strlit("minter");
    reveal_strlit("pauser");
    reveal_strlit("blacklister");
    assert(MASTER@[1] != MINTER@[1]);
    assert(MASTER@[0] != PAUSER@[0]);
    assert(MASTER@.len() != BLACKLISTER@.len());
}

/// A store of role accounts, each under the seeds of its address: the
/// role's name and the wallet.
pub open spec fn roles_at_their_seeds(store: Map<(Seq<char>, Seq<u8>), RoleAccount>) -> bool {
    forall|k: (Seq<char>, Seq<u8>)| #[trigger]
        store.contains_key(k) ==> store[k].role_type@ == k.0 && store[k].wallet@ == k.1
}

/// Creating a stablecoin stores the creator's master role under the seeds
/// "master" and the creator's wallet, as the role it holds.
pub proof fn creation_stores_master_role_at_its_seeds(
    store: Map<(Seq<char>, Seq<u8>), RoleAccount>,
    admin: Pubkey,
    admin_role: RoleAccount,
)
    requires
        roles_at_their_seeds(store),
        admin_role.wallet == admin,
        admin_role.role_type@ == MASTER@,
    ensures
        roles_at_their_seeds(store.insert((MASTER@, admin@), admin_role)),
{
}

/// Granting a role stores it under the seeds of its own name and wallet, so
/// every stored role account keeps holding the role that its address names.
pub proof fn granting_keeps_roles_at_their_seeds(
    store: Map<(Seq<char>, Seq<u8>), RoleAccount>,
    role_type: String,
    wallet: Pubkey,
    bump: u8,
)
    requires
        roles_at_their_seeds(store),
    ensures
        roles_at_their_seeds(
            store.insert((role_type@, wallet@), RoleAccount { wallet, role_type, bump }),
        ),
{
}

/// The role account found under the seeds of a role's name and a wallet
/// holds that role and belongs to that wallet, so the role checks of the
/// mint, pause and blacklist instructions agree with the addresses of the
/// role accounts they are given.
pub proof fn role_under_its_seeds_holds_that_role(
    store: Map<(Seq<char>, Seq<u8>), RoleAccount>,
    role_type: Seq<char>,
    wallet: Pubkey,
)
    requires
        roles_at_their_seeds(store),
        store.contains_key((role_type, wallet@)),
    ensures
        store[(role_type, wallet@)].role_type@ == role_type,
        store[(role_type, wallet@)].wallet == wallet,
{
    assert(store[(role_type, wallet@)].wallet.bytes =~= wallet.bytes);
}

} // verus!
