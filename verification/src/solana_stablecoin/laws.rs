//! Properties that tie the instructions of the bit-mask program together.
use crate::error::StablecoinError;
use crate::pubkey::Pubkey;
use crate::solana_stablecoin::instructions::blacklist::{delisted, listed, may_manage_blacklist};
use crate::solana_stablecoin::instructions::burn::may_burn;
use crate::solana_stablecoin::instructions::freeze::may_freeze;
use crate::mint_setup::MintSetupStep;
use crate::solana_stablecoin::instructions::initialize::{initial_config, mint_setup_steps};
use crate::solana_stablecoin::this_program;
use crate::solana_stablecoin::instructions::roles::may_update_roles;
use crate::solana_stablecoin::instructions::seize::may_seize;
use crate::solana_stablecoin::instructions::transfer_hook::{blocks, pauses, transfer_verdict};
use crate::solana_stablecoin::state::roles::{grants, ADMIN, BLACK_LISTER, BURNER, FREEZER, MINTER};
use crate::solana_stablecoin::state::{
    BlacklistAccount,
    PauseState,
    RoleAccount,
    StablecoinConfig,
    StablecoinPreset,
};
use vstd::prelude::*;

verus! {

/// In a newly created configuration the admin, and no one else, may manage
/// the blacklist, freeze and thaw, seize, change roles and burn without a
/// role.
pub proof fn new_config_gives_admin_every_authority(
    admin: Pubkey,
    mint: Pubkey,
    preset: StablecoinPreset,
    bump: u8,
    other: Pubkey,
)
    ensures
        ({
            let config = initial_config(admin, mint, preset, bump);
            &&& may_manage_blacklist(config, admin)
            &&& may_freeze(config, admin)
            &&& may_seize(config, admin)
            &&& may_update_roles(config, admin)
            &&& may_burn(config, admin, None)
            &&& other != admin ==> {
                &&& !may_manage_blacklist(config, other)
                &&& !may_freeze(config, other)
                &&& !may_seize(config, other)
                &&& !may_update_roles(config, other)
                &&& !may_burn(config, other, None)
            }
        }),
{
}

/// Once a user is blacklisted, no transfer from or to an account that user
/// owns goes through: it is refused with `Blacklisted`, or with `Paused`
/// while transfers are paused.
pub proof fn blacklisting_blocks_transfers(
    user: Pubkey,
    bump: u8,
    pause_state: Option<&PauseState>,
    other: Option<&BlacklistAccount>,
)
    ensures
        transfer_verdict(pause_state, Some(&listed(user, bump)), other) is Err,
        transfer_verdict(pause_state, other, Some(&listed(user, bump))) is Err,
        !pauses(pause_state) ==> transfer_verdict(pause_state, Some(&listed(user, bump)), other)
            == Err::<(), StablecoinError>(StablecoinError::Blacklisted),
        !pauses(pause_state) ==> transfer_verdict(pause_state, other, Some(&listed(user, bump)))
            == Err::<(), StablecoinError>(StablecoinError::Blacklisted),
{
}

/// Taking a user off the blacklist lets transfers from and to that user's
/// accounts through again, unless transfers are paused or the other party is
/// blacklisted.
pub proof fn delisting_unblocks_transfers(
    entry: BlacklistAccount,
    pause_state: Option<&PauseState>,
    other: Option<&BlacklistAccount>,
)
    requires
        !pauses(pause_state),
        !blocks(other),
    ensures
        transfer_verdict(pause_state, Some(&delisted(entry)), other) is Ok,
        transfer_verdict(pause_state, other, Some(&delisted(entry))) is Ok,
{
}

/// While transfers are paused every transfer is refused with `Paused`,
/// whoever takes part in it.
pub proof fn pause_refuses_every_transfer(
    pause_state: PauseState,
    source_blacklist: Option<&BlacklistAccount>,
    destination_blacklist: Option<&BlacklistAccount>,
)
    requires
        pause_state.is_paused,
    ensures
        transfer_verdict(Some(&pause_state), source_blacklist, destination_blacklist) == Err::<
            (),
            StablecoinError,
        >(StablecoinError::Paused),
{
}

/// A user whose roles were set to a mask with the `BURNER` bit may burn; one
/// whose mask lacks it may not, unless it is the admin.
pub proof fn burner_bit_decides_burning(
    config: StablecoinConfig,
    user: Pubkey,
    roles: u16,
    bump: u8,
)
    ensures
        grants(roles, BURNER) ==> may_burn(config, user, Some(&RoleAccount { user, roles, bump })),
        !grants(roles, BURNER) && user != config.admin ==> !may_burn(
            config,
            user,
            Some(&RoleAccount { user, roles, bump }),
        ),
{
}

/// A compliant (`SSS2`) mint, and only such a mint, gets the permanent
/// delegate `admin` and the transfer hook into this program; every mint
/// gets the metadata pointer first and is itself initialized last, after its
/// extensions, with 6 decimals and `admin` as mint and freeze authority.
pub proof fn compliance_extensions_follow_the_preset(
    admin: Pubkey,
    mint: Pubkey,
    preset: StablecoinPreset,
)
    ensures
        ({
            let steps = mint_setup_steps(admin, mint, preset);
            &&& (preset == StablecoinPreset::SSS2) == steps.contains(
                MintSetupStep::PermanentDelegateInitialize { delegate: admin },
            )
            &&& (preset == StablecoinPreset::SSS2) == steps.contains(
                MintSetupStep::TransferHookInitialize {
                    authority: Some(admin),
                    program_id: Some(this_program()),
                },
            )
            &&& steps[0] == MintSetupStep::MetadataPointerInitialize {
                authority: Some(admin),
                metadata_address: Some(mint),
            }
            &&& steps.last() == MintSetupStep::InitializeMint2 {
                decimals: 6,
                mint_authority: admin,
                freeze_authority: Some(admin),
            }
        }),
{
    let steps = mint_setup_steps(admin, mint, preset);
    if preset == StablecoinPreset::SSS2 {
        assert(steps[1] == MintSetupStep::PermanentDelegateInitialize { delegate: admin });
        assert(steps[2] == MintSetupStep::TransferHookInitialize {
            authority: Some(admin),
            program_id: Some(this_program()),
        });
    }
}

/// A new configuration records what it was created with: the mint, the
/// preset and the bump, and the admin as the admin and as the pause,
/// blacklist and freeze authority.
pub proof fn new_config_records_its_inputs(
    admin: Pubkey,
    mint: Pubkey,
    preset: StablecoinPreset,
    bump: u8,
)
    ensures
        initial_config(admin, mint, preset, bump).preset == preset,
        initial_config(admin, mint, preset, bump).mint == mint,
        initial_config(admin, mint, preset, bump).bump == bump,
        initial_config(admin, mint, preset, bump).admin == admin,
        initial_config(admin, mint, preset, bump).pause_authority == admin,
        initial_config(admin, mint, preset, bump).blacklist_authority == admin,
        initial_config(admin, mint, preset, bump).freeze_authority == admin,
{
}

/// In every configuration, each duty belongs to exactly the keys the
/// configuration names for it: seizing and changing roles to the admin
/// alone, freezing to the admin and the freeze authority, managing the
/// blacklist to the admin and the blacklist authority, and burning without a
/// role to the admin alone. The pause authority, unless it is also one of
/// those, holds none of them.
pub proof fn duties_belong_to_the_configured_keys(config: StablecoinConfig, key: Pubkey)
    ensures
        may_seize(config, key) <==> key == config.admin,
        may_update_roles(config, key) <==> key == config.admin,
        may_freeze(config, key) <==> key == config.admin || key == config.freeze_authority,
        may_manage_blacklist(config, key) <==> key == config.admin || key
            == config.blacklist_authority,
        may_burn(config, key, None) <==> key == config.admin,
        key == config.pause_authority && key != config.admin && key != config.freeze_authority
            && key != config.blacklist_authority ==> {
            &&& !may_seize(config, key)
            &&& !may_update_roles(config, key)
            &&& !may_freeze(config, key)
            &&& !may_manage_blacklist(config, key)
            &&& !may_burn(config, key, None)
        },
{
}

/// For a burner other than the admin, the role mask alone decides, and only
/// through its `BURNER` bit (bit 2): the burn is allowed exactly when that
/// bit is set, setting the bit in any mask allows it, clearing it in any
/// mask refuses it, and a mask holding every other role but not that one is
/// refused.
pub proof fn burning_needs_the_burner_bit(
    config: StablecoinConfig,
    burner: Pubkey,
    user: Pubkey,
    roles: u16,
    bump: u8,
)
    requires
        burner != config.admin,
    ensures
        may_burn(config, burner, Some(&RoleAccount { user, roles, bump })) <==> (roles & 0x0004u16)
            == 0x0004u16,
        may_burn(config, burner, Some(&RoleAccount { user, roles: roles | BURNER, bump })),
        !may_burn(config, burner, Some(&RoleAccount { user, roles: roles & !BURNER, bump })),
        !may_burn(
            config,
            burner,
            Some(&RoleAccount { user, roles: ADMIN | MINTER | BLACK_LISTER | FREEZER, bump }),
        ),
        !may_burn(config, burner, None),
{
    assert((roles & 0x0004u16 != 0u16) == (roles & 0x0004u16 == 0x0004u16)) by (bit_vector);
    assert((roles | 0x0004u16) & 0x0004u16 != 0u16) by (bit_vector);
    assert((roles & !0x0004u16) & 0x0004u16 == 0u16) by (bit_vector);
    assert((0x0001u16 | 0x0002u16 | 0x0008u16 | 0x0010u16) & 0x0004u16 == 0u16) by (bit_vector);
}

} // verus!
