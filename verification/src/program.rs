//! The instructions that change a pool's settings: each first checks that the
//! signer is the pool's authority, then applies its change.
use vstd::prelude::*;
use crate::errors::AmmError;
use crate::pubkey::Pubkey;
use crate::state::Config;
use crate::instructions::config_action::{ConfigAction, spec_check_authority, spec_update_fee};

verus! {

/// The outcome of an authority-gated change of `config` by `signer`, where
/// `change` is the outcome and the config that the change alone would give.
pub open spec fn spec_gated(signer: Pubkey, config: Config, change: (Result<(), AmmError>, Config)) -> (
    Result<(), AmmError>,
    Config,
) {
    match spec_check_authority(signer, config.authority) {
        Ok(()) => change,
        Err(e) => (Err(e), config),
    }
}

pub fn update_authority(accounts: &mut ConfigAction, authority: Pubkey) -> (r: Result<(), AmmError>)
    ensures
        r is Ok <==> old(accounts).authority == old(accounts).config.authority,
        r is Ok ==> final(accounts).config.authority == authority,
        r is Err ==> final(accounts).config == old(accounts).config,
        (r, final(accounts).config) == spec_gated(
            old(accounts).authority,
            old(accounts).config,
            (Ok(()), old(accounts).config.with_authority(authority)),
        ),
        final(accounts).authority == old(accounts).authority,
{
    accounts.check_authority()?;
    accounts.update_authority(authority)?;
    Ok(())
}

pub fn update_fee(accounts: &mut ConfigAction, fee: u16) -> (r: Result<(), AmmError>)
    ensures
        r is Ok <==> old(accounts).authority == old(accounts).config.authority && fee <= 10_000,
        r is Ok ==> final(accounts).config.fee == fee && final(accounts).config.locked == old(
            accounts,
        ).config.locked,
        r is Err ==> final(accounts).config == old(accounts).config,
        (r, final(accounts).config) == spec_gated(
            old(accounts).authority,
            old(accounts).config,
            spec_update_fee(old(accounts).config, fee),
        ),
        final(accounts).authority == old(accounts).authority,
{
    accounts.check_authority()?;
    accounts.update_fee(fee)?;
    Ok(())
}

pub fn update_lock(accounts: &mut ConfigAction) -> (r: Result<(), AmmError>)
    ensures
        r is Ok <==> old(accounts).authority == old(accounts).config.authority,
        r is Ok ==> final(accounts).config.locked == !old(accounts).config.locked
            && final(accounts).config.fee == old(accounts).config.fee,
        r is Err ==> final(accounts).config == old(accounts).config,
        (r, final(accounts).config) == spec_gated(
            old(accounts).authority,
            old(accounts).config,
            (Ok(()), old(accounts).config.with_lock_toggled()),
        ),
        final(accounts).authority == old(accounts).authority,
{
    accounts.check_authority()?;
    accounts.update_lock()?;
    Ok(())
}

pub fn remove_authority(accounts: &mut ConfigAction) -> (r: Result<(), AmmError>)
    ensures
        r == spec_check_authority(old(accounts).authority, old(accounts).config.authority),
        r is Ok ==> final(accounts).config == old(accounts).config.with_authority(
            final(accounts).config.authority,
        ) && final(accounts).config.authority.is_default(),
        r is Err ==> final(accounts).config == old(accounts).config,
        final(accounts).authority == old(accounts).authority,
{
    accounts.check_authority()?;
    accounts.remove_authority()?;
    Ok(())
}

/// Flipping the lock twice leaves the config as it was, and one flip
/// reverses the lock and keeps every other setting.
pub proof fn lemma_lock_toggle_is_involution(config: Config)
    ensures
        config.with_lock_toggled().with_lock_toggled() == config,
        config.with_lock_toggled().locked == !config.locked,
        config.with_lock_toggled().fee == config.fee,
        config.with_lock_toggled().authority == config.authority,
{
}

/// Every settings change keeps a valid config valid: the fee stays at most 100%.
pub proof fn lemma_changes_preserve_validity(
    signer: Pubkey,
    config: Config,
    authority: Pubkey,
    fee: u16,
)
    requires
        config.valid(),
    ensures
        spec_gated(signer, config, (Ok(()), config.with_authority(authority))).1.valid(),
        spec_gated(signer, config, spec_update_fee(config, fee)).1.valid(),
        spec_gated(signer, config, (Ok(()), config.with_lock_toggled())).1.valid(),
{
}

/// After the authority is removed, only the all-zero address, which nobody
/// can sign for, passes the authority check.
pub proof fn lemma_removed_authority_locks_out(config: Config, signer: Pubkey)
    requires
        config.authority.is_default(),
    ensures
        spec_check_authority(signer, config.authority) is Ok <==> signer.is_default(),
{
    broadcast use vstd::array::group_array_axioms;

    if signer.is_default() {
        assert(signer.bytes =~= config.authority.bytes);
    }
}

/// The authority can hand the pool over: afterwards the new authority passes
/// the authority check and the previous one, if different, no longer does.
pub proof fn lemma_update_authority_hands_over(config: Config, new_authority: Pubkey)
    ensures
        spec_gated(config.authority, config, (Ok(()), config.with_authority(new_authority))).0 is Ok,
        spec_check_authority(
            new_authority,
            spec_gated(config.authority, config, (Ok(()), config.with_authority(new_authority))).1.authority,
        ) is Ok,
        config.authority != new_authority ==> spec_check_authority(
            config.authority,
            spec_gated(config.authority, config, (Ok(()), config.with_authority(new_authority))).1.authority,
        ) is Err,
{
}

/// A signer other than the authority changes nothing: each change is refused
/// as an invalid authority and leaves the config as it is.
pub proof fn lemma_others_cannot_change(
    signer: Pubkey,
    config: Config,
    change: (Result<(), AmmError>, Config),
)
    requires
        signer != config.authority,
    ensures
        spec_gated(signer, config, change) == (Err::<(), AmmError>(AmmError::InvalidAuthority), config),
{
}

} // verus!
