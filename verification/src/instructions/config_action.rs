use vstd::prelude::*;
use crate::errors::AmmError;
use crate::pubkey::Pubkey;
use crate::state::Config;

verus! {

/// The accounts of an instruction that changes a pool's settings: the signer
/// and the pool's config.
#[derive(Debug, Clone, Copy)]
pub struct ConfigAction {
    /// The signer.
    pub authority: Pubkey,
    pub config: Config,
}

impl Config {
    /// The config with another authority.
    pub open spec fn with_authority(self, authority: Pubkey) -> Config {
        Config { authority, ..self }
    }

    /// The config with another fee.
    pub open spec fn with_fee(self, fee: u16) -> Config {
        Config { fee, ..self }
    }

    /// The config with its lock flipped.
    pub open spec fn with_lock_toggled(self) -> Config {
        Config { locked: !self.locked, ..self }
    }
}

/// Whether `signer` may change a pool whose authority is `authority`.
pub open spec fn spec_check_authority(signer: Pubkey, authority: Pubkey) -> Result<(), AmmError> {
    if signer == authority {
        Ok(())
    } else {
        Err(AmmError::InvalidAuthority)
    }
}

/// The outcome of setting the fee to `fee`, and the config after it.
pub open spec fn spec_update_fee(config: Config, fee: u16) -> (Result<(), AmmError>, Config) {
    if fee <= 10_000 {
        (Ok(()), config.with_fee(fee))
    } else {
        (Err(AmmError::InvalidFee), config)
    }
}

impl ConfigAction {
    pub fn check_authority(&self) -> (r: Result<(), AmmError>)
        ensures
            r == spec_check_authority(self.authority, self.config.authority),
    {
        if self.authority.key_eq(&self.config.authority) {
            Ok(())
        } else {
            Err(AmmError::InvalidAuthority)
        }
    }

    pub fn update_authority(&mut self, authority: Pubkey) -> (r: Result<(), AmmError>)
        ensures
            r == Ok::<(), AmmError>(()),
            final(self).config == old(self).config.with_authority(authority),
            final(self).authority == old(self).authority,
    {
        // Update the authority
        self.config.authority = authority;
        Ok(())
    }

    pub fn update_fee(&mut self, fee: u16) -> (r: Result<(), AmmError>)
        ensures
            (r, final(self).config) == spec_update_fee(old(self).config, fee),
            final(self).authority == old(self).authority,
    {
        // Check if the fee is valid
        if fee > 10_000 {
            return Err(AmmError::InvalidFee);
        }
        // Update the fee
        self.config.fee = fee;
        Ok(())
    }

    pub fn update_lock(&mut self) -> (r: Result<(), AmmError>)
        ensures
            r == Ok::<(), AmmError>(()),
            final(self).config == old(self).config.with_lock_toggled(),
            final(self).config.locked == !old(self).config.locked,
            final(self).authority == old(self).authority,
    {
        // Update the lock
        self.config.locked = !self.config.locked;
        Ok(())
    }

    pub fn remove_authority(&mut self) -> (r: Result<(), AmmError>)
        ensures
            r == Ok::<(), AmmError>(()),
            final(self).config == old(self).config.with_authority(final(self).config.authority),
            final(self).config.authority.is_default(),
            final(self).authority == old(self).authority,
    {
        // Remove the authority
        self.config.authority = Pubkey::default();
        Ok(())
    }
}

} // verus!
