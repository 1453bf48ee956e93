use vstd::prelude::*;
use crate::errors::AmmError;
use crate::pubkey::Pubkey;

verus! {

/// The settings of a pool whose authority can be given up for good: with no
/// authority left, nothing in them can change any more.
#[derive(Debug, Clone, Copy)]
pub struct GovernedConfig {
    pub seed: u64,
    pub authority: Option<Pubkey>,
    /// Token X Mint
    pub mint_x: Pubkey,
    /// Token Y Mint
    pub mint_y: Pubkey,
    /// Swap fee in basis points
    pub fee: u16,
    pub locked: bool,
    pub lp_bump: u8,
    pub bump: u8,
}

/// The accounts of an instruction that changes such a pool's settings: the
/// signer and the pool's config.
#[derive(Debug, Clone, Copy)]
pub struct UpdateConfig {
    /// The signer.
    pub authority: Pubkey,
    pub config: GovernedConfig,
}

/// Whether `signer` may change a pool whose authority is `authority`: only its
/// authority may, and nobody once it has none.
pub open spec fn spec_check_governor(signer: Pubkey, authority: Option<Pubkey>) -> Result<
    (),
    AmmError,
> {
    match authority {
        Some(current) => if current == signer {
            Ok(())
        } else {
            Err(AmmError::InvalidAuthority)
        },
        None => Err(AmmError::AmmIsImmutable),
    }
}

impl UpdateConfig {
    /// The outcome of handing the authority to `authority`, and the config after it.
    pub open spec fn spec_update_authority(self, authority: Pubkey) -> (
        Result<(), AmmError>,
        GovernedConfig,
    ) {
        match spec_check_governor(self.authority, self.config.authority) {
            Ok(()) => (Ok(()), GovernedConfig { authority: Some(authority), ..self.config }),
            Err(e) => (Err(e), self.config),
        }
    }

    /// The outcome of setting the fee to `fee`, and the config after it.
    pub open spec fn spec_update_fee(self, fee: u16) -> (Result<(), AmmError>, GovernedConfig) {
        if fee > 10_000 {
            (Err(AmmError::InvalidFee), self.config)
        } else {
            match spec_check_governor(self.authority, self.config.authority) {
                Ok(()) => (Ok(()), GovernedConfig { fee, ..self.config }),
                Err(e) => (Err(e), self.config),
            }
        }
    }

    /// The outcome of flipping the lock, and the config after it.
    pub open spec fn spec_update_lock(self) -> (Result<(), AmmError>, GovernedConfig) {
        match spec_check_governor(self.authority, self.config.authority) {
            Ok(()) => (Ok(()), GovernedConfig { locked: !self.config.locked, ..self.config }),
            Err(e) => (Err(e), self.config),
        }
    }

    /// The outcome of giving up the authority, and the config after it.
    pub open spec fn spec_remove_authority(self) -> (Result<(), AmmError>, GovernedConfig) {
        match spec_check_governor(self.authority, self.config.authority) {
            Ok(()) => (Ok(()), GovernedConfig { authority: None, ..self.config }),
            Err(e) => (Err(e), self.config),
        }
    }

    /// Whether the signer may change the pool.
    fn check_governor(&self) -> (r: Result<(), AmmError>)
        ensures
            r == spec_check_governor(self.authority, self.config.authority),
    {
        // Check if the authority is the same as the current authority
        match &self.config.authority {
            Some(current_authority) => {
                if current_authority.key_eq(&self.authority) {
                    Ok(())
                } else {
                    Err(AmmError::InvalidAuthority)
                }
            },
            None => Err(AmmError::AmmIsImmutable),
        }
    }

    pub fn update_authority(&mut self, authority: Pubkey) -> (r: Result<(), AmmError>)
        ensures
            r is Ok <==> old(self).config.authority == Some(old(self).authority),
            r is Ok ==> final(self).config.authority == Some(authority) && final(self).config.fee
                == old(self).config.fee && final(self).config.locked == old(self).config.locked,
            r is Err ==> final(self).config == old(self).config,
            (r, final(self).config) == old(self).spec_update_authority(authority),
            final(self).authority == old(self).authority,
    {
        match self.check_governor() {
            Ok(()) => {},
            Err(e) => return Err(e),
        }
        // Update the authority
        self.config.authority = Some(authority);
        Ok(())
    }

    pub fn update_fee(&mut self, fee: u16) -> (r: Result<(), AmmError>)
        ensures
            r is Ok <==> fee <= 10_000 && old(self).config.authority == Some(old(self).authority),
            r is Ok ==> final(self).config.fee == fee && final(self).config.locked == old(
                self,
            ).config.locked && final(self).config.authority == old(self).config.authority,
            r is Err ==> final(self).config == old(self).config,
            (r, final(self).config) == old(self).spec_update_fee(fee),
            final(self).authority == old(self).authority,
    {
        // Check if the fee is valid
        if fee > 10_000 {
            return Err(AmmError::InvalidFee);
        }
        match self.check_governor() {
            Ok(()) => {},
            Err(e) => return Err(e),
        }
        // Update the fee
        self.config.fee = fee;
        Ok(())
    }

    pub fn update_lock(&mut self) -> (r: Result<(), AmmError>)
        ensures
            // Only the authority may flip the lock, and it always can.
            r is Ok <==> old(self).config.authority == Some(old(self).authority),
            // A successful call flips the lock and changes nothing else.
            r is Ok ==> final(self).config.locked == !old(self).config.locked
                && final(self).config.fee == old(self).config.fee && final(self).config.authority
                == old(self).config.authority,
            r is Err ==> final(self).config == old(self).config,
            (r, final(self).config) == old(self).spec_update_lock(),
            final(self).authority == old(self).authority,
    {
        match self.check_governor() {
            Ok(()) => {},
            Err(e) => return Err(e),
        }
        // Update the lock
        self.config.locked = !self.config.locked;
        Ok(())
    }

    pub fn remove_authority(&mut self) -> (r: Result<(), AmmError>)
        ensures
            r is Ok <==> old(self).config.authority == Some(old(self).authority),
            r is Ok ==> final(self).config.authority is None && final(self).config.fee == old(
                self,
            ).config.fee && final(self).config.locked == old(self).config.locked,
            r is Err ==> final(self).config == old(self).config,
            (r, final(self).config) == old(self).spec_remove_authority(),
            final(self).authority == old(self).authority,
    {
        match self.check_governor() {
            Ok(()) => {},
            Err(e) => return Err(e),
        }
        // Remove the authority
        self.config.authority = None;
        Ok(())
    }
}

/// Flipping the lock: the authority can always do it, a successful flip
/// reverses the lock and leaves every other setting as it was, and flipping
/// twice restores the config.
pub proof fn lemma_update_lock_flips(accounts: UpdateConfig)
    ensures
        accounts.spec_update_lock().0 is Ok <==> accounts.config.authority == Some(
            accounts.authority,
        ),
        accounts.spec_update_lock().0 is Ok ==> {
            let after = accounts.spec_update_lock().1;
            &&& after.locked == !accounts.config.locked
            &&& after.fee == accounts.config.fee
            &&& after.authority == accounts.config.authority
            &&& after.seed == accounts.config.seed
            &&& after.mint_x == accounts.config.mint_x
            &&& after.mint_y == accounts.config.mint_y
            &&& after.lp_bump == accounts.config.lp_bump
            &&& after.bump == accounts.config.bump
        },
        accounts.spec_update_lock().0 is Ok ==> {
            let again = UpdateConfig {
                authority: accounts.authority,
                config: accounts.spec_update_lock().1,
            };
            again.spec_update_lock().0 is Ok && again.spec_update_lock().1 == accounts.config
        },
        accounts.spec_update_lock().0 is Err ==> accounts.spec_update_lock().1 == accounts.config,
{
}

/// The settings changes do what they are named for: the authority may always
/// make them (a fee up to 100%), a set fee or authority is the one asked for,
/// a removed authority is gone, and nothing else changes.
pub proof fn lemma_update_config_effects(accounts: UpdateConfig, authority: Pubkey, fee: u16)
    ensures
        accounts.spec_update_fee(fee).0 is Ok <==> fee <= 10_000 && accounts.config.authority
            == Some(accounts.authority),
        accounts.spec_update_fee(fee).0 is Ok ==> accounts.spec_update_fee(fee).1.fee == fee
            && accounts.spec_update_fee(fee).1.locked == accounts.config.locked
            && accounts.spec_update_fee(fee).1.authority == accounts.config.authority,
        accounts.spec_update_authority(authority).0 is Ok <==> accounts.config.authority == Some(
            accounts.authority,
        ),
        accounts.spec_update_authority(authority).0 is Ok ==> accounts.spec_update_authority(
            authority,
        ).1.authority == Some(authority) && accounts.spec_update_authority(authority).1.fee
            == accounts.config.fee && accounts.spec_update_authority(authority).1.locked
            == accounts.config.locked,
        accounts.spec_remove_authority().0 is Ok <==> accounts.config.authority == Some(
            accounts.authority,
        ),
        accounts.spec_remove_authority().0 is Ok ==> accounts.spec_remove_authority().1.authority
            is None && accounts.spec_remove_authority().1.fee == accounts.config.fee
            && accounts.spec_remove_authority().1.locked == accounts.config.locked,
{
}

/// Giving up the authority is final: afterwards every change, by any signer,
/// is refused (a fee above 100% as an invalid fee, everything else as an
/// immutable pool) and leaves the config as it is.
pub proof fn lemma_removed_authority_is_permanent(
    accounts: UpdateConfig,
    signer: Pubkey,
    authority: Pubkey,
    fee: u16,
)
    requires
        accounts.spec_remove_authority().0 is Ok,
    ensures
        ({
            let after = UpdateConfig { authority: signer, config: accounts.spec_remove_authority().1 };
            &&& after.spec_update_authority(authority) == (
                Err::<(), AmmError>(AmmError::AmmIsImmutable),
                after.config,
            )
            &&& after.spec_update_lock() == (Err::<(), AmmError>(AmmError::AmmIsImmutable), after.config)
            &&& after.spec_remove_authority() == (
                Err::<(), AmmError>(AmmError::AmmIsImmutable),
                after.config,
            )
            &&& after.spec_update_fee(fee).0 is Err
            &&& after.spec_update_fee(fee).1 == after.config
        }),
{
}

/// The current authority can always hand the pool over, and the new authority
/// can then change it while the previous one cannot.
pub proof fn lemma_update_authority_hands_over(accounts: UpdateConfig, new_authority: Pubkey)
    requires
        accounts.config.authority == Some(accounts.authority),
    ensures
        accounts.spec_update_authority(new_authority).0 is Ok,
        spec_check_governor(new_authority, accounts.spec_update_authority(new_authority).1.authority)
            is Ok,
        accounts.authority != new_authority ==> spec_check_governor(
            accounts.authority,
            accounts.spec_update_authority(new_authority).1.authority,
        ) == Err::<(), AmmError>(AmmError::InvalidAuthority),
{
}

} // verus!
