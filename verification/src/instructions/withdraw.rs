use vstd::prelude::*;
use crate::constants::{VIRTUAL_ASSETS, VIRTUAL_SHARES};
use crate::errors::AmmError;
use crate::state::Config;
use crate::token::{
    AccountRole, BurnPlan, MintState, TokenAccountState, TransferPlan, burn_lp_plan,
    config_signer_seeds, spec_config_signer_seeds, spec_token_program_for, token_program_for,
};

verus! {

/// The accounts of a withdrawal, as far as the pool reads them.
#[derive(Debug, Clone, Copy)]
pub struct Withdraw {
    pub mint_x: MintState,
    pub mint_y: MintState,
    pub mint_lp: MintState,
    pub vault_x: TokenAccountState,
    pub vault_y: TokenAccountState,
    pub config: Config,
    /// The instruction was handed the Token-2022 program account.
    pub token_2022_program_present: bool,
}

/// What a withdrawal moves: both tokens out of the vaults and the LP tokens burnt.
#[derive(Debug)]
pub struct WithdrawPlan {
    pub transfer_x: TransferPlan,
    pub transfer_y: TransferPlan,
    pub burn_lp: BurnPlan,
}

impl Withdraw {
    /// The refusals of a withdrawal, in the order in which they are checked.
    pub open spec fn spec_checks(self, amount: u64, min_x: u64, min_y: u64, expiration: i64, now: i64) -> Result<
        (),
        AmmError,
    > {
        if self.config.locked {
            Err(AmmError::PoolLocked)
        } else if expiration <= now {
            Err(AmmError::OfferExpired)
        } else if amount == 0 || min_x == 0 || min_y == 0 {
            Err(AmmError::InvalidAmount)
        } else {
            Ok(())
        }
    }

    /// The reserves and the supply with which the curve prices a withdrawal:
    /// each vault plus the virtual assets and the supply plus the virtual
    /// shares, or `Overflow` when one of them does not fit in 64 bits.
    pub open spec fn spec_adjusted_reserves(self) -> Result<(u64, u64, u64), AmmError> {
        let x = (self.vault_x.amount as int) + (VIRTUAL_ASSETS as int);
        let y = (self.vault_y.amount as int) + (VIRTUAL_ASSETS as int);
        let supply = (self.mint_lp.supply as int) + (VIRTUAL_SHARES as int);
        if x > u64::MAX || y > u64::MAX || supply > u64::MAX {
            Err(AmmError::Overflow)
        } else {
            Ok((x as u64, y as u64, supply as u64))
        }
    }

    /// The outcome of the whole withdrawal, given what the curve answered for
    /// the adjusted reserves: the amounts of X and Y it moves.
    pub open spec fn spec_withdraw(
        self,
        amount: u64,
        min_x: u64,
        min_y: u64,
        expiration: i64,
        now: i64,
        curve_amounts: Result<(u64, u64), AmmError>,
    ) -> Result<(u64, u64), AmmError> {
        match self.spec_checks(amount, min_x, min_y, expiration, now) {
            Err(e) => Err(e),
            Ok(()) => match curve_amounts {
                Err(e) => Err(e),
                Ok((x, y)) => if x < min_x || y < min_y {
                    Err(AmmError::SlippageExceeded)
                } else {
                    match spec_token_program_for(
                        self.mint_x.owned_by_token_2022,
                        self.token_2022_program_present,
                    ) {
                        Err(e) => Err(e),
                        Ok(_) => match spec_token_program_for(
                            self.mint_y.owned_by_token_2022,
                            self.token_2022_program_present,
                        ) {
                            Err(e) => Err(e),
                            Ok(_) => Ok((x, y)),
                        },
                    }
                },
            },
        }
    }

    /// The seeds with which the pool's config signs.
    pub open spec fn spec_signer_seeds(self) -> Seq<Seq<u8>> {
        spec_config_signer_seeds(self.config.seed, self.mint_x.key, self.mint_y.key, self.config.bump)
    }

    /// Validates a withdrawal at time `now`.
    pub fn checks(&self, amount: u64, min_x: u64, min_y: u64, expiration: i64, now: i64) -> (r: Result<
        (),
        AmmError,
    >)
        ensures
            r == self.spec_checks(amount, min_x, min_y, expiration, now),
    {
        // Check the AMM is not locked
        if self.config.locked {
            return Err(AmmError::PoolLocked);
        }
        // Check the offer hasn't expired
        if !(expiration > now) {
            return Err(AmmError::OfferExpired);
        }
        // Check all amounts have a valid number
        if !(amount > 0) || !(min_x > 0) || !(min_y > 0) {
            return Err(AmmError::InvalidAmount);
        }
        Ok(())
    }

    /// The reserves and the supply that the curve prices the withdrawal with.
    pub fn adjusted_reserves(&self) -> (r: Result<(u64, u64, u64), AmmError>)
        ensures
            r == self.spec_adjusted_reserves(),
            // The vaults gain the virtual assets and the supply the virtual
            // shares; refused only when one of them leaves 64 bits.
            r matches Ok((x, y, s)) ==> x == self.vault_x.amount + VIRTUAL_ASSETS && y
                == self.vault_y.amount + VIRTUAL_ASSETS && s == self.mint_lp.supply + VIRTUAL_SHARES,
            r is Err <==> self.vault_x.amount + VIRTUAL_ASSETS > u64::MAX || self.vault_y.amount
                + VIRTUAL_ASSETS > u64::MAX || self.mint_lp.supply + VIRTUAL_SHARES > u64::MAX,
    {
        let adjusted_supply = (self.mint_lp.supply as u128) + (VIRTUAL_SHARES as u128);
        let adjusted_vault_x = (self.vault_x.amount as u128) + (VIRTUAL_ASSETS as u128);
        let adjusted_vault_y = (self.vault_y.amount as u128) + (VIRTUAL_ASSETS as u128);
        if adjusted_vault_x > u64::MAX as u128 || adjusted_vault_y > u64::MAX as u128
            || adjusted_supply > u64::MAX as u128 {
            return Err(AmmError::Overflow);
        }
        Ok((adjusted_vault_x as u64, adjusted_vault_y as u64, adjusted_supply as u64))
    }

    /// The transfer of `amount` of token X (when `is_x`) or Y from the pool to
    /// the user, signed by the pool's config.
    pub fn withdraw_tokens(&self, is_x: bool, amount: u64) -> (r: Result<TransferPlan, AmmError>)
        ensures
            ({
                let (mint, from, to) = if is_x {
                    (self.mint_x, AccountRole::VaultX, AccountRole::UserX)
                } else {
                    (self.mint_y, AccountRole::VaultY, AccountRole::UserY)
                };
                match spec_token_program_for(mint.owned_by_token_2022, self.token_2022_program_present) {
                    Err(e) => r == Err::<TransferPlan, AmmError>(e),
                    Ok(program) => r matches Ok(plan) && plan.moves(
                        program,
                        from,
                        to,
                        AccountRole::Config,
                        amount,
                        self.spec_signer_seeds(),
                    ),
                }
            }),
    {
        let (mint, from, to) = if is_x {
            (&self.mint_x, AccountRole::VaultX, AccountRole::UserX)
        } else {
            (&self.mint_y, AccountRole::VaultY, AccountRole::UserY)
        };
        let signer_seeds = config_signer_seeds(
            self.config.seed,
            &self.mint_x.key,
            &self.mint_y.key,
            self.config.bump,
        );
        let program = token_program_for(mint.owned_by_token_2022, self.token_2022_program_present)?;
        Ok(TransferPlan { program, from, to, authority: AccountRole::Config, amount, signer_seeds })
    }

    /// The burn of the `amount` LP tokens that the user hands back.
    pub fn burn_lp_tokens(&self, amount: u64) -> (r: BurnPlan)
        ensures
            r.burns_lp(amount),
    {
        burn_lp_plan(amount)
    }
}

/// Withdraws `amount` LP tokens' worth of both tokens at time `now`, given
/// what the constant-product curve answered for the adjusted reserves:
/// validates, checks the slippage bounds, and yields the token movements.
pub fn withdraw(
    accounts: &Withdraw,
    amount: u64,
    min_x: u64,
    min_y: u64,
    expiration: i64,
    now: i64,
    curve_amounts: Result<(u64, u64), AmmError>,
) -> (r: Result<WithdrawPlan, AmmError>)
    ensures
        // A successful withdrawal pays the curve's amounts, at least both
        // minima, and burns the LP tokens handed back.
        r matches Ok(plan) ==> {
            &&& curve_amounts == Ok::<(u64, u64), AmmError>(
                (plan.transfer_x.amount, plan.transfer_y.amount),
            )
            &&& plan.transfer_x.amount >= min_x
            &&& plan.transfer_y.amount >= min_y
            &&& plan.burn_lp.amount == amount
        },
        // Below either minimum, an otherwise valid withdrawal is refused.
        accounts.spec_checks(amount, min_x, min_y, expiration, now) is Ok && (
        curve_amounts matches Ok((x, y)) && (x < min_x || y < min_y)) ==> r matches Err(
            AmmError::SlippageExceeded,
        ),
        match accounts.spec_withdraw(amount, min_x, min_y, expiration, now, curve_amounts) {
            Err(e) => r matches Err(e2) && e2 == e,
            Ok((x, y)) => r matches Ok(plan) && {
                &&& plan.transfer_x.moves(
                    spec_token_program_for(
                        accounts.mint_x.owned_by_token_2022,
                        accounts.token_2022_program_present,
                    )->Ok_0,
                    AccountRole::VaultX,
                    AccountRole::UserX,
                    AccountRole::Config,
                    x,
                    accounts.spec_signer_seeds(),
                )
                &&& plan.transfer_y.moves(
                    spec_token_program_for(
                        accounts.mint_y.owned_by_token_2022,
                        accounts.token_2022_program_present,
                    )->Ok_0,
                    AccountRole::VaultY,
                    AccountRole::UserY,
                    AccountRole::Config,
                    y,
                    accounts.spec_signer_seeds(),
                )
                &&& plan.burn_lp.burns_lp(amount)
            },
        },
{
    accounts.checks(amount, min_x, min_y, expiration, now)?;
    let (x, y) = curve_amounts?;
    if !(x >= min_x) || !(y >= min_y) {
        return Err(AmmError::SlippageExceeded);
    }
    let transfer_x = accounts.withdraw_tokens(true, x)?;
    let transfer_y = accounts.withdraw_tokens(false, y)?;
    let burn_lp = accounts.burn_lp_tokens(amount);
    Ok(WithdrawPlan { transfer_x, transfer_y, burn_lp })
}

/// A withdrawal succeeds only with the curve's amounts and only when they
/// reach both of the caller's minima; an otherwise valid withdrawal that
/// falls short of either minimum is refused as slippage.
pub proof fn lemma_withdraw_respects_minima(
    accounts: Withdraw,
    amount: u64,
    min_x: u64,
    min_y: u64,
    expiration: i64,
    now: i64,
    curve_amounts: Result<(u64, u64), AmmError>,
)
    ensures
        accounts.spec_withdraw(amount, min_x, min_y, expiration, now, curve_amounts) matches Ok(
            (x, y),
        ) ==> x >= min_x && y >= min_y && curve_amounts == Ok::<(u64, u64), AmmError>((x, y)),
        accounts.spec_checks(amount, min_x, min_y, expiration, now) is Ok && (
        curve_amounts matches Ok((x, y)) && (x < min_x || y < min_y)) ==> accounts.spec_withdraw(
            amount,
            min_x,
            min_y,
            expiration,
            now,
            curve_amounts,
        ) == Err::<(u64, u64), AmmError>(AmmError::SlippageExceeded),
{
}

} // verus!
