use vstd::prelude::*;
use crate::errors::AmmError;
use crate::state::Config;
use crate::token::{
    AccountRole, MintState, TokenAccountState, TransferPlan, config_signer_seeds,
    spec_config_signer_seeds, spec_token_program_for, token_program_for,
};

verus! {

/// The side of the pool that a swap pays into.
#[derive(Debug, Clone, Copy, PartialEq, Eq, Structural)]
pub enum LiquidityPair {
    /// The swap pays token X in and takes token Y out.
    X,
    /// The swap pays token Y in and takes token X out.
    Y,
}

/// What the constant-product curve answers for a swap.
#[derive(Debug, Clone, Copy, PartialEq, Eq, Structural)]
pub struct SwapAmounts {
    /// Tokens paid into the pool.
    pub deposit: u64,
    /// Tokens paid out of the pool.
    pub withdraw: u64,
    /// The fee charged on the deposit.
    pub fee: u64,
}

/// The accounts of a swap, as far as the pool reads them.
#[derive(Debug, Clone, Copy)]
pub struct Swap {
    pub mint_from: MintState,
    pub mint_to: MintState,
    pub vault_from: TokenAccountState,
    pub vault_to: TokenAccountState,
    pub config: Config,
    /// The instruction was handed the Token-2022 program account.
    pub token_2022_program_present: bool,
}

/// What a swap moves: the deposit into the pool, the payout, and the fee.
#[derive(Debug)]
pub struct SwapPlan {
    pub deposit: TransferPlan,
    pub withdraw: TransferPlan,
    pub fee: TransferPlan,
}

impl Swap {
    /// The refusals of a swap, in the order in which they are checked.
    pub open spec fn spec_checks(self, amount: u64, min: u64, expiration: i64, now: i64) -> Result<
        (),
        AmmError,
    > {
        if self.config.locked {
            Err(AmmError::PoolLocked)
        } else if expiration <= now {
            Err(AmmError::OfferExpired)
        } else if amount == 0 || min == 0 {
            Err(AmmError::InvalidAmount)
        } else {
            Ok(())
        }
    }

    /// The pool's X and Y reserves and the side the swap pays into, or
    /// `InvalidMint` when the two mints are not the pool's pair in some order.
    pub open spec fn spec_curve_reserves(self) -> Result<(u64, u64, LiquidityPair), AmmError> {
        if self.mint_from.key == self.config.mint_x {
            if self.mint_to.key == self.config.mint_y {
                Ok((self.vault_from.amount, self.vault_to.amount, LiquidityPair::X))
            } else {
                Err(AmmError::InvalidMint)
            }
        } else if self.mint_from.key == self.config.mint_y {
            if self.mint_to.key == self.config.mint_x {
                Ok((self.vault_to.amount, self.vault_from.amount, LiquidityPair::Y))
            } else {
                Err(AmmError::InvalidMint)
            }
        } else {
            Err(AmmError::InvalidMint)
        }
    }

    /// The deposit, payout and fee of the swap, given the curve's answer.
    pub open spec fn spec_swap_amounts(self, curve: Result<SwapAmounts, AmmError>) -> Result<
        (u64, u64, u64),
        AmmError,
    > {
        match self.spec_curve_reserves() {
            Err(e) => Err(e),
            Ok(_) => match curve {
                Err(e) => Err(e),
                Ok(amounts) => if amounts.deposit == 0 || amounts.withdraw == 0 {
                    Err(AmmError::InvalidAmount)
                } else {
                    Ok((amounts.deposit, amounts.withdraw, amounts.fee))
                },
            },
        }
    }

    /// The outcome of the whole swap, given the curve's answer.
    pub open spec fn spec_swap(
        self,
        amount: u64,
        min: u64,
        expiration: i64,
        now: i64,
        curve: Result<SwapAmounts, AmmError>,
    ) -> Result<(u64, u64, u64), AmmError> {
        match self.spec_checks(amount, min, expiration, now) {
            Err(e) => Err(e),
            Ok(()) => match self.spec_swap_amounts(curve) {
                Err(e) => Err(e),
                Ok(amounts) => match spec_token_program_for(
                    self.mint_from.owned_by_token_2022,
                    self.token_2022_program_present,
                ) {
                    Err(e) => Err(e),
                    Ok(_) => match spec_token_program_for(
                        self.mint_to.owned_by_token_2022,
                        self.token_2022_program_present,
                    ) {
                        Err(e) => Err(e),
                        Ok(_) => Ok(amounts),
                    },
                },
            },
        }
    }

    /// The seeds with which the pool's config signs.
    pub open spec fn spec_signer_seeds(self) -> Seq<Seq<u8>> {
        spec_config_signer_seeds(
            self.config.seed,
            self.config.mint_x,
            self.config.mint_y,
            self.config.bump,
        )
    }

    /// Validates a swap at time `now`.
    pub fn checks(&self, amount: u64, min: u64, expiration: i64, now: i64) -> (r: Result<
        (),
        AmmError,
    >)
        ensures
            r == self.spec_checks(amount, min, expiration, now),
    {
        // Check the AMM is not locked
        if self.config.locked {
            return Err(AmmError::PoolLocked);
        }
        // Check the offer hasn't expired
        if !(expiration > now) {
            return Err(AmmError::OfferExpired);
        }
        // Check all amounts have a valid number
        if !(amount > 0) || !(min > 0) {
            return Err(AmmError::InvalidAmount);
        }
        Ok(())
    }

    /// The reserves that the curve prices the swap with, and its direction.
    pub fn curve_reserves(&self) -> (r: Result<(u64, u64, LiquidityPair), AmmError>)
        ensures
            r == self.spec_curve_reserves(),
            // Accepted exactly when the two mints are the pool's pair, in
            // either order; the reserves are then the pool's X and Y vaults.
            r is Ok <==> (self.mint_from.key == self.config.mint_x && self.mint_to.key
                == self.config.mint_y) || (self.mint_from.key == self.config.mint_y
                && self.mint_to.key == self.config.mint_x),
    {
        if self.mint_from.key.key_eq(&self.config.mint_x) {
            if !self.mint_to.key.key_eq(&self.config.mint_y) {
                return Err(AmmError::InvalidMint);
            }
            Ok((self.vault_from.amount, self.vault_to.amount, LiquidityPair::X))
        } else if self.mint_from.key.key_eq(&self.config.mint_y) {
            if !self.mint_to.key.key_eq(&self.config.mint_x) {
                return Err(AmmError::InvalidMint);
            }
            Ok((self.vault_to.amount, self.vault_from.amount, LiquidityPair::Y))
        } else {
            Err(AmmError::InvalidMint)
        }
    }

    /// The deposit, payout and fee of the swap, given what the curve answered
    /// for the reserves of `curve_reserves`.
    pub fn calculate_swap_amounts(&self, curve: Result<SwapAmounts, AmmError>) -> (r: Result<
        (u64, u64, u64),
        AmmError,
    >)
        ensures
            r == self.spec_swap_amounts(curve),
            // A success passes on the curve's answer, with both the deposit
            // and the payout positive.
            r matches Ok((d, w, f)) ==> d > 0 && w > 0 && curve == Ok::<SwapAmounts, AmmError>(
                SwapAmounts { deposit: d, withdraw: w, fee: f },
            ),
    {
        self.curve_reserves()?;
        let amounts = curve?;
        if !(amounts.deposit > 0) || !(amounts.withdraw > 0) {
            return Err(AmmError::InvalidAmount);
        }
        Ok((amounts.deposit, amounts.withdraw, amounts.fee))
    }

    /// The transfer of `amount` of the input token from the user into the pool.
    pub fn deposit_token(&self, amount: u64) -> (r: Result<TransferPlan, AmmError>)
        ensures
            match spec_token_program_for(
                self.mint_from.owned_by_token_2022,
                self.token_2022_program_present,
            ) {
                Err(e) => r == Err::<TransferPlan, AmmError>(e),
                Ok(program) => r matches Ok(plan) && plan.moves(
                    program,
                    AccountRole::UserFrom,
                    AccountRole::VaultFrom,
                    AccountRole::User,
                    amount,
                    Seq::empty(),
                ),
            },
    {
        let program = token_program_for(
            self.mint_from.owned_by_token_2022,
            self.token_2022_program_present,
        )?;
        let signer_seeds: Vec<Vec<u8>> = Vec::new();
        assert(signer_seeds.deep_view() =~= Seq::<Seq<u8>>::empty());
        Ok(
            TransferPlan {
                program,
                from: AccountRole::UserFrom,
                to: AccountRole::VaultFrom,
                authority: AccountRole::User,
                amount,
                signer_seeds,
            },
        )
    }

    /// The transfer of `amount` of the output token from the pool to the
    /// user, signed by the pool's config.
    pub fn withdraw_token(&self, amount: u64) -> (r: Result<TransferPlan, AmmError>)
        ensures
            match spec_token_program_for(
                self.mint_to.owned_by_token_2022,
                self.token_2022_program_present,
            ) {
                Err(e) => r == Err::<TransferPlan, AmmError>(e),
                Ok(program) => r matches Ok(plan) && plan.moves(
                    program,
                    AccountRole::VaultTo,
                    AccountRole::UserTo,
                    AccountRole::Config,
                    amount,
                    self.spec_signer_seeds(),
                ),
            },
    {
        let signer_seeds = config_signer_seeds(
            self.config.seed,
            &self.config.mint_x,
            &self.config.mint_y,
            self.config.bump,
        );
        let program = token_program_for(
            self.mint_to.owned_by_token_2022,
            self.token_2022_program_present,
        )?;
        Ok(
            TransferPlan {
                program,
                from: AccountRole::VaultTo,
                to: AccountRole::UserTo,
                authority: AccountRole::Config,
                amount,
                signer_seeds,
            },
        )
    }

    /// The transfer of the fee, `amount` of the input token, from the user into the pool.
    pub fn pay_fee(&self, amount: u64) -> (r: Result<TransferPlan, AmmError>)
        ensures
            match spec_token_program_for(
                self.mint_from.owned_by_token_2022,
                self.token_2022_program_present,
            ) {
                Err(e) => r == Err::<TransferPlan, AmmError>(e),
                Ok(program) => r matches Ok(plan) && plan.moves(
                    program,
                    AccountRole::UserFrom,
                    AccountRole::VaultFrom,
                    AccountRole::User,
                    amount,
                    Seq::empty(),
                ),
            },
    {
        self.deposit_token(amount)
    }
}

/// Swaps `amount` of one of the pool's tokens for the other at time `now`,
/// given what the constant-product curve answered: validates, checks the
/// amounts, and yields the token movements.
pub fn swap(
    accounts: &Swap,
    amount: u64,
    min: u64,
    expiration: i64,
    now: i64,
    curve: Result<SwapAmounts, AmmError>,
) -> (r: Result<SwapPlan, AmmError>)
    ensures
        // A successful swap moves the curve's deposit, payout and fee, the
        // first two positive, between mints that are the pool's pair.
        r matches Ok(plan) ==> {
            &&& plan.deposit.amount > 0
            &&& plan.withdraw.amount > 0
            &&& curve == Ok::<SwapAmounts, AmmError>(
                SwapAmounts {
                    deposit: plan.deposit.amount,
                    withdraw: plan.withdraw.amount,
                    fee: plan.fee.amount,
                },
            )
            &&& accounts.spec_curve_reserves() is Ok
        },
        match accounts.spec_swap(amount, min, expiration, now, curve) {
            Err(e) => r matches Err(e2) && e2 == e,
            Ok((deposit, withdraw, fee)) => r matches Ok(plan) && {
                let from_program = spec_token_program_for(
                    accounts.mint_from.owned_by_token_2022,
                    accounts.token_2022_program_present,
                )->Ok_0;
                let to_program = spec_token_program_for(
                    accounts.mint_to.owned_by_token_2022,
                    accounts.token_2022_program_present,
                )->Ok_0;
                &&& plan.deposit.moves(
                    from_program,
                    AccountRole::UserFrom,
                    AccountRole::VaultFrom,
                    AccountRole::User,
                    deposit,
                    Seq::empty(),
                )
                &&& plan.withdraw.moves(
                    to_program,
                    AccountRole::VaultTo,
                    AccountRole::UserTo,
                    AccountRole::Config,
                    withdraw,
                    accounts.spec_signer_seeds(),
                )
                &&& plan.fee.moves(
                    from_program,
                    AccountRole::UserFrom,
                    AccountRole::VaultFrom,
                    AccountRole::User,
                    fee,
                    Seq::empty(),
                )
            },
        },
{
    accounts.checks(amount, min, expiration, now)?;
    let (deposit_amount, withdraw_amount, fee_amount) = accounts.calculate_swap_amounts(curve)?;
    let deposit = accounts.deposit_token(deposit_amount)?;
    let withdraw = accounts.withdraw_token(withdraw_amount)?;
    let fee = accounts.pay_fee(fee_amount)?;
    Ok(SwapPlan { deposit, withdraw, fee })
}

/// A swap is routed only between the pool's two mints, in either direction:
/// paying X in prices it with the X vault as the X reserve, paying Y in with
/// the Y vault as the Y reserve; any other pair of mints is refused.
pub proof fn lemma_swap_routing(accounts: Swap)
    ensures
        accounts.spec_curve_reserves() is Ok <==> (accounts.mint_from.key == accounts.config.mint_x
            && accounts.mint_to.key == accounts.config.mint_y) || (accounts.mint_from.key
            == accounts.config.mint_y && accounts.mint_to.key == accounts.config.mint_x),
        accounts.spec_curve_reserves() matches Ok((x, y, pair)) ==> (pair == LiquidityPair::X
            && accounts.mint_from.key == accounts.config.mint_x && x == accounts.vault_from.amount
            && y == accounts.vault_to.amount) || (pair == LiquidityPair::Y
            && accounts.mint_from.key == accounts.config.mint_y && x == accounts.vault_to.amount
            && y == accounts.vault_from.amount),
        accounts.spec_curve_reserves() is Err ==> accounts.spec_curve_reserves() == Err::<
            (u64, u64, LiquidityPair),
            AmmError,
        >(AmmError::InvalidMint),
{
}

/// A swap succeeds only with the curve's own amounts, both the deposit and
/// the payout positive; a curve answer with either of them zero is refused.
pub proof fn lemma_swap_amounts_positive(accounts: Swap, curve: Result<SwapAmounts, AmmError>)
    ensures
        accounts.spec_swap_amounts(curve) matches Ok((d, w, f)) ==> d > 0 && w > 0 && curve
            == Ok::<SwapAmounts, AmmError>(SwapAmounts { deposit: d, withdraw: w, fee: f }),
        accounts.spec_curve_reserves() is Ok && (curve matches Ok(a) && (a.deposit == 0
            || a.withdraw == 0)) ==> accounts.spec_swap_amounts(curve) == Err::<
            (u64, u64, u64),
            AmmError,
        >(AmmError::InvalidAmount),
{
}

} // verus!
