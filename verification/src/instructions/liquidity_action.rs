use vstd::prelude::*;
use crate::errors::AmmError;
use crate::state::Config;
use crate::token::{
    AccountRole, BurnPlan, MintState, MintToPlan, TokenAccountState, TokenProgram, TransferPlan,
    burn_lp_plan, config_signer_seeds, spec_config_signer_seeds,
};
use crate::instructions::deposit::DepositPlan;
use crate::instructions::withdraw::WithdrawPlan;

verus! {

/// The accounts of a deposit or a withdrawal through the classic SPL token
/// program only, as far as the pool reads them.
#[derive(Debug, Clone, Copy)]
pub struct LiquidityAction {
    pub mint_x: MintState,
    pub mint_y: MintState,
    pub mint_lp: MintState,
    pub vault_x: TokenAccountState,
    pub vault_y: TokenAccountState,
    pub config: Config,
}

impl LiquidityAction {
    /// The refusals of the action, in the order in which they are checked.
    pub open spec fn spec_checks(self, amount: u64, max_x: u64, max_y: u64, expiration: i64, now: i64) -> Result<
        (),
        AmmError,
    > {
        if self.config.locked {
            Err(AmmError::PoolLocked)
        } else if expiration <= now {
            Err(AmmError::OfferExpired)
        } else if amount == 0 || max_x == 0 || max_y == 0 {
            Err(AmmError::InvalidAmount)
        } else {
            Ok(())
        }
    }

    /// Nothing was ever deposited: no LP tokens and both vaults empty.
    pub open spec fn spec_is_empty(self) -> bool {
        self.mint_lp.supply == 0 && self.vault_x.amount == 0 && self.vault_y.amount == 0
    }

    /// The amounts of X and Y that a deposit takes, given what the curve
    /// answered for the current reserves: the caller's maxima into an empty
    /// pool, the curve's amounts otherwise; refused beyond the maxima.
    pub open spec fn spec_deposit(
        self,
        max_x: u64,
        max_y: u64,
        curve_amounts: Result<(u64, u64), AmmError>,
    ) -> Result<(u64, u64), AmmError> {
        let amounts = if self.spec_is_empty() {
            Ok((max_x, max_y))
        } else {
            curve_amounts
        };
        match amounts {
            Err(e) => Err(e),
            Ok((x, y)) => if max_x < x || max_y < y {
                Err(AmmError::SlippageExceeded)
            } else {
                Ok((x, y))
            },
        }
    }

    /// The amounts of X and Y that a withdrawal of `amount` LP tokens pays,
    /// given what the curve answered for the current reserves: both vaults
    /// whole when it takes the entire supply, the curve's amounts otherwise;
    /// refused below the minima.
    pub open spec fn spec_withdraw(
        self,
        amount: u64,
        min_x: u64,
        min_y: u64,
        curve_amounts: Result<(u64, u64), AmmError>,
    ) -> Result<(u64, u64), AmmError> {
        let amounts = if self.mint_lp.supply == amount {
            Ok((self.vault_x.amount, self.vault_y.amount))
        } else {
            curve_amounts
        };
        match amounts {
            Err(e) => Err(e),
            Ok((x, y)) => if x < min_x || y < min_y {
                Err(AmmError::SlippageExceeded)
            } else {
                Ok((x, y))
            },
        }
    }

    /// The seeds with which the pool's config signs.
    pub open spec fn spec_signer_seeds(self) -> Seq<Seq<u8>> {
        spec_config_signer_seeds(self.config.seed, self.mint_x.key, self.mint_y.key, self.config.bump)
    }

    /// Validates the action at time `now`.
    pub fn checks(&self, amount: u64, max_x: u64, max_y: u64, expiration: i64, now: i64) -> (r: Result<
        (),
        AmmError,
    >)
        ensures
            r == self.spec_checks(amount, max_x, max_y, expiration, now),
    {
        // Check if the pool is locked
        if self.config.locked {
            return Err(AmmError::PoolLocked);
        }
        // Check if the offer has expired
        if !(expiration > now) {
            return Err(AmmError::OfferExpired);
        }
        // Check if the amounts are valid
        if !(amount > 0) || !(max_x > 0) || !(max_y > 0) {
            return Err(AmmError::InvalidAmount);
        }
        Ok(())
    }

    /// Whether the pool is empty, in which case a deposit sets its price.
    pub fn is_empty(&self) -> (r: bool)
        ensures
            r == self.spec_is_empty(),
    {
        self.mint_lp.supply == 0 && self.vault_x.amount == 0 && self.vault_y.amount == 0
    }

    /// Deposits for `amount` LP tokens, at most `max_x` of X and `max_y` of Y,
    /// given what the curve answered for the current reserves.
    pub fn deposit(
        &self,
        amount: u64,
        max_x: u64,
        max_y: u64,
        curve_amounts: Result<(u64, u64), AmmError>,
    ) -> (r: Result<DepositPlan, AmmError>)
        ensures
            // A successful deposit never takes more than the caller's maxima.
            r matches Ok(plan) ==> {
                &&& plan.transfer_x.amount <= max_x
                &&& plan.transfer_y.amount <= max_y
                &&& plan.mint_lp.amount == amount
            },
            // Beyond either maximum, a priced deposit is refused.
            !self.spec_is_empty() && (curve_amounts matches Ok((x, y)) && (max_x < x || max_y
                < y)) ==> r matches Err(AmmError::SlippageExceeded),
            match self.spec_deposit(max_x, max_y, curve_amounts) {
                Err(e) => r matches Err(e2) && e2 == e,
                Ok((x, y)) => r matches Ok(plan) && {
                    &&& plan.transfer_x.moves(
                        TokenProgram::Token,
                        AccountRole::UserX,
                        AccountRole::VaultX,
                        AccountRole::User,
                        x,
                        Seq::empty(),
                    )
                    &&& plan.transfer_y.moves(
                        TokenProgram::Token,
                        AccountRole::UserY,
                        AccountRole::VaultY,
                        AccountRole::User,
                        y,
                        Seq::empty(),
                    )
                    &&& plan.mint_lp.mints_lp(amount, self.spec_signer_seeds())
                },
            },
    {
        // Calculate the amount of tokens to deposit
        let (x, y) = if self.is_empty() {
            (max_x, max_y)
        } else {
            curve_amounts?
        };
        // Check for slippage
        if !(max_x >= x) || !(max_y >= y) {
            return Err(AmmError::SlippageExceeded);
        }
        // Deposit the tokens
        let transfer_x = self.deposit_tokens(true, x);
        let transfer_y = self.deposit_tokens(false, y);
        // Mint the LP tokens
        let mint_lp = self.mint_lp_tokens(amount);
        Ok(DepositPlan { transfer_x, transfer_y, mint_lp })
    }

    /// The transfer of `amount` of token X (when `is_x`) or Y from the user to the pool.
    pub fn deposit_tokens(&self, is_x: bool, amount: u64) -> (r: TransferPlan)
        ensures
            r.moves(
                TokenProgram::Token,
                if is_x {
                    AccountRole::UserX
                } else {
                    AccountRole::UserY
                },
                if is_x {
                    AccountRole::VaultX
                } else {
                    AccountRole::VaultY
                },
                AccountRole::User,
                amount,
                Seq::empty(),
            ),
    {
        let (from, to) = if is_x {
            (AccountRole::UserX, AccountRole::VaultX)
        } else {
            (AccountRole::UserY, AccountRole::VaultY)
        };
        let signer_seeds: Vec<Vec<u8>> = Vec::new();
        assert(signer_seeds.deep_view() =~= Seq::<Seq<u8>>::empty());
        TransferPlan {
            program: TokenProgram::Token,
            from,
            to,
            authority: AccountRole::User,
            amount,
            signer_seeds,
        }
    }

    /// The mint of `amount` LP tokens to the user, signed by the pool's config.
    pub fn mint_lp_tokens(&self, amount: u64) -> (r: MintToPlan)
        ensures
            r.mints_lp(amount, self.spec_signer_seeds()),
    {
        let signer_seeds = config_signer_seeds(
            self.config.seed,
            &self.mint_x.key,
            &self.mint_y.key,
            self.config.bump,
        );
        MintToPlan {
            program: TokenProgram::Token,
            mint: AccountRole::MintLp,
            to: AccountRole::UserLp,
            authority: AccountRole::Config,
            amount,
            signer_seeds,
        }
    }

    /// Withdraws for `amount` LP tokens at least `min_x` of X and `min_y` of
    /// Y, given what the curve answered for the current reserves.
    pub fn withdraw(
        &self,
        amount: u64,
        min_x: u64,
        min_y: u64,
        curve_amounts: Result<(u64, u64), AmmError>,
    ) -> (r: Result<WithdrawPlan, AmmError>)
        ensures
            // A successful withdrawal pays at least both minima.
            r matches Ok(plan) ==> {
                &&& plan.transfer_x.amount >= min_x
                &&& plan.transfer_y.amount >= min_y
                &&& plan.burn_lp.amount == amount
            },
            match self.spec_withdraw(amount, min_x, min_y, curve_amounts) {
                Err(e) => r matches Err(e2) && e2 == e,
                Ok((x, y)) => r matches Ok(plan) && {
                    &&& plan.transfer_x.moves(
                        TokenProgram::Token,
                        AccountRole::VaultX,
                        AccountRole::UserX,
                        AccountRole::Config,
                        x,
                        self.spec_signer_seeds(),
                    )
                    &&& plan.transfer_y.moves(
                        TokenProgram::Token,
                        AccountRole::VaultY,
                        AccountRole::UserY,
                        AccountRole::Config,
                        y,
                        self.spec_signer_seeds(),
                    )
                    &&& plan.burn_lp.burns_lp(amount)
                },
            },
    {
        // Calculate the amount of tokens to withdraw
        let (x, y) = if self.mint_lp.supply == amount {
            (self.vault_x.amount, self.vault_y.amount)
        } else {
            curve_amounts?
        };
        // Check for slippage
        if !(x >= min_x) || !(y >= min_y) {
            return Err(AmmError::SlippageExceeded);
        }
        // Withdraw the tokens
        let transfer_x = self.withdraw_tokens(true, x);
        let transfer_y = self.withdraw_tokens(false, y);
        // Burn the LP tokens
        let burn_lp = self.burn_lp_tokens(amount);
        Ok(WithdrawPlan { transfer_x, transfer_y, burn_lp })
    }

    /// The transfer of `amount` of token X (when `is_x`) or Y from the pool to
    /// the user, signed by the pool's config.
    pub fn withdraw_tokens(&self, is_x: bool, amount: u64) -> (r: TransferPlan)
        ensures
            r.moves(
                TokenProgram::Token,
                if is_x {
                    AccountRole::VaultX
                } else {
                    AccountRole::VaultY
                },
                if is_x {
                    AccountRole::UserX
                } else {
                    AccountRole::UserY
                },
                AccountRole::Config,
                amount,
                self.spec_signer_seeds(),
            ),
    {
        let (from, to) = if is_x {
            (AccountRole::VaultX, AccountRole::UserX)
        } else {
            (AccountRole::VaultY, AccountRole::UserY)
        };
        let signer_seeds = config_signer_seeds(
            self.config.seed,
            &self.mint_x.key,
            &self.mint_y.key,
            self.config.bump,
        );
        TransferPlan {
            program: TokenProgram::Token,
            from,
            to,
            authority: AccountRole::Config,
            amount,
            signer_seeds,
        }
    }

    /// The burn of the `amount` LP tokens that the user hands back.
    pub fn burn_lp_tokens(&self, amount: u64) -> (r: BurnPlan)
        ensures
            r.burns_lp(amount),
    {
        burn_lp_plan(amount)
    }
}

/// A deposit never takes more than the caller's maxima: into an empty pool
/// it takes exactly them, otherwise the curve's amounts when both fit within
/// them, and it is refused as slippage when either does not.
pub proof fn lemma_deposit_within_maxima(
    accounts: LiquidityAction,
    max_x: u64,
    max_y: u64,
    curve_amounts: Result<(u64, u64), AmmError>,
)
    ensures
        accounts.spec_deposit(max_x, max_y, curve_amounts) matches Ok((x, y)) ==> x <= max_x && y
            <= max_y,
        !accounts.spec_is_empty() ==> (accounts.spec_deposit(max_x, max_y, curve_amounts) is Ok
            ==> curve_amounts == accounts.spec_deposit(max_x, max_y, curve_amounts)),
        !accounts.spec_is_empty() && (curve_amounts matches Ok((x, y)) && (max_x < x || max_y < y))
            ==> accounts.spec_deposit(max_x, max_y, curve_amounts) == Err::<(u64, u64), AmmError>(
            AmmError::SlippageExceeded,
        ),
{
}

/// A withdrawal always pays at least the caller's minima, and one that would
/// pay less of either token is refused as slippage.
pub proof fn lemma_withdraw_within_minima(
    accounts: LiquidityAction,
    amount: u64,
    min_x: u64,
    min_y: u64,
    curve_amounts: Result<(u64, u64), AmmError>,
)
    ensures
        accounts.spec_withdraw(amount, min_x, min_y, curve_amounts) matches Ok((x, y)) ==> x
            >= min_x && y >= min_y,
        accounts.mint_lp.supply != amount && (curve_amounts matches Ok((x, y)) && (x < min_x || y
            < min_y)) ==> accounts.spec_withdraw(amount, min_x, min_y, curve_amounts) == Err::<
            (u64, u64),
            AmmError,
        >(AmmError::SlippageExceeded),
{
}

/// The first deposit into an empty pool takes exactly the caller's maxima,
/// whatever the curve would answer: it sets the pool's price.
pub proof fn lemma_first_deposit_sets_price(
    accounts: LiquidityAction,
    max_x: u64,
    max_y: u64,
    curve_amounts: Result<(u64, u64), AmmError>,
)
    requires
        accounts.spec_is_empty(),
    ensures
        accounts.spec_deposit(max_x, max_y, curve_amounts) == Ok::<(u64, u64), AmmError>(
            (max_x, max_y),
        ),
{
}

/// Withdrawing the entire LP supply pays out both vaults whole (unless they
/// fall below the caller's minima), whatever the curve would answer.
pub proof fn lemma_full_withdrawal_empties_vaults(
    accounts: LiquidityAction,
    min_x: u64,
    min_y: u64,
    curve_amounts: Result<(u64, u64), AmmError>,
)
    requires
        min_x <= accounts.vault_x.amount,
        min_y <= accounts.vault_y.amount,
    ensures
        accounts.spec_withdraw(accounts.mint_lp.supply, min_x, min_y, curve_amounts) == Ok::<
            (u64, u64),
            AmmError,
        >((accounts.vault_x.amount, accounts.vault_y.amount)),
{
}

} // verus!
