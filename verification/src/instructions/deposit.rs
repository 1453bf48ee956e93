use vstd::prelude::*;
use vstd::arithmetic::div_mod::*;
use crate::constants::MINIMUM_LIQUIDITY;
use crate::errors::AmmError;
use crate::state::Config;
use crate::token::{
    AccountRole, MintState, MintToPlan, TokenAccountState, TokenProgram, TransferPlan,
    config_signer_seeds, spec_config_signer_seeds, spec_token_program_for, token_program_for,
};

verus! {

/// The accounts of a deposit into an initialized pool, as far as the pool reads them.
#[derive(Debug, Clone, Copy)]
pub struct Deposit {
    pub mint_x: MintState,
    pub mint_y: MintState,
    pub mint_lp: MintState,
    pub vault_x: TokenAccountState,
    pub vault_y: TokenAccountState,
    pub config: Config,
    /// The instruction was handed the Token-2022 program account.
    pub token_2022_program_present: bool,
}

/// What a deposit moves: both tokens into the vaults and new LP tokens to the user.
#[derive(Debug)]
pub struct DepositPlan {
    pub transfer_x: TransferPlan,
    pub transfer_y: TransferPlan,
    pub mint_lp: MintToPlan,
}

/// Tokens of a vault holding `vault` that buy `amount` LP tokens out of
/// `supply`: the proportional share against the supply plus the minimum
/// liquidity, counted as virtual shares, rounded down, plus one. Since
/// initialization also mints the minimum liquidity to the dead LP account,
/// the supply already holds those shares, and this price counts them twice.
pub open spec fn spec_required_deposit(vault: u64, amount: u64, supply: u64) -> int {
    (vault as int) * (amount as int) / ((supply as int) + (MINIMUM_LIQUIDITY as int)) + 1
}

/// The price of `amount` LP tokens in a vault holding `vault`, or `Overflow`
/// when it does not fit in 64 bits.
pub open spec fn spec_checked_required_deposit(vault: u64, amount: u64, supply: u64) -> Result<
    u64,
    AmmError,
> {
    if spec_required_deposit(vault, amount, supply) > u64::MAX {
        Err(AmmError::Overflow)
    } else {
        Ok(spec_required_deposit(vault, amount, supply) as u64)
    }
}

impl Deposit {
    /// The refusals of a deposit, in the order in which they are checked.
    pub open spec fn spec_checks(self, amount: u64, max_x: u64, max_y: u64, expiration: i64, now: i64) -> Result<
        (),
        AmmError,
    > {
        if self.config.locked {
            Err(AmmError::PoolLocked)
        } else if expiration <= now {
            Err(AmmError::OfferExpired)
        } else if amount == 0 || max_x == 0 || max_y == 0 {
            Err(AmmError::InvalidAmount)
        } else if self.mint_lp.supply == 0 {
            Err(AmmError::PoolNotInitialized)
        } else {
            Ok(())
        }
    }

    /// The tokens of each kind that `amount` LP tokens cost.
    pub open spec fn spec_amounts(self, amount: u64) -> Result<(u64, u64), AmmError> {
        match spec_checked_required_deposit(self.vault_x.amount, amount, self.mint_lp.supply) {
            Err(e) => Err(e),
            Ok(x) => match spec_checked_required_deposit(
                self.vault_y.amount,
                amount,
                self.mint_lp.supply,
            ) {
                Err(e) => Err(e),
                Ok(y) => Ok((x, y)),
            },
        }
    }

    /// The outcome of the whole deposit: the amounts of X and Y it moves.
    pub open spec fn spec_deposit(self, amount: u64, max_x: u64, max_y: u64, expiration: i64, now: i64) -> Result<
        (u64, u64),
        AmmError,
    > {
        match self.spec_checks(amount, max_x, max_y, expiration, now) {
            Err(e) => Err(e),
            Ok(()) => match self.spec_amounts(amount) {
                Err(e) => Err(e),
                Ok((x, y)) => if max_x < x || max_y < y {
                    Err(AmmError::SlippageExceeded)
                } else {
                    match spec_token_program_for(
                        self.mint_x.owned_by_token_2022,
                        self.token_2022_program_present,
                    ) {
                        Err(e) => Err(e),
                        Ok(_) => match spec_token_program_for(
                            self.mint_y.owned_by_token_2022,
                            self.token_2022_program_present,
                        ) {
                            Err(e) => Err(e),
                            Ok(_) => Ok((x, y)),
                        },
                    }
                },
            },
        }
    }

    /// The seeds with which the pool's config signs.
    pub open spec fn spec_signer_seeds(self) -> Seq<Seq<u8>> {
        spec_config_signer_seeds(self.config.seed, self.mint_x.key, self.mint_y.key, self.config.bump)
    }

    /// Validates a deposit at time `now`.
    pub fn checks(&self, amount: u64, max_x: u64, max_y: u64, expiration: i64, now: i64) -> (r: Result<
        (),
        AmmError,
    >)
        ensures
            r == self.spec_checks(amount, max_x, max_y, expiration, now),
    {
        // Check the AMM is not locked
        if self.config.locked {
            return Err(AmmError::PoolLocked);
        }
        // Check the offer hasn't expired
        if !(expiration > now) {
            return Err(AmmError::OfferExpired);
        }
        // Check all amounts have a valid number
        if !(amount > 0) || !(max_x > 0) || !(max_y > 0) {
            return Err(AmmError::InvalidAmount);
        }
        // Pool must be initialized (first deposit happens in initialize)
        if !(self.mint_lp.supply > 0) {
            return Err(AmmError::PoolNotInitialized);
        }
        Ok(())
    }

    /// The tokens of each kind that `amount` LP tokens cost.
    pub fn calculate_amounts(&self, amount: u64) -> (r: Result<(u64, u64), AmmError>)
        ensures
            r == self.spec_amounts(amount),
            // Each price is the least amount worth more than the LP tokens'
            // share of its vault against the supply plus the minimum liquidity.
            r matches Ok((x, y)) ==> {
                let s = (self.mint_lp.supply as int) + (MINIMUM_LIQUIDITY as int);
                let a = amount as int;
                &&& (x as int) * s > (self.vault_x.amount as int) * a
                &&& ((x as int) - 1) * s <= (self.vault_x.amount as int) * a
                &&& (y as int) * s > (self.vault_y.amount as int) * a
                &&& ((y as int) - 1) * s <= (self.vault_y.amount as int) * a
            },
    {
        proof {
            lemma_deposit_rounds_up(self.vault_x.amount, amount, self.mint_lp.supply);
            lemma_deposit_rounds_up(self.vault_y.amount, amount, self.mint_lp.supply);
        }
        // MINIMUM_LIQUIDITY acts as virtual dead shares on top of the supply.
        // This prevents inflation attacks by diluting all LP shares.
        // adjusted_supply = supply + MINIMUM_LIQUIDITY
        let adjusted_supply = (self.mint_lp.supply as u128) + (MINIMUM_LIQUIDITY as u128);
        // Calculate required deposits proportional to current pool state
        // x_required = vault_x * lp_amount / adjusted_supply + 1
        // y_required = vault_y * lp_amount / adjusted_supply + 1
        let x = proportional_plus_one(self.vault_x.amount, amount, self.mint_lp.supply, adjusted_supply)?;
        let y = proportional_plus_one(self.vault_y.amount, amount, self.mint_lp.supply, adjusted_supply)?;
        Ok((x, y))
    }

    /// The transfer of `amount` of token X (when `is_x`) or Y from the user to the pool.
    pub fn deposit_tokens(&self, is_x: bool, amount: u64) -> (r: Result<TransferPlan, AmmError>)
        ensures
            ({
                let (mint, from, to) = if is_x {
                    (self.mint_x, AccountRole::UserX, AccountRole::VaultX)
                } else {
                    (self.mint_y, AccountRole::UserY, AccountRole::VaultY)
                };
                match spec_token_program_for(mint.owned_by_token_2022, self.token_2022_program_present) {
                    Err(e) => r == Err::<TransferPlan, AmmError>(e),
                    Ok(program) => r matches Ok(plan) && plan.moves(
                        program,
                        from,
                        to,
                        AccountRole::User,
                        amount,
                        Seq::empty(),
                    ),
                }
            }),
    {
        let (mint, from, to) = if is_x {
            (&self.mint_x, AccountRole::UserX, AccountRole::VaultX)
        } else {
            (&self.mint_y, AccountRole::UserY, AccountRole::VaultY)
        };
        let program = token_program_for(mint.owned_by_token_2022, self.token_2022_program_present)?;
        let signer_seeds: Vec<Vec<u8>> = Vec::new();
        assert(signer_seeds.deep_view() =~= Seq::<Seq<u8>>::empty());
        Ok(TransferPlan { program, from, to, authority: AccountRole::User, amount, signer_seeds })
    }

    /// The mint of `amount` LP tokens to the user, signed by the pool's config.
    pub fn mint_lp_tokens(&self, amount: u64) -> (r: MintToPlan)
        ensures
            r.mints_lp(amount, self.spec_signer_seeds()),
    {
        let signer_seeds = config_signer_seeds(
            self.config.seed,
            &self.mint_x.key,
            &self.mint_y.key,
            self.config.bump,
        );
        MintToPlan {
            program: TokenProgram::Token,
            mint: AccountRole::MintLp,
            to: AccountRole::UserLp,
            authority: AccountRole::Config,
            amount,
            signer_seeds,
        }
    }
}

/// `vault * amount / adjusted_supply + 1`, where `adjusted_supply` is the
/// supply plus the minimum liquidity, or `Overflow` when it does not fit in
/// 64 bits.
fn proportional_plus_one(vault: u64, amount: u64, supply: u64, adjusted_supply: u128) -> (r: Result<
    u64,
    AmmError,
>)
    requires
        adjusted_supply == (supply as int) + (MINIMUM_LIQUIDITY as int),
    ensures
        r == spec_checked_required_deposit(vault, amount, supply),
{
    proof {
        assert((vault as int) * (amount as int) <= u64::MAX * u64::MAX) by (nonlinear_arith)
            requires
                vault <= u64::MAX,
                amount <= u64::MAX,
        ;
    }
    let product = (vault as u128) * (amount as u128);
    let quotient = product / adjusted_supply;
    proof {
        lemma_div_is_ordered_by_denominator(product as int, 1, adjusted_supply as int);
    }
    // Round up to prevent rounding exploits
    let rounded = quotient + 1;
    if rounded > u64::MAX as u128 {
        return Err(AmmError::Overflow);
    }
    Ok(rounded as u64)
}

/// Deposits an `amount` of LP tokens' worth of both tokens at time `now`:
/// validates, prices and checks the slippage bounds, and yields the token
/// movements.
pub fn deposit(accounts: &Deposit, amount: u64, max_x: u64, max_y: u64, expiration: i64, now: i64) -> (r:
    Result<DepositPlan, AmmError>)
    ensures
        // A successful deposit never takes more than the caller's maxima and
        // mints the LP tokens asked for.
        r matches Ok(plan) ==> {
            &&& plan.transfer_x.amount <= max_x
            &&& plan.transfer_y.amount <= max_y
            &&& plan.mint_lp.amount == amount
        },
        match accounts.spec_deposit(amount, max_x, max_y, expiration, now) {
            Err(e) => r matches Err(e2) && e2 == e,
            Ok((x, y)) => r matches Ok(plan) && {
                &&& plan.transfer_x.moves(
                    spec_token_program_for(
                        accounts.mint_x.owned_by_token_2022,
                        accounts.token_2022_program_present,
                    )->Ok_0,
                    AccountRole::UserX,
                    AccountRole::VaultX,
                    AccountRole::User,
                    x,
                    Seq::empty(),
                )
                &&& plan.transfer_y.moves(
                    spec_token_program_for(
                        accounts.mint_y.owned_by_token_2022,
                        accounts.token_2022_program_present,
                    )->Ok_0,
                    AccountRole::UserY,
                    AccountRole::VaultY,
                    AccountRole::User,
                    y,
                    Seq::empty(),
                )
                &&& plan.mint_lp.mints_lp(amount, accounts.spec_signer_seeds())
            },
        },
{
    accounts.checks(amount, max_x, max_y, expiration, now)?;
    let (x, y) = accounts.calculate_amounts(amount)?;
    if !(max_x >= x) || !(max_y >= y) {
        return Err(AmmError::SlippageExceeded);
    }
    let transfer_x = accounts.deposit_tokens(true, x)?;
    let transfer_y = accounts.deposit_tokens(false, y)?;
    let mint_lp = accounts.mint_lp_tokens(amount);
    Ok(DepositPlan { transfer_x, transfer_y, mint_lp })
}

/// A deposit succeeds only at its prices and only within both of the
/// caller's maxima; an otherwise valid deposit whose price exceeds either
/// maximum is refused as slippage.
pub proof fn lemma_deposit_respects_maxima(
    accounts: Deposit,
    amount: u64,
    max_x: u64,
    max_y: u64,
    expiration: i64,
    now: i64,
)
    ensures
        accounts.spec_deposit(amount, max_x, max_y, expiration, now) matches Ok((x, y)) ==> x
            <= max_x && y <= max_y && accounts.spec_amounts(amount) == Ok::<(u64, u64), AmmError>(
            (x, y),
        ),
        accounts.spec_checks(amount, max_x, max_y, expiration, now) is Ok && (accounts.spec_amounts(
            amount,
        ) matches Ok((x, y)) && (max_x < x || max_y < y)) ==> accounts.spec_deposit(
            amount,
            max_x,
            max_y,
            expiration,
            now,
        ) == Err::<(u64, u64), AmmError>(AmmError::SlippageExceeded),
{
}

/// A deposit's price is the least amount worth more than the LP tokens'
/// share of the vault against the supply plus the minimum liquidity: it
/// never undercharges, and one token less would. It is refused as an
/// overflow only when that amount does not fit in 64 bits.
pub proof fn lemma_deposit_rounds_up(vault: u64, amount: u64, supply: u64)
    ensures
        ({
            let s = (supply as int) + (MINIMUM_LIQUIDITY as int);
            let p = (vault as int) * (amount as int);
            &&& spec_checked_required_deposit(vault, amount, supply) matches Ok(price) ==> {
                &&& (price as int) * s > p
                &&& ((price as int) - 1) * s <= p
            }
            &&& spec_checked_required_deposit(vault, amount, supply) is Err ==> forall|price: int|
                #![trigger price * s]
                price * s > p && (price - 1) * s <= p ==> price > u64::MAX
        }),
{
    let s = (supply as int) + (MINIMUM_LIQUIDITY as int);
    let p = (vault as int) * (amount as int);
    let q = p / s;
    let rem = p % s;
    lemma_fundamental_div_mod(p, s);
    lemma_mod_bound(p, s);
    assert((q + 1) * s > p && q * s <= p) by (nonlinear_arith)
        requires
            p == s * q + rem,
            0 <= rem < s,
    ;
    assert forall|price: int| #![trigger price * s] price * s > p && (price - 1) * s <= p implies price
        == q + 1 by {
        assert(price == q + 1) by (nonlinear_arith)
            requires
                price * s > p,
                (price - 1) * s <= p,
                (q + 1) * s > p,
                q * s <= p,
                s > 0,
        ;
    }
}

} // verus!
