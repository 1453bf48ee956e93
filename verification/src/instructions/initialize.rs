use vstd::prelude::*;
use vstd::arithmetic::div_mod::*;
use vstd::arithmetic::mul::*;
use crate::constants::MINIMUM_LIQUIDITY;
use crate::errors::AmmError;
use crate::pubkey::Pubkey;
use crate::state::Config;
use crate::token::{
    AccountRole, MintState, MintToPlan, TokenProgram, TransferPlan, config_signer_seeds,
    spec_config_signer_seeds, spec_token_program_for, token_program_for,
};

verus! {

/// `r` is the integer square root of `n`: the largest `r` with `r * r <= n`.
pub open spec fn is_integer_sqrt(n: nat, r: nat) -> bool {
    &&& r * r <= n
    &&& n < (r + 1) * (r + 1)
}

/// The integer square root of `n`.
pub open spec fn integer_sqrt_of(n: nat) -> nat {
    choose|r: nat| is_integer_sqrt(n, r)
}

/// One Newton step for the square root of `n` from the estimate `x`.
pub open spec fn newton_step(n: nat, x: nat) -> nat
    recommends
        x > 0,
{
    (x + n / x) / 2
}

/// A Newton step never falls below the integer square root:
/// `(x + n / x) / 2 + 1` squared exceeds `n` (integer AM-GM).
pub proof fn lemma_newton_step_stays_above(n: nat, x: nat)
    requires
        x >= 1,
    ensures
        (newton_step(n, x) + 1) * (newton_step(n, x) + 1) > n,
{
    let q = n / x;
    let r = n % x;
    let y = newton_step(n, x);
    lemma_fundamental_div_mod(n as int, x as int);
    lemma_mod_bound(n as int, x as int);
    assert(n < x * (q + 1)) by (nonlinear_arith)
        requires
            n == x * q + r,
            r < x,
    ;
    assert(2 * (y + 1) >= x + q + 1);
    assert((x + q + 1) * (x + q + 1) >= 4 * (x * (q + 1))) by (nonlinear_arith)
        requires
            x >= 0,
            q >= 0,
    {
        assert((x + q + 1) * (x + q + 1) - 4 * (x * (q + 1)) == (x - q - 1) * (x - q - 1));
    }
    assert(4 * ((y + 1) * (y + 1)) >= (x + q + 1) * (x + q + 1)) by (nonlinear_arith)
        requires
            2 * (y + 1) >= x + q + 1,
            x + q + 1 >= 0,
    ;
}

/// When the estimate squares above `n`, the next Newton step is strictly smaller.
pub proof fn lemma_newton_step_descends(n: nat, x: nat)
    requires
        x >= 1,
        x * x > n,
    ensures
        newton_step(n, x) < x,
{
    let q = n / x;
    let r = n % x;
    lemma_fundamental_div_mod(n as int, x as int);
    lemma_mod_bound(n as int, x as int);
    assert(q < x) by (nonlinear_arith)
        requires
            n == x * q + r,
            r >= 0,
            x * x > n,
            x >= 1,
    ;
}

/// For `1 <= x <= n`, the sum `x + n / x` is at most `n + 1`.
pub proof fn lemma_newton_sum_bounded(n: nat, x: nat)
    requires
        1 <= x <= n,
    ensures
        x + n / x <= n + 1,
{
    let k = (n + 1 - x) as nat;
    assert(x * k >= n) by (nonlinear_arith)
        requires
            1 <= x <= n,
            k == n + 1 - x,
    {
        assert(x * k - n == (x - 1) * (n - x));
        assert((x - 1) * (n - x) >= 0);
    }
    lemma_div_is_ordered(n as int, (x * k) as int, x as int);
    lemma_div_by_multiple(k as int, x as int);
    lemma_mul_is_commutative(x as int, k as int);
}

/// Integer square root using Newton's method
pub fn integer_sqrt(n: u128) -> (r: u128)
    requires
        n < u128::MAX,
    ensures
        is_integer_sqrt(n as nat, r as nat),
        r == integer_sqrt_of(n as nat),
{
    let r = newton_sqrt(n);
    proof {
        lemma_integer_sqrt_of(n as nat, r as nat);
    }
    r
}

/// Newton's iteration from `n` itself, stopped when it no longer descends.
fn newton_sqrt(n: u128) -> (r: u128)
    requires
        n < u128::MAX,
    ensures
        is_integer_sqrt(n as nat, r as nat),
{
    if n == 0 {
        return 0;
    }
    let mut x = n;
    let mut y = (x + 1) / 2;
    proof {
        assert(n / n == 1) by {
            lemma_div_by_multiple(1, n as int);
        }
        assert(((n + 1) * (n + 1)) > n) by (nonlinear_arith)
            requires
                n >= 1,
        ;
    }
    while y < x
        invariant
            1 <= n < u128::MAX,
            1 <= x <= n,
            y == newton_step(n as nat, x as nat),
            (x + 1) * (x + 1) > n,
        decreases x,
    {
        proof {
            lemma_newton_step_stays_above(n as nat, x as nat);
            assert(y >= 1) by (nonlinear_arith)
                requires
                    (y + 1) * (y + 1) > n,
                    n >= 1,
            ;
            lemma_newton_sum_bounded(n as nat, y as nat);
        }
        x = y;
        y = (x + n / x) / 2;
    }
    proof {
        if x * x > n {
            lemma_newton_step_descends(n as nat, x as nat);
        }
    }
    x
}

/// The bumps of the two addresses that initialization derives.
#[derive(Debug, Clone, Copy, PartialEq, Eq, Structural)]
pub struct InitializeBumps {
    pub mint_lp: u8,
    pub config: u8,
}

/// The accounts of a pool's initialization, as far as the pool reads and writes them.
#[derive(Debug, Clone, Copy)]
pub struct Initialize {
    pub mint_x: MintState,
    pub mint_y: MintState,
    /// The pool's new config account.
    pub config: Config,
    /// The instruction was handed the Token-2022 program account.
    pub token_2022_program_present: bool,
}

/// What initialization moves: the initial liquidity into the vaults, the
/// locked minimum liquidity to the dead LP account, and the rest of the first
/// LP tokens to the initializer.
#[derive(Debug)]
pub struct InitializePlan {
    pub transfer_x: TransferPlan,
    pub transfer_y: TransferPlan,
    /// The mint of `MINIMUM_LIQUIDITY` LP tokens to the dead LP account.
    pub mint_locked: MintToPlan,
    /// The mint of the initializer's LP tokens.
    pub mint_lp: MintToPlan,
    /// The liquidity of the initial deposit, the square root of the product of its amounts.
    pub liquidity: u64,
}

/// The LP tokens minted to a pool's initializer for a first deposit of `x`
/// and `y`: the integer square root of `x * y` less the locked minimum
/// liquidity, or `InsufficientInitialLiquidity` when it does not exceed it.
pub open spec fn spec_initial_lp(x: u64, y: u64, liquidity: nat) -> Result<u64, AmmError> {
    if liquidity <= MINIMUM_LIQUIDITY {
        Err(AmmError::InsufficientInitialLiquidity)
    } else {
        Ok((liquidity - MINIMUM_LIQUIDITY) as u64)
    }
}

impl Initialize {
    /// The config that initialization writes.
    pub open spec fn spec_new_config(self, seed: u64, authority: Pubkey, fee: u16, bumps: InitializeBumps) -> Config {
        Config {
            seed,
            authority,
            mint_x: self.mint_x.key,
            mint_y: self.mint_y.key,
            fee,
            locked: false,
            lp_bump: bumps.mint_lp,
            bump: bumps.config,
        }
    }

    /// The refusals of initialization before anything is written, in order.
    pub open spec fn spec_checks(fee: u16, init_amount_x: u64, init_amount_y: u64) -> Result<
        (),
        AmmError,
    > {
        if fee > 10_000 {
            Err(AmmError::InvalidFee)
        } else if init_amount_x == 0 || init_amount_y == 0 {
            Err(AmmError::InvalidAmount)
        } else {
            Ok(())
        }
    }

    /// The outcome of initialization: the LP tokens it mints, given the
    /// integer square root `liquidity` of the product of the amounts.
    pub open spec fn spec_initialize(
        self,
        fee: u16,
        init_amount_x: u64,
        init_amount_y: u64,
        liquidity: nat,
    ) -> Result<u64, AmmError> {
        match Self::spec_checks(fee, init_amount_x, init_amount_y) {
            Err(e) => Err(e),
            Ok(()) => match spec_token_program_for(
                self.mint_x.owned_by_token_2022,
                self.token_2022_program_present,
            ) {
                Err(e) => Err(e),
                Ok(_) => match spec_token_program_for(
                    self.mint_y.owned_by_token_2022,
                    self.token_2022_program_present,
                ) {
                    Err(e) => Err(e),
                    Ok(_) => spec_initial_lp(init_amount_x, init_amount_y, liquidity),
                },
            },
        }
    }

    /// Writes the pool's config.
    pub fn initialize_config(
        &mut self,
        seed: u64,
        authority: Pubkey,
        fee: u16,
        bumps: &InitializeBumps,
    ) -> (r: Result<(), AmmError>)
        ensures
            r == Ok::<(), AmmError>(()),
            final(self).config == old(self).spec_new_config(seed, authority, fee, *bumps),
            final(self).mint_x == old(self).mint_x,
            final(self).mint_y == old(self).mint_y,
            final(self).token_2022_program_present == old(self).token_2022_program_present,
    {
        self.config = Config {
            seed,
            authority,
            mint_x: self.mint_x.key,
            mint_y: self.mint_y.key,
            fee,
            locked: false,
            lp_bump: bumps.mint_lp,
            bump: bumps.config,
        };
        Ok(())
    }

    /// The transfer of `amount` of token X (when `is_x`) or Y from the
    /// initializer to the pool.
    pub fn deposit_tokens(&self, is_x: bool, amount: u64) -> (r: Result<TransferPlan, AmmError>)
        ensures
            ({
                let (mint, from, to) = if is_x {
                    (self.mint_x, AccountRole::UserX, AccountRole::VaultX)
                } else {
                    (self.mint_y, AccountRole::UserY, AccountRole::VaultY)
                };
                match spec_token_program_for(mint.owned_by_token_2022, self.token_2022_program_present) {
                    Err(e) => r == Err::<TransferPlan, AmmError>(e),
                    Ok(program) => r matches Ok(plan) && plan.moves(
                        program,
                        from,
                        to,
                        AccountRole::User,
                        amount,
                        Seq::empty(),
                    ),
                }
            }),
    {
        let (mint, from, to) = if is_x {
            (&self.mint_x, AccountRole::UserX, AccountRole::VaultX)
        } else {
            (&self.mint_y, AccountRole::UserY, AccountRole::VaultY)
        };
        let program = token_program_for(mint.owned_by_token_2022, self.token_2022_program_present)?;
        let signer_seeds: Vec<Vec<u8>> = Vec::new();
        assert(signer_seeds.deep_view() =~= Seq::<Seq<u8>>::empty());
        Ok(TransferPlan { program, from, to, authority: AccountRole::User, amount, signer_seeds })
    }

    /// The mint of the initial `liquidity` LP tokens to the initializer,
    /// signed by the pool's config.
    pub fn mint_initial_lp(&self, liquidity: u64, bumps: &InitializeBumps) -> (r: MintToPlan)
        ensures
            r.mints_lp(
                liquidity,
                spec_config_signer_seeds(
                    self.config.seed,
                    self.mint_x.key,
                    self.mint_y.key,
                    bumps.config,
                ),
            ),
    {
        let signer_seeds = config_signer_seeds(
            self.config.seed,
            &self.mint_x.key,
            &self.mint_y.key,
            bumps.config,
        );
        MintToPlan {
            program: TokenProgram::Token,
            mint: AccountRole::MintLp,
            to: AccountRole::UserLp,
            authority: AccountRole::Config,
            amount: liquidity,
            signer_seeds,
        }
    }

    /// The mint of the locked `MINIMUM_LIQUIDITY` LP tokens to the dead LP
    /// account, signed by the pool's config.
    pub fn mint_locked_liquidity(&self, bumps: &InitializeBumps) -> (r: MintToPlan)
        ensures
            r.mints_lp_to(
                AccountRole::DeadLp,
                MINIMUM_LIQUIDITY,
                spec_config_signer_seeds(
                    self.config.seed,
                    self.mint_x.key,
                    self.mint_y.key,
                    bumps.config,
                ),
            ),
    {
        let signer_seeds = config_signer_seeds(
            self.config.seed,
            &self.mint_x.key,
            &self.mint_y.key,
            bumps.config,
        );
        MintToPlan {
            program: TokenProgram::Token,
            mint: AccountRole::MintLp,
            to: AccountRole::DeadLp,
            authority: AccountRole::Config,
            amount: MINIMUM_LIQUIDITY,
            signer_seeds,
        }
    }
}

/// Initializes a pool: validates the fee and the amounts, writes the config,
/// and yields the initial deposit and the LP tokens minted for it: the square
/// root of the amounts' product in all, of which the minimum liquidity goes
/// to the dead LP account and the rest to the initializer.
pub fn initialize(
    accounts: &mut Initialize,
    seed: u64,
    authority: Pubkey,
    fee: u16,
    init_amount_x: u64,
    init_amount_y: u64,
    bumps: &InitializeBumps,
) -> (r: Result<InitializePlan, AmmError>)
    ensures
        final(accounts).mint_x == old(accounts).mint_x,
        final(accounts).mint_y == old(accounts).mint_y,
        final(accounts).token_2022_program_present == old(accounts).token_2022_program_present,
        // Success is owed whenever the fee, the amounts and the token programs
        // are acceptable and the liquidity exceeds the locked minimum.
        fee <= 10_000 && init_amount_x > 0 && init_amount_y > 0 && (
        !old(accounts).mint_x.owned_by_token_2022 || old(accounts).token_2022_program_present) && (
        !old(accounts).mint_y.owned_by_token_2022 || old(accounts).token_2022_program_present)
            && integer_sqrt_of((init_amount_x as nat) * (init_amount_y as nat)) > MINIMUM_LIQUIDITY
            ==> r is Ok,
        // Insufficient liquidity means the liquidity itself is too small.
        r == Err::<InitializePlan, AmmError>(AmmError::InsufficientInitialLiquidity)
            ==> integer_sqrt_of((init_amount_x as nat) * (init_amount_y as nat))
            <= MINIMUM_LIQUIDITY,
        // A successful plan deposits both amounts and mints exactly the
        // liquidity, the minimum of it locked in the dead account.
        r matches Ok(plan) ==> {
            &&& plan.transfer_x.amount == init_amount_x
            &&& plan.transfer_y.amount == init_amount_y
            &&& plan.mint_locked.amount == MINIMUM_LIQUIDITY
            &&& plan.mint_locked.to == AccountRole::DeadLp
            &&& plan.mint_lp.to == AccountRole::UserLp
            &&& plan.mint_lp.amount + MINIMUM_LIQUIDITY == integer_sqrt_of(
                (init_amount_x as nat) * (init_amount_y as nat),
            )
            &&& plan.liquidity == integer_sqrt_of((init_amount_x as nat) * (init_amount_y as nat))
        },
        Initialize::spec_checks(fee, init_amount_x, init_amount_y) is Err ==> final(accounts).config
            == old(accounts).config,
        Initialize::spec_checks(fee, init_amount_x, init_amount_y) is Ok ==> final(accounts).config
            == old(accounts).spec_new_config(seed, authority, fee, *bumps),
        ({
            let liquidity = integer_sqrt_of((init_amount_x as nat) * (init_amount_y as nat));
            match old(accounts).spec_initialize(fee, init_amount_x, init_amount_y, liquidity) {
                Err(e) => r matches Err(e2) && e2 == e,
                Ok(lp) => r matches Ok(plan) && {
                    &&& plan.liquidity == liquidity
                    &&& plan.transfer_x.moves(
                        spec_token_program_for(
                            old(accounts).mint_x.owned_by_token_2022,
                            old(accounts).token_2022_program_present,
                        )->Ok_0,
                        AccountRole::UserX,
                        AccountRole::VaultX,
                        AccountRole::User,
                        init_amount_x,
                        Seq::empty(),
                    )
                    &&& plan.transfer_y.moves(
                        spec_token_program_for(
                            old(accounts).mint_y.owned_by_token_2022,
                            old(accounts).token_2022_program_present,
                        )->Ok_0,
                        AccountRole::UserY,
                        AccountRole::VaultY,
                        AccountRole::User,
                        init_amount_y,
                        Seq::empty(),
                    )
                    &&& plan.mint_locked.mints_lp_to(
                        AccountRole::DeadLp,
                        MINIMUM_LIQUIDITY,
                        spec_config_signer_seeds(seed, old(accounts).mint_x.key, old(accounts).mint_y.key, bumps.config),
                    )
                    &&& plan.mint_lp.mints_lp(
                        lp,
                        spec_config_signer_seeds(seed, old(accounts).mint_x.key, old(accounts).mint_y.key, bumps.config),
                    )
                },
            }
        }),
{
    // Validate fee
    if !(fee <= 10_000) {
        return Err(AmmError::InvalidFee);
    }
    // Validate initial amounts
    if !(init_amount_x > 0) || !(init_amount_y > 0) {
        return Err(AmmError::InvalidAmount);
    }
    // Initialize config first (needed for signer seeds)
    accounts.initialize_config(seed, authority, fee, bumps)?;
    // Transfer initial liquidity to vaults
    let transfer_x = accounts.deposit_tokens(true, init_amount_x)?;
    let transfer_y = accounts.deposit_tokens(false, init_amount_y)?;
    // Calculate LP tokens: sqrt(x * y) - MINIMUM_LIQUIDITY
    proof {
        assert((init_amount_x as int) * (init_amount_y as int) <= u64::MAX * u64::MAX) by (nonlinear_arith)
            requires
                init_amount_x <= u64::MAX,
                init_amount_y <= u64::MAX,
        ;
    }
    let product = (init_amount_x as u128) * (init_amount_y as u128);
    let root = integer_sqrt(product);
    proof {
        assert(root < 0x1_0000_0000_0000_0000) by (nonlinear_arith)
            requires
                root * root <= product,
                product <= u64::MAX * u64::MAX,
        ;
    }
    proof {
        lemma_integer_sqrt_of(product as nat, root as nat);
    }
    let liquidity = root as u64;
    // Ensure enough liquidity to lock MINIMUM_LIQUIDITY
    if !(liquidity > MINIMUM_LIQUIDITY) {
        return Err(AmmError::InsufficientInitialLiquidity);
    }
    let lp_to_mint = liquidity - MINIMUM_LIQUIDITY;
    // Lock MINIMUM_LIQUIDITY in the dead LP account for good
    let mint_locked = accounts.mint_locked_liquidity(bumps);
    // Mint the rest of the LP tokens to the initializer
    let mint_lp = accounts.mint_initial_lp(lp_to_mint, bumps);
    Ok(InitializePlan { transfer_x, transfer_y, mint_locked, mint_lp, liquidity })
}

/// Every number has an integer square root.
pub proof fn lemma_integer_sqrt_exists(n: nat)
    ensures
        is_integer_sqrt(n, integer_sqrt_of(n)),
    decreases n,
{
    if n == 0 {
        assert(is_integer_sqrt(0, 0)) by (nonlinear_arith);
    } else {
        let m = (n - 1) as nat;
        lemma_integer_sqrt_exists(m);
        let r = integer_sqrt_of(m);
        if (r + 1) * (r + 1) <= n {
            assert((r + 1) * (r + 1) == n) by (nonlinear_arith)
                requires
                    m < (r + 1) * (r + 1),
                    (r + 1) * (r + 1) <= n,
                    m == n - 1,
            ;
            assert(n < (r + 2) * (r + 2)) by (nonlinear_arith)
                requires
                    (r + 1) * (r + 1) == n,
            ;
            assert(is_integer_sqrt(n, r + 1));
        } else {
            assert(is_integer_sqrt(n, r));
        }
    }
}

/// The integer square root of a number is unique.
pub proof fn lemma_integer_sqrt_unique(n: nat, r1: nat, r2: nat)
    requires
        is_integer_sqrt(n, r1),
        is_integer_sqrt(n, r2),
    ensures
        r1 == r2,
{
    if r1 < r2 {
        assert((r1 + 1) * (r1 + 1) <= r2 * r2) by (nonlinear_arith)
            requires
                r1 + 1 <= r2,
        ;
    } else if r2 < r1 {
        assert((r2 + 1) * (r2 + 1) <= r1 * r1) by (nonlinear_arith)
            requires
                r2 + 1 <= r1,
        ;
    }
}

/// Any integer square root of `n` is the one that `integer_sqrt_of` names.
pub proof fn lemma_integer_sqrt_of(n: nat, r: nat)
    requires
        is_integer_sqrt(n, r),
    ensures
        integer_sqrt_of(n) == r,
{
    lemma_integer_sqrt_unique(n, r, integer_sqrt_of(n));
}

/// Initialization succeeds exactly when the fee is at most 100%, both amounts
/// are positive, each mint's token program is available and the integer
/// square root of the amounts' product exceeds the minimum liquidity; it then
/// mints that root less the minimum to the initializer. In particular it is
/// refused for insufficient liquidity only when that root is at most the
/// minimum, whatever the two amounts are on their own.
pub proof fn lemma_initialize_outcome(accounts: Initialize, fee: u16, x: u64, y: u64)
    ensures
        ({
            let liquidity = integer_sqrt_of((x as nat) * (y as nat));
            let programs_ok = (!accounts.mint_x.owned_by_token_2022
                || accounts.token_2022_program_present) && (!accounts.mint_y.owned_by_token_2022
                || accounts.token_2022_program_present);
            &&& (fee <= 10_000 && x > 0 && y > 0 && programs_ok && liquidity > MINIMUM_LIQUIDITY)
                ==> (accounts.spec_initialize(fee, x, y, liquidity) matches Ok(lp) && lp
                + MINIMUM_LIQUIDITY == liquidity)
            &&& accounts.spec_initialize(fee, x, y, liquidity) == Err::<u64, AmmError>(
                AmmError::InsufficientInitialLiquidity,
            ) ==> liquidity <= MINIMUM_LIQUIDITY
            &&& accounts.spec_initialize(fee, x, y, liquidity) is Ok ==> fee <= 10_000 && x > 0 && y
                > 0 && programs_ok && liquidity > MINIMUM_LIQUIDITY
        }),
{
    lemma_integer_sqrt_exists((x as nat) * (y as nat));
    let n = (x as nat) * (y as nat);
    assert(n <= u64::MAX * u64::MAX) by (nonlinear_arith)
        requires
            n == (x as nat) * (y as nat),
            x <= u64::MAX,
            y <= u64::MAX,
    ;
    let liquidity = integer_sqrt_of(n);
    assert(liquidity <= u64::MAX) by (nonlinear_arith)
        requires
            liquidity * liquidity <= n,
            n <= u64::MAX * u64::MAX,
    ;
}

/// Initialization mints exactly the liquidity of the deposit in all: the
/// initializer's LP tokens plus the minimum liquidity locked in the dead
/// account. So the initializer never holds the whole pool's shares, and its
/// shares, squared, stay below the product of the deposited amounts.
pub proof fn lemma_initial_lp_locks_minimum(x: u64, y: u64, lp: u64)
    requires
        spec_initial_lp(x, y, integer_sqrt_of((x as nat) * (y as nat))) == Ok::<u64, AmmError>(lp),
    ensures
        lp + MINIMUM_LIQUIDITY == integer_sqrt_of((x as nat) * (y as nat)),
        (lp as nat) * (lp as nat) < (x as nat) * (y as nat),
{
    let n = (x as nat) * (y as nat);
    let liquidity = integer_sqrt_of(n);
    lemma_integer_sqrt_exists(n);
    assert(n <= u64::MAX * u64::MAX) by (nonlinear_arith)
        requires
            n == (x as nat) * (y as nat),
            x <= u64::MAX,
            y <= u64::MAX,
    ;
    assert(liquidity <= u64::MAX) by (nonlinear_arith)
        requires
            liquidity * liquidity <= n,
            n <= u64::MAX * u64::MAX,
    ;
    assert((lp as nat) * (lp as nat) < liquidity * liquidity) by (nonlinear_arith)
        requires
            lp < liquidity,
    ;
}

} // verus!
