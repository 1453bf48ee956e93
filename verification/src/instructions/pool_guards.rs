//! What every trading instruction checks first, stated across them.
use vstd::prelude::*;
use crate::errors::AmmError;
use crate::pubkey::Pubkey;
use crate::instructions::deposit::Deposit;
use crate::instructions::initialize::{Initialize, InitializeBumps};
use crate::instructions::liquidity_action::LiquidityAction;
use crate::instructions::swap::Swap;
use crate::instructions::withdraw::Withdraw;

verus! {

/// A locked pool refuses every deposit, withdrawal and swap as locked,
/// whatever the amounts and the times.
pub proof fn lemma_locked_pool_refuses_trading(
    deposit: Deposit,
    withdraw: Withdraw,
    swap: Swap,
    action: LiquidityAction,
    amount: u64,
    bound_x: u64,
    bound_y: u64,
    expiration: i64,
    now: i64,
)
    requires
        deposit.config.locked,
        withdraw.config.locked,
        swap.config.locked,
        action.config.locked,
    ensures
        deposit.spec_checks(amount, bound_x, bound_y, expiration, now) == Err::<(), AmmError>(
            AmmError::PoolLocked,
        ),
        withdraw.spec_checks(amount, bound_x, bound_y, expiration, now) == Err::<(), AmmError>(
            AmmError::PoolLocked,
        ),
        swap.spec_checks(amount, bound_x, expiration, now) == Err::<(), AmmError>(
            AmmError::PoolLocked,
        ),
        action.spec_checks(amount, bound_x, bound_y, expiration, now) == Err::<(), AmmError>(
            AmmError::PoolLocked,
        ),
{
}

/// On an unlocked pool, an offer whose expiration is not after the current
/// time is refused as expired by every deposit, withdrawal and swap.
pub proof fn lemma_expired_offer_refused(
    deposit: Deposit,
    withdraw: Withdraw,
    swap: Swap,
    action: LiquidityAction,
    amount: u64,
    bound_x: u64,
    bound_y: u64,
    expiration: i64,
    now: i64,
)
    requires
        !deposit.config.locked,
        !withdraw.config.locked,
        !swap.config.locked,
        !action.config.locked,
        expiration <= now,
    ensures
        deposit.spec_checks(amount, bound_x, bound_y, expiration, now) == Err::<(), AmmError>(
            AmmError::OfferExpired,
        ),
        withdraw.spec_checks(amount, bound_x, bound_y, expiration, now) == Err::<(), AmmError>(
            AmmError::OfferExpired,
        ),
        swap.spec_checks(amount, bound_x, expiration, now) == Err::<(), AmmError>(
            AmmError::OfferExpired,
        ),
        action.spec_checks(amount, bound_x, bound_y, expiration, now) == Err::<(), AmmError>(
            AmmError::OfferExpired,
        ),
{
}

/// On an unlocked pool with an unexpired offer, a zero amount or bound is
/// refused as an invalid amount by every deposit, withdrawal and swap; a
/// deposit into a pool without LP supply is refused as uninitialized; and
/// with positive amounts and bounds every check passes otherwise.
pub proof fn lemma_amounts_checked(
    deposit: Deposit,
    withdraw: Withdraw,
    swap: Swap,
    action: LiquidityAction,
    amount: u64,
    bound_x: u64,
    bound_y: u64,
    expiration: i64,
    now: i64,
)
    requires
        !deposit.config.locked,
        !withdraw.config.locked,
        !swap.config.locked,
        !action.config.locked,
        expiration > now,
    ensures
        amount == 0 || bound_x == 0 || bound_y == 0 ==> {
            &&& deposit.spec_checks(amount, bound_x, bound_y, expiration, now) == Err::<(), AmmError>(
                AmmError::InvalidAmount,
            )
            &&& withdraw.spec_checks(amount, bound_x, bound_y, expiration, now) == Err::<
                (),
                AmmError,
            >(AmmError::InvalidAmount)
            &&& action.spec_checks(amount, bound_x, bound_y, expiration, now) == Err::<(), AmmError>(
                AmmError::InvalidAmount,
            )
        },
        amount == 0 || bound_x == 0 ==> swap.spec_checks(amount, bound_x, expiration, now) == Err::<
            (),
            AmmError,
        >(AmmError::InvalidAmount),
        amount > 0 && bound_x > 0 && bound_y > 0 ==> {
            &&& deposit.spec_checks(amount, bound_x, bound_y, expiration, now) is Ok
                <==> deposit.mint_lp.supply > 0
            &&& deposit.mint_lp.supply == 0 ==> deposit.spec_checks(
                amount,
                bound_x,
                bound_y,
                expiration,
                now,
            ) == Err::<(), AmmError>(AmmError::PoolNotInitialized)
            &&& withdraw.spec_checks(amount, bound_x, bound_y, expiration, now) is Ok
            &&& action.spec_checks(amount, bound_x, bound_y, expiration, now) is Ok
            &&& swap.spec_checks(amount, bound_x, expiration, now) is Ok
        },
{
}

/// A pool starts valid and unlocked: the config that a successful
/// initialization writes has a fee of at most 100% and trading open.
pub proof fn lemma_initialized_pool_is_valid(
    accounts: Initialize,
    seed: u64,
    authority: Pubkey,
    fee: u16,
    init_amount_x: u64,
    init_amount_y: u64,
    bumps: InitializeBumps,
)
    requires
        Initialize::spec_checks(fee, init_amount_x, init_amount_y) is Ok,
    ensures
        accounts.spec_new_config(seed, authority, fee, bumps).valid(),
        !accounts.spec_new_config(seed, authority, fee, bumps).locked,
{
}

} // verus!
