use vstd::prelude::*;

verus! {

/// The errors with which the pool refuses an instruction.
#[derive(Debug, Clone, Copy, PartialEq, Eq, Structural)]
pub enum AmmError {
    /// The signer is not the pool's authority.
    InvalidAuthority,
    /// A fee above 10_000 basis points.
    InvalidFee,
    /// The pool is locked.
    PoolLocked,
    /// The offer's expiration is not after the current time.
    OfferExpired,
    /// An amount that must be positive is zero.
    InvalidAmount,
    /// The pool has no LP supply yet.
    PoolNotInitialized,
    /// An arithmetic overflow.
    Overflow,
    /// The amounts fall outside the caller's slippage bounds.
    SlippageExceeded,
    /// A Token-2022 mint without the Token-2022 program account.
    InvalidToken,
    /// The initial deposit yields no more liquidity than the locked minimum.
    InsufficientInitialLiquidity,
    /// The swap's mints are not the pool's pair.
    InvalidMint,
    /// The pool's authority was removed: its settings can no longer change.
    AmmIsImmutable,
    /// The constant-product curve refused the computation. This library
    /// reports every refusal of the curve with this one error.
    CurveError,
}

} // verus!
