use vstd::prelude::*;
use vstd::arithmetic::div_mod::*;
use vstd::arithmetic::mul::*;
use crate::pubkey::Pubkey;

verus! {

/// The settings of one pool.
#[derive(Debug, Clone, Copy)]
pub struct Config {
    pub seed: u64,
    pub authority: Pubkey,
    /// Token X Mint
    pub mint_x: Pubkey,
    /// Token Y Mint
    pub mint_y: Pubkey,
    /// Swap fee in basis points
    pub fee: u16,
    pub locked: bool,
    pub lp_bump: u8,
    pub bump: u8,
}

impl Config {
    /// Bytes that the account's data takes: its discriminator and its fields.
    pub const INIT_SPACE: usize = 1 + 8 + 32 + 32 + 32 + 2 + 1 + 1 + 1;

    /// The pool's fee is a share of at most 100%.
    pub open spec fn valid(self) -> bool {
        self.fee <= 10_000
    }
}

/// Position NFT - represents LP tokens with optional vesting
#[derive(Debug, Clone, Copy)]
pub struct Position {
    /// The Config account this position belongs to
    pub config: Pubkey,
    /// The NFT mint representing this position
    pub nft_mint: Pubkey,
    /// Total LP tokens this position represents
    pub lp_amount: u64,
    /// When vesting begins (0 = no vesting)
    pub vesting_start: i64,
    /// When fully vested (0 = no vesting)
    pub vesting_end: i64,
    /// Nothing unlocks before this timestamp (0 = no cliff)
    pub cliff: i64,
    pub bump: u8,
}

impl Position {
    /// The position has no vesting schedule.
    pub open spec fn has_no_vesting(self) -> bool {
        self.vesting_start == 0 && self.vesting_end == 0
    }

    /// At `time` the position is inside its linear vesting window.
    pub open spec fn is_vesting_at(self, time: int) -> bool {
        &&& !self.has_no_vesting()
        &&& time >= self.cliff
        &&& time >= self.vesting_start
        &&& time < self.vesting_end
    }

    /// The length of the vesting window fits the timestamps' type wherever
    /// the schedule is consulted inside it.
    pub open spec fn vesting_span_fits(self, time: int) -> bool {
        self.is_vesting_at(time) ==> self.vesting_end - self.vesting_start <= i64::MAX
    }

    /// The position has a cliff (a zero cliff means none) that `time` is before.
    pub open spec fn is_before_cliff(self, time: int) -> bool {
        self.cliff != 0 && time < self.cliff
    }

    /// LP tokens unlocked at `time`: nothing before a cliff, everything
    /// without a schedule, nothing before the start, everything from the end
    /// on, and in between the share of the elapsed time, rounded down.
    pub open spec fn spec_unlocked_lp(self, time: int) -> int {
        if self.is_before_cliff(time) {
            0
        } else if self.has_no_vesting() {
            self.lp_amount as int
        } else if time < self.cliff || time < self.vesting_start {
            0
        } else if time >= self.vesting_end {
            self.lp_amount as int
        } else {
            (self.lp_amount as int) * (time - self.vesting_start) / (self.vesting_end
                - self.vesting_start)
        }
    }

    /// Calculate how many LP tokens are currently unlocked based on vesting schedule
    pub fn unlocked_lp(&self, current_time: i64) -> (r: u64)
        requires
            self.vesting_span_fits(current_time as int),
        ensures
            r as int == self.spec_unlocked_lp(current_time as int),
    {
        // Nothing unlocks before the cliff (0 = no cliff)
        if self.cliff != 0 && current_time < self.cliff {
            return 0;
        }
        // No vesting - everything unlocked
        if self.vesting_start == 0 && self.vesting_end == 0 {
            return self.lp_amount;
        }
        // Before cliff - nothing unlocked
        if current_time < self.cliff || current_time < self.vesting_start {
            return 0;
        }
        // After vesting ends - everything unlocked
        if current_time >= self.vesting_end {
            return self.lp_amount;
        }
        // Linear vesting: calculate proportion unlocked
        let total_vesting_time = self.vesting_end - self.vesting_start;
        let time_elapsed = current_time - self.vesting_start;
        proof {
            lemma_linear_share_bounded(
                self.lp_amount as int,
                time_elapsed as int,
                total_vesting_time as int,
            );
            assert((self.lp_amount as u128) * (time_elapsed as u128) <= u64::MAX * i64::MAX)
                by (nonlinear_arith)
                requires
                    0 <= self.lp_amount <= u64::MAX,
                    0 <= time_elapsed <= i64::MAX,
            ;
        }
        // unlocked = lp_amount * time_elapsed / total_vesting_time
        ((self.lp_amount as u128) * (time_elapsed as u128) / (total_vesting_time as u128)) as u64
    }
}

/// A share `amount * elapsed / total` of an amount, with `elapsed` inside the
/// window, lies between zero and the amount.
pub proof fn lemma_linear_share_bounded(amount: int, elapsed: int, total: int)
    requires
        amount >= 0,
        0 <= elapsed <= total,
        total > 0,
    ensures
        0 <= amount * elapsed / total <= amount,
{
    lemma_mul_nonnegative(amount, elapsed);
    lemma_mul_inequality(elapsed, total, amount);
    lemma_mul_is_commutative(elapsed, amount);
    lemma_mul_is_commutative(total, amount);
    lemma_div_is_ordered(amount * elapsed, amount * total, total);
    lemma_div_by_multiple(amount, total);
    lemma_div_pos_is_pos(amount * elapsed, total);
}

/// The unlocked amount never exceeds the position's LP tokens.
pub proof fn lemma_unlocked_lp_bounded(position: Position, time: int)
    ensures
        0 <= position.spec_unlocked_lp(time) <= position.lp_amount,
{
    if position.is_vesting_at(time) {
        lemma_linear_share_bounded(
            position.lp_amount as int,
            time - position.vesting_start,
            position.vesting_end - position.vesting_start,
        );
    }
}

/// What unlocks when: without a schedule everything (once past any cliff);
/// nothing before the cliff or the start; everything from the end on (past
/// the cliff); and inside the window the largest amount whose share of the
/// window does not exceed the elapsed time.
pub proof fn lemma_unlocked_lp_schedule(position: Position, time: int)
    ensures
        !position.is_before_cliff(time) && position.has_no_vesting() ==> position.spec_unlocked_lp(
            time,
        ) == position.lp_amount,
        !position.has_no_vesting() && (time < position.cliff || time < position.vesting_start)
            ==> position.spec_unlocked_lp(time) == 0,
        !position.is_before_cliff(time) && !position.has_no_vesting() && time >= position.cliff
            && time >= position.vesting_start && time >= position.vesting_end
            ==> position.spec_unlocked_lp(time) == position.lp_amount,
        position.is_vesting_at(time) ==> ({
            let total = position.vesting_end - position.vesting_start;
            let elapsed = time - position.vesting_start;
            let unlocked = position.spec_unlocked_lp(time);
            &&& unlocked * total <= (position.lp_amount as int) * elapsed
            &&& (position.lp_amount as int) * elapsed < (unlocked + 1) * total
        }),
{
    if position.is_vesting_at(time) {
        let total = position.vesting_end - position.vesting_start;
        let p = (position.lp_amount as int) * (time - position.vesting_start);
        let q = p / total;
        let rem = p % total;
        lemma_fundamental_div_mod(p, total);
        lemma_mod_bound(p, total);
        assert(q * total <= p && p < (q + 1) * total) by (nonlinear_arith)
            requires
                p == total * q + rem,
                0 <= rem < total,
        ;
    }
}

/// Nothing unlocks before a position's cliff, with or without a vesting window.
pub proof fn lemma_nothing_unlocks_before_cliff(position: Position, time: int)
    requires
        position.cliff != 0,
        time < position.cliff,
    ensures
        position.spec_unlocked_lp(time) == 0,
{
}

/// Unlocking only grows with time: what is unlocked at `earlier` stays
/// unlocked at any `later` time. Since `unlocked_lp` returns
/// `spec_unlocked_lp` at every time it accepts, its results never decrease.
pub proof fn lemma_unlocked_lp_monotonic(position: Position, earlier: int, later: int)
    requires
        earlier <= later,
    ensures
        position.spec_unlocked_lp(earlier) <= position.spec_unlocked_lp(later),
{
    lemma_unlocked_lp_bounded(position, earlier);
    lemma_unlocked_lp_bounded(position, later);
    if position.is_vesting_at(earlier) && position.is_vesting_at(later) {
        let amount = position.lp_amount as int;
        let total = position.vesting_end - position.vesting_start;
        let e1 = earlier - position.vesting_start;
        let e2 = later - position.vesting_start;
        lemma_mul_inequality(e1, e2, amount);
        lemma_mul_is_commutative(e1, amount);
        lemma_mul_is_commutative(e2, amount);
        lemma_div_is_ordered(amount * e1, amount * e2, total);
    }
}

} // verus!
