//! The pool as a state machine over its record, its two reserves and the LP
//! supply. A rejected operation leaves the state exactly as it was.
use vstd::prelude::*;

use crate::error::AmmError;
use crate::pricing::{
    deposit_lp_amount, deposit_lp_outcome, floor_sqrt, is_floor_sqrt, lemma_floor_sqrt_is,
    lemma_swap_output_bounds, lp_owed, share_of, swap_amount_out, swap_outcome,
};
use crate::state::Config;

verus! {

/// A pool's record with the live balances read for one call.
#[derive(Clone, Copy, Debug)]
pub struct PoolState {
    pub config: Config,
    pub reserve_x: u64,
    pub reserve_y: u64,
    pub lp_supply: u64,
}

impl PoolState {
    pub open spec fn wf(&self) -> bool {
        self.config.wf()
    }
}

/// The outcome of a deposit: the LP tokens minted, or why it is rejected.
pub open spec fn deposit_outcome(pool: PoolState, amount_x: u64, amount_y: u64, min_lp: u64) -> Result<
    u64,
    AmmError,
> {
    if pool.config.locked {
        Err(AmmError::PoolLocked)
    } else {
        match deposit_lp_outcome(amount_x, amount_y, pool.reserve_x, pool.reserve_y, pool.lp_supply) {
            Err(e) => Err(e),
            Ok(lp) => if lp < min_lp {
                Err(AmmError::SlippageExceeded)
            } else if pool.reserve_x + amount_x > u64::MAX || pool.reserve_y + amount_y > u64::MAX
                || pool.lp_supply + lp > u64::MAX {
                Err(AmmError::ArithmeticOverflow)
            } else {
                Ok(lp)
            },
        }
    }
}

/// The pool after a deposit: both amounts credited and the LP tokens minted,
/// or unchanged when the deposit is rejected.
pub open spec fn after_deposit(pool: PoolState, amount_x: u64, amount_y: u64, min_lp: u64) -> PoolState {
    match deposit_outcome(pool, amount_x, amount_y, min_lp) {
        Ok(lp) => PoolState {
            reserve_x: (pool.reserve_x + amount_x) as u64,
            reserve_y: (pool.reserve_y + amount_y) as u64,
            lp_supply: (pool.lp_supply + lp) as u64,
            ..pool
        },
        Err(_) => pool,
    }
}

/// The reserve paid into and the reserve paid out of, by direction.
pub open spec fn reserves_in_out(pool: PoolState, x_to_y: bool) -> (u64, u64) {
    if x_to_y {
        (pool.reserve_x, pool.reserve_y)
    } else {
        (pool.reserve_y, pool.reserve_x)
    }
}

/// The outcome of a swap: the amount paid out, or why it is rejected.
pub open spec fn swap_outcome_of(pool: PoolState, amount_in: u64, min_amount_out: u64, x_to_y: bool) -> Result<
    u64,
    AmmError,
> {
    let (reserve_in, reserve_out) = reserves_in_out(pool, x_to_y);
    if pool.config.locked {
        Err(AmmError::PoolLocked)
    } else {
        match swap_outcome(amount_in, reserve_in, reserve_out, pool.config.fee_bps) {
            Err(e) => Err(e),
            Ok(out) => if out < min_amount_out {
                Err(AmmError::SlippageExceeded)
            } else if reserve_in + amount_in > u64::MAX {
                Err(AmmError::ArithmeticOverflow)
            } else {
                Ok(out)
            },
        }
    }
}

/// The pool after a swap: the input credited to one reserve and the output
/// taken from the other, or unchanged when the swap is rejected.
pub open spec fn after_swap(pool: PoolState, amount_in: u64, min_amount_out: u64, x_to_y: bool) -> PoolState {
    match swap_outcome_of(pool, amount_in, min_amount_out, x_to_y) {
        Ok(out) => if x_to_y {
            PoolState {
                reserve_x: (pool.reserve_x + amount_in) as u64,
                reserve_y: (pool.reserve_y - out) as u64,
                ..pool
            }
        } else {
            PoolState {
                reserve_y: (pool.reserve_y + amount_in) as u64,
                reserve_x: (pool.reserve_x - out) as u64,
                ..pool
            }
        },
        Err(_) => pool,
    }
}

impl PoolState {
    /// Deposits `amount_x` and `amount_y` and mints LP tokens for them.
    /// Rejected while the pool is locked, when the LP amount is below
    /// `min_lp`, and when a balance or the supply would overflow.
    pub fn deposit(&mut self, amount_x: u64, amount_y: u64, min_lp: u64) -> (r: Result<u64, AmmError>)
        requires
            old(self).wf(),
        ensures
            r == deposit_outcome(*old(self), amount_x, amount_y, min_lp),
            *final(self) == after_deposit(*old(self), amount_x, amount_y, min_lp),
            final(self).wf(),
    {
        if self.config.locked {
            return Err(AmmError::PoolLocked);
        }
        let lp = deposit_lp_amount(amount_x, amount_y, self.reserve_x, self.reserve_y, self.lp_supply)?;
        if lp < min_lp {
            return Err(AmmError::SlippageExceeded);
        }
        if amount_x > u64::MAX - self.reserve_x || amount_y > u64::MAX - self.reserve_y || lp > u64::MAX
            - self.lp_supply {
            return Err(AmmError::ArithmeticOverflow);
        }
        self.reserve_x = self.reserve_x + amount_x;
        self.reserve_y = self.reserve_y + amount_y;
        self.lp_supply = self.lp_supply + lp;
        Ok(lp)
    }

    /// Swaps `amount_in` of one token for the other at the fee-adjusted
    /// constant-product price. Rejected while the pool is locked, when a
    /// reserve is empty, when the output is below `min_amount_out`, and when
    /// the input reserve would overflow.
    pub fn swap(&mut self, amount_in: u64, min_amount_out: u64, x_to_y: bool) -> (r: Result<u64, AmmError>)
        requires
            old(self).wf(),
        ensures
            r == swap_outcome_of(*old(self), amount_in, min_amount_out, x_to_y),
            *final(self) == after_swap(*old(self), amount_in, min_amount_out, x_to_y),
            final(self).wf(),
    {
        if self.config.locked {
            return Err(AmmError::PoolLocked);
        }
        let (reserve_in, reserve_out) = if x_to_y {
            (self.reserve_x, self.reserve_y)
        } else {
            (self.reserve_y, self.reserve_x)
        };
        let out = swap_amount_out(amount_in, reserve_in, reserve_out, self.config.fee_bps)?;
        if out < min_amount_out {
            return Err(AmmError::SlippageExceeded);
        }
        if amount_in > u64::MAX - reserve_in {
            return Err(AmmError::ArithmeticOverflow);
        }
        if x_to_y {
            self.reserve_x = reserve_in + amount_in;
            self.reserve_y = reserve_out - out;
        } else {
            self.reserve_y = reserve_in + amount_in;
            self.reserve_x = reserve_out - out;
        }
        Ok(out)
    }
}

/// The floor square root exists for every non-negative number.
proof fn lemma_floor_sqrt_exists(n: int)
    requires
        n >= 0,
    ensures
        is_floor_sqrt(n, floor_sqrt(n)),
    decreases n,
{
    if n == 0 {
        assert(is_floor_sqrt(0, 0));
        lemma_floor_sqrt_is(0, 0);
    } else {
        lemma_floor_sqrt_exists(n - 1);
        let r = floor_sqrt(n - 1);
        if (r + 1) * (r + 1) <= n {
            assert((r + 2) * (r + 2) == (r + 1) * (r + 1) + 2 * r + 3) by (nonlinear_arith);
            assert(is_floor_sqrt(n, r + 1));
            lemma_floor_sqrt_is(n, r + 1);
        } else {
            assert(is_floor_sqrt(n, r));
            lemma_floor_sqrt_is(n, r);
        }
    }
}

/// The first deposit into a pool with both reserves empty mints the floor of
/// the square root of the product of the two amounts, and at least one LP
/// token when both amounts are positive.
pub proof fn lemma_first_deposit_mints_sqrt(amount_x: u64, amount_y: u64, supply: u64)
    ensures
        deposit_lp_outcome(amount_x, amount_y, 0, 0, supply) matches Ok(lp) && is_floor_sqrt(
            amount_x * amount_y,
            lp as int,
        ),
        amount_x > 0 && amount_y > 0 ==> (deposit_lp_outcome(amount_x, amount_y, 0, 0, supply) matches Ok(
            lp,
        ) && lp > 0),
{
    let n = amount_x * amount_y;
    assert(n >= 0 && n <= u64::MAX as int * u64::MAX as int) by (nonlinear_arith)
        requires
            n == amount_x * amount_y,
            amount_x <= u64::MAX,
            amount_y <= u64::MAX,
    ;
    lemma_floor_sqrt_exists(n);
    let r = floor_sqrt(n);
    if r > u64::MAX {
        assert(0x1_0000_0000_0000_0000 * 0x1_0000_0000_0000_0000 <= r * r) by (nonlinear_arith)
            requires
                r >= 0x1_0000_0000_0000_0000,
        ;
    }
    assert(lp_owed(amount_x as int, amount_y as int, 0, 0, supply as int) == r);
    if amount_x > 0 && amount_y > 0 {
        assert(n >= 1) by (nonlinear_arith)
            requires
                n == amount_x * amount_y,
                amount_x >= 1,
                amount_y >= 1,
        ;
        if r == 0 {
            assert((r + 1) * (r + 1) == 1) by (nonlinear_arith)
                requires
                    r == 0,
            ;
        }
    }
}

/// A deposit into a pool with supply and two non-empty reserves mints the
/// smaller of the two proportional shares, so neither side earns more of the
/// supply than it adds to its reserve: `lp * reserve_x <= amount_x * supply`
/// and `lp * reserve_y <= amount_y * supply`.
pub proof fn lemma_later_deposit_is_proportional(
    amount_x: u64,
    amount_y: u64,
    reserve_x: u64,
    reserve_y: u64,
    supply: u64,
)
    requires
        supply > 0,
        reserve_x > 0,
        reserve_y > 0,
    ensures
        ({
            let from_x = share_of(amount_x as int, supply as int, reserve_x as int);
            let from_y = share_of(amount_y as int, supply as int, reserve_y as int);
            let lp = if from_x <= from_y {
                from_x
            } else {
                from_y
            };
            &&& lp <= u64::MAX ==> deposit_lp_outcome(amount_x, amount_y, reserve_x, reserve_y, supply)
                == Ok::<u64, AmmError>(lp as u64)
            &&& lp > u64::MAX ==> deposit_lp_outcome(amount_x, amount_y, reserve_x, reserve_y, supply)
                == Err::<u64, AmmError>(AmmError::ArithmeticOverflow)
            &&& lp * reserve_x <= amount_x * supply
            &&& lp * reserve_y <= amount_y * supply
        }),
{
    let (ax, ay, rx, ry, s) = (amount_x as int, amount_y as int, reserve_x as int, reserve_y as int, supply as int);
    let from_x = share_of(ax, s, rx);
    let from_y = share_of(ay, s, ry);
    assert(from_x * rx <= ax * s && from_x >= 0) by (nonlinear_arith)
        requires
            from_x == ax * s / rx,
            rx > 0,
            ax >= 0,
            s >= 0,
    ;
    assert(from_y * ry <= ay * s && from_y >= 0) by (nonlinear_arith)
        requires
            from_y == ay * s / ry,
            ry > 0,
            ay >= 0,
            s >= 0,
    ;
    if from_x <= from_y {
        assert(from_x * ry <= from_y * ry) by (nonlinear_arith)
            requires
                from_x <= from_y,
                ry > 0,
        ;
    } else {
        assert(from_y * rx <= from_x * rx) by (nonlinear_arith)
            requires
                from_y <= from_x,
                rx > 0,
        ;
    }
}

/// A swap that goes through pays out strictly less than the output reserve,
/// and the product of the reserves does not decrease.
pub proof fn lemma_swap_keeps_product(pool: PoolState, amount_in: u64, min_amount_out: u64, x_to_y: bool)
    requires
        pool.wf(),
        swap_outcome_of(pool, amount_in, min_amount_out, x_to_y) is Ok,
    ensures
        ({
            let out = swap_outcome_of(pool, amount_in, min_amount_out, x_to_y)->Ok_0;
            let next = after_swap(pool, amount_in, min_amount_out, x_to_y);
            &&& out < reserves_in_out(pool, x_to_y).1
            &&& next.reserve_x * next.reserve_y >= pool.reserve_x * pool.reserve_y
        }),
{
    let (reserve_in, reserve_out) = reserves_in_out(pool, x_to_y);
    lemma_swap_output_bounds(amount_in as int, reserve_in as int, reserve_out as int, pool.config.fee_bps as int);
    let next = after_swap(pool, amount_in, min_amount_out, x_to_y);
    if !x_to_y {
        assert(next.reserve_x * next.reserve_y == next.reserve_y * next.reserve_x) by (nonlinear_arith);
        assert(pool.reserve_x * pool.reserve_y == pool.reserve_y * pool.reserve_x) by (nonlinear_arith);
    }
}

/// A rejected deposit or swap leaves the pool as it was, so submitting the
/// same operation again is rejected with the same error.
pub proof fn lemma_rejection_repeats(
    pool: PoolState,
    amount_x: u64,
    amount_y: u64,
    min_lp: u64,
    amount_in: u64,
    min_amount_out: u64,
    x_to_y: bool,
)
    ensures
        deposit_outcome(pool, amount_x, amount_y, min_lp) is Err ==> {
            &&& after_deposit(pool, amount_x, amount_y, min_lp) == pool
            &&& deposit_outcome(after_deposit(pool, amount_x, amount_y, min_lp), amount_x, amount_y, min_lp)
                == deposit_outcome(pool, amount_x, amount_y, min_lp)
        },
        swap_outcome_of(pool, amount_in, min_amount_out, x_to_y) is Err ==> {
            &&& after_swap(pool, amount_in, min_amount_out, x_to_y) == pool
            &&& swap_outcome_of(after_swap(pool, amount_in, min_amount_out, x_to_y), amount_in, min_amount_out, x_to_y)
                == swap_outcome_of(pool, amount_in, min_amount_out, x_to_y)
        },
{
}

} // verus!
