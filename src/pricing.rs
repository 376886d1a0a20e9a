//! The pricing and liquidity engine: integer square root, LP-mint amounts and
//! the fee-adjusted constant-product swap output. All divisions are floor
//! divisions, so rounding never favours the depositor or the trader.
use vstd::prelude::*;

use crate::error::AmmError;

verus! {

/// The fee denominator: fees are given in basis points.
pub const BPS_DENOMINATOR: u64 = 10000;

/// `r` is the floor of the square root of `n`.
pub open spec fn is_floor_sqrt(n: int, r: int) -> bool {
    &&& r >= 0
    &&& r * r <= n
    &&& n < (r + 1) * (r + 1)
}

/// The floor of the square root of `n`.
pub open spec fn floor_sqrt(n: int) -> int {
    choose|r: int| is_floor_sqrt(n, r)
}

/// The floor square root is unique.
pub proof fn lemma_floor_sqrt_unique(n: int, r1: int, r2: int)
    requires
        is_floor_sqrt(n, r1),
        is_floor_sqrt(n, r2),
    ensures
        r1 == r2,
{
    if r1 < r2 {
        assert((r1 + 1) * (r1 + 1) <= r2 * r2) by (nonlinear_arith)
            requires
                0 <= r1 + 1 <= r2,
        ;
    } else if r2 < r1 {
        assert((r2 + 1) * (r2 + 1) <= r1 * r1) by (nonlinear_arith)
            requires
                0 <= r2 + 1 <= r1,
        ;
    }
}

/// A witness of the floor square root is the floor square root.
pub proof fn lemma_floor_sqrt_is(n: int, r: int)
    requires
        is_floor_sqrt(n, r),
    ensures
        floor_sqrt(n) == r,
{
    assert(exists|x: int| is_floor_sqrt(n, x));
    lemma_floor_sqrt_unique(n, floor_sqrt(n), r);
}

/// `floor((a + b) / 2)` without forming `a + b`.
pub fn avg_floor(a: u128, b: u128) -> (r: u128)
    ensures
        r == (a + b) / 2,
{
    a / 2 + b / 2 + (a % 2 + b % 2) / 2
}

/// Newton's step never goes below any `r` with `r * r <= n`.
proof fn lemma_newton_stays_above(n: int, x: int, r: int)
    requires
        x >= 1,
        r >= 0,
        r * r <= n,
    ensures
        r <= (x + n / x) / 2,
{
    let q = n / x;
    assert(n < (q + 1) * x) by (nonlinear_arith)
        requires
            x >= 1,
            q == n / x,
    ;
    if r > (x + q) / 2 {
        assert(2 * r >= x + q + 1);
        assert(4 * (x * (q + 1)) <= (x + q + 1) * (x + q + 1)) by (nonlinear_arith);
        assert((x + q + 1) * (x + q + 1) <= 4 * (r * r)) by (nonlinear_arith)
            requires
                2 * r >= x + q + 1,
                x + q + 1 >= 0,
        ;
        assert((q + 1) * x == x * (q + 1)) by (nonlinear_arith);
        assert(false);
    }
}

/// When Newton's step does not go down, `x * x <= n`.
proof fn lemma_newton_fixed(n: int, x: int)
    requires
        x >= 1,
        n >= 0,
        (x + n / x) / 2 >= x,
    ensures
        x * x <= n,
{
    let q = n / x;
    assert(q * x <= n) by (nonlinear_arith)
        requires
            x >= 1,
            n >= 0,
            q == n / x,
    ;
    assert(q >= x);
    assert(x * x <= q * x) by (nonlinear_arith)
        requires
            x <= q,
            x >= 1,
    ;
}

/// The floor of the square root of `n`, by Newton's method on integers.
pub fn isqrt(n: u128) -> (r: u128)
    ensures
        is_floor_sqrt(n as int, r as int),
        r as int == floor_sqrt(n as int),
{
    if n <= 1 {
        assert(is_floor_sqrt(n as int, n as int)) by (nonlinear_arith)
            requires
                n <= 1,
        ;
        proof {
            lemma_floor_sqrt_is(n as int, n as int);
        }
        return n;
    }
    let mut x: u128 = n;
    let mut y: u128 = avg_floor(x, 1);
    proof {
        assert(n as int / n as int == 1) by (nonlinear_arith)
            requires
                n >= 2,
        ;
        assert forall|r: int| r >= 0 && #[trigger] (r * r) <= n implies r <= n by {
            if r > n {
                assert(r <= r * r) by (nonlinear_arith)
                    requires
                        r >= 1,
                ;
            }
        }
    }
    while y < x
        invariant
            n >= 2,
            x >= 1,
            y as int == (x as int + n as int / x as int) / 2,
            forall|r: int| r >= 0 && #[trigger] (r * r) <= n ==> r <= x,
        decreases x,
    {
        proof {
            assert forall|r: int| r >= 0 && #[trigger] (r * r) <= n implies r <= y by {
                lemma_newton_stays_above(n as int, x as int, r);
            }
            lemma_newton_stays_above(n as int, x as int, 1);
        }
        x = y;
        y = avg_floor(x, n / x);
    }
    proof {
        lemma_newton_fixed(n as int, x as int);
        let r = x as int + 1;
        if r * r <= n {
            assert(r <= x);
        }
        assert(is_floor_sqrt(n as int, x as int));
        lemma_floor_sqrt_is(n as int, x as int);
    }
    x
}

/// The input credited to pricing once the fee is taken:
/// `floor(amount_in * (10000 - fee_bps) / 10000)`.
pub open spec fn after_fee(amount_in: int, fee_bps: int) -> int {
    amount_in * (10000 - fee_bps) / 10000
}

/// The constant-product output for `amount_in` against the reserves, the fee
/// retained in the input reserve: `floor(reserve_out * a / (reserve_in + a))`
/// with `a` the input after fee.
pub open spec fn swap_output(amount_in: int, reserve_in: int, reserve_out: int, fee_bps: int) -> int {
    let a = after_fee(amount_in, fee_bps);
    reserve_out * a / (reserve_in + a)
}

/// LP tokens minted for one side of a deposit into a pool with supply.
pub open spec fn share_of(amount: int, supply: int, reserve: int) -> int {
    amount * supply / reserve
}

/// A deposit is the first one: nothing is supplied yet, or both reserves are empty.
pub open spec fn is_initial_deposit(reserve_x: int, reserve_y: int, supply: int) -> bool {
    supply == 0 || (reserve_x == 0 && reserve_y == 0)
}

/// The LP tokens a deposit earns, before any bound on the result is applied.
pub open spec fn lp_owed(amount_x: int, amount_y: int, reserve_x: int, reserve_y: int, supply: int) -> int {
    if is_initial_deposit(reserve_x, reserve_y, supply) {
        floor_sqrt(amount_x * amount_y)
    } else {
        let from_x = share_of(amount_x, supply, reserve_x);
        let from_y = share_of(amount_y, supply, reserve_y);
        if from_x <= from_y { from_x } else { from_y }
    }
}

/// The outcome of pricing a deposit: the LP amount, or why there is none.
pub open spec fn deposit_lp_outcome(
    amount_x: u64,
    amount_y: u64,
    reserve_x: u64,
    reserve_y: u64,
    supply: u64,
) -> Result<u64, AmmError> {
    if !is_initial_deposit(reserve_x as int, reserve_y as int, supply as int) && (reserve_x == 0
        || reserve_y == 0) {
        Err(AmmError::InsufficientLiquidity)
    } else if lp_owed(amount_x as int, amount_y as int, reserve_x as int, reserve_y as int, supply as int)
        > u64::MAX {
        Err(AmmError::ArithmeticOverflow)
    } else {
        Ok(lp_owed(amount_x as int, amount_y as int, reserve_x as int, reserve_y as int, supply as int) as u64)
    }
}

/// `floor(amount * supply / reserve)` computed in 128 bits.
pub fn proportional_lp(amount: u64, supply: u64, reserve: u64) -> (r: u128)
    requires
        reserve > 0,
    ensures
        r as int == share_of(amount as int, supply as int, reserve as int),
{
    proof {
        assert(amount as int * supply as int <= u64::MAX as int * u64::MAX as int) by (nonlinear_arith)
            requires
                amount <= u64::MAX,
                supply <= u64::MAX,
        ;
    }
    (amount as u128 * supply as u128) / reserve as u128
}

/// The number of LP tokens a deposit of `amount_x` and `amount_y` earns.
/// The first deposit earns `floor(sqrt(amount_x * amount_y))`; later ones earn
/// the smaller of the two proportional shares of the supply.
pub fn deposit_lp_amount(amount_x: u64, amount_y: u64, reserve_x: u64, reserve_y: u64, supply: u64) -> (r:
    Result<u64, AmmError>)
    ensures
        r == deposit_lp_outcome(amount_x, amount_y, reserve_x, reserve_y, supply),
{
    if supply == 0 || (reserve_x == 0 && reserve_y == 0) {
        proof {
            assert(amount_x as int * amount_y as int <= u64::MAX as int * u64::MAX as int)
                by (nonlinear_arith)
                requires
                    amount_x <= u64::MAX,
                    amount_y <= u64::MAX,
            ;
        }
        let root = isqrt(amount_x as u128 * amount_y as u128);
        proof {
            let n = amount_x as int * amount_y as int;
            if root > u64::MAX {
                assert(0x1_0000_0000_0000_0000 * 0x1_0000_0000_0000_0000 <= root as int * root as int)
                    by (nonlinear_arith)
                    requires
                        root >= 0x1_0000_0000_0000_0000,
                ;
                assert(false);
            }
        }
        Ok(root as u64)
    } else if reserve_x == 0 || reserve_y == 0 {
        Err(AmmError::InsufficientLiquidity)
    } else {
        let from_x = proportional_lp(amount_x, supply, reserve_x);
        let from_y = proportional_lp(amount_y, supply, reserve_y);
        let lp = if from_x <= from_y {
            from_x
        } else {
            from_y
        };
        if lp > u64::MAX as u128 {
            Err(AmmError::ArithmeticOverflow)
        } else {
            Ok(lp as u64)
        }
    }
}

/// `floor(amount_in * (10000 - fee_bps) / 10000)`.
pub fn amount_after_fee(amount_in: u64, fee_bps: u16) -> (r: u64)
    requires
        fee_bps < 10000,
    ensures
        r as int == after_fee(amount_in as int, fee_bps as int),
        r <= amount_in,
{
    let keep = (BPS_DENOMINATOR - fee_bps as u64) as u128;
    proof {
        assert(amount_in as int * keep as int <= amount_in as int * 10000) by (nonlinear_arith)
            requires
                keep <= 10000,
        ;
        assert(amount_in as int * keep as int / 10000 <= amount_in as int) by (nonlinear_arith)
            requires
                keep <= 10000,
                amount_in >= 0,
        ;
    }
    ((amount_in as u128 * keep) / BPS_DENOMINATOR as u128) as u64
}

/// The outcome of pricing a swap.
pub open spec fn swap_outcome(amount_in: u64, reserve_in: u64, reserve_out: u64, fee_bps: u16) -> Result<
    u64,
    AmmError,
> {
    if reserve_in == 0 || reserve_out == 0 {
        Err(AmmError::InsufficientLiquidity)
    } else {
        Ok(swap_output(amount_in as int, reserve_in as int, reserve_out as int, fee_bps as int) as u64)
    }
}

/// The output is strictly below the output reserve, and the product of the
/// reserves does not go down once the full input is credited.
pub proof fn lemma_swap_output_bounds(amount_in: int, reserve_in: int, reserve_out: int, fee_bps: int)
    requires
        0 <= fee_bps < 10000,
        amount_in >= 0,
        reserve_in > 0,
        reserve_out > 0,
    ensures
        0 <= swap_output(amount_in, reserve_in, reserve_out, fee_bps) < reserve_out,
        (reserve_in + amount_in) * (reserve_out - swap_output(amount_in, reserve_in, reserve_out, fee_bps))
            >= reserve_in * reserve_out,
{
    let a = after_fee(amount_in, fee_bps);
    let d = reserve_in + a;
    let out = swap_output(amount_in, reserve_in, reserve_out, fee_bps);
    assert(0 <= a <= amount_in) by (nonlinear_arith)
        requires
            a == amount_in * (10000 - fee_bps) / 10000,
            0 <= fee_bps < 10000,
            amount_in >= 0,
    ;
    assert(out * d <= reserve_out * a && out >= 0) by (nonlinear_arith)
        requires
            out == reserve_out * a / d,
            d > 0,
            a >= 0,
            reserve_out > 0,
    ;
    assert(out < reserve_out) by (nonlinear_arith)
        requires
            out * d <= reserve_out * a,
            a < d,
            d > 0,
            reserve_out > 0,
    ;
    assert((reserve_in + amount_in) * (reserve_out - out) >= d * (reserve_out - out)) by (nonlinear_arith)
        requires
            amount_in >= a,
            reserve_out - out >= 0,
            d == reserve_in + a,
    ;
    assert(d * (reserve_out - out) >= reserve_in * reserve_out) by (nonlinear_arith)
        requires
            out * d <= reserve_out * a,
            d == reserve_in + a,
    ;
}

/// The output of swapping `amount_in` into a pool with the given reserves and
/// fee rate. Fails with `InsufficientLiquidity` when a reserve is empty.
pub fn swap_amount_out(amount_in: u64, reserve_in: u64, reserve_out: u64, fee_bps: u16) -> (r: Result<
    u64,
    AmmError,
>)
    requires
        fee_bps < 10000,
    ensures
        r == swap_outcome(amount_in, reserve_in, reserve_out, fee_bps),
        r matches Ok(out) ==> out < reserve_out,
{
    if reserve_in == 0 || reserve_out == 0 {
        return Err(AmmError::InsufficientLiquidity);
    }
    let a = amount_after_fee(amount_in, fee_bps);
    proof {
        assert(reserve_out as int * a as int <= u64::MAX as int * u64::MAX as int) by (nonlinear_arith)
            requires
                reserve_out <= u64::MAX,
                a <= u64::MAX,
        ;
        lemma_swap_output_bounds(amount_in as int, reserve_in as int, reserve_out as int, fee_bps as int);
    }
    let out = (reserve_out as u128 * a as u128) / (reserve_in as u128 + a as u128);
    if out >= reserve_out as u128 {
        return Err(AmmError::InsufficientLiquidity);
    }
    Ok(out as u64)
}

} // verus!
