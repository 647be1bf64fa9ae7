//! Integer arithmetic shared by the pools: the floor square root computed by
//! Newton's iteration, and the facts about floor division that the pool
//! formulas rest on.
use vstd::prelude::*;
use vstd::arithmetic::div_mod::lemma_fundamental_div_mod;

verus! {

/// `r` is the floor of the square root of `n`.
pub open spec fn is_isqrt(r: int, n: int) -> bool {
    &&& 0 <= r
    &&& r * r <= n
    &&& n < (r + 1) * (r + 1)
}

/// The floor square root of a natural number.
pub open spec fn floor_sqrt(n: int) -> int {
    choose|r: int| is_isqrt(r, n)
}

/// Any floor square root is the one `floor_sqrt` names.
pub proof fn lemma_floor_sqrt_is(r: int, n: int)
    requires
        is_isqrt(r, n),
    ensures
        floor_sqrt(n) == r,
{
    let c = choose|c: int| is_isqrt(c, n);
    lemma_isqrt_unique(c, r, n);
}

/// Every natural number has a floor square root, so `floor_sqrt` names one.
pub proof fn lemma_floor_sqrt_exists(n: int)
    requires
        n >= 0,
    ensures
        is_isqrt(floor_sqrt(n), n),
    decreases n,
{
    if n == 0 {
        assert(is_isqrt(0, 0));
        lemma_floor_sqrt_is(0, 0);
    } else {
        lemma_floor_sqrt_exists(n - 1);
        let r = floor_sqrt(n - 1);
        if (r + 1) * (r + 1) <= n {
            assert(n < (r + 2) * (r + 2)) by (nonlinear_arith)
                requires
                    n - 1 < (r + 1) * (r + 1),
                    r >= 0,
            ;
            assert(is_isqrt(r + 1, n));
            lemma_floor_sqrt_is(r + 1, n);
        } else {
            assert(is_isqrt(r, n));
            lemma_floor_sqrt_is(r, n);
        }
    }
}

/// A 128-bit number cut to its low 64 bits is no larger than it was.
pub proof fn lemma_low_bits_at_most(x: int)
    requires
        0 <= x <= u128::MAX,
    ensures
        0 <= x as u64 <= x,
{
    let y = x as u128;
    assert(y == x);
    assert(y as u64 <= y) by (bit_vector);
}

/// A product of two 64-bit numbers fits in 128 bits, and its floor square
/// root fits in 64 bits.
pub proof fn lemma_u64_product(a: u64, b: u64)
    ensures
        (a as int) * (b as int) <= (u64::MAX as int) * (u64::MAX as int),
        (u64::MAX as int) * (u64::MAX as int) < u128::MAX,
        forall|r: int| #[trigger] is_isqrt(r, (a as int) * (b as int)) ==> r <= u64::MAX,
{
    assert((a as int) * (b as int) <= (u64::MAX as int) * (u64::MAX as int)) by (nonlinear_arith)
        requires
            0 <= a <= u64::MAX,
            0 <= b <= u64::MAX,
    ;
    assert forall|r: int| #[trigger] is_isqrt(r, (a as int) * (b as int)) implies r <= u64::MAX by {
        if r > u64::MAX {
            assert(r * r > (u64::MAX as int) * (u64::MAX as int)) by (nonlinear_arith)
                requires
                    r > u64::MAX,
            ;
        }
    }
}

/// The floor square root of the product of two 64-bit numbers exists and
/// fits in 64 bits.
pub proof fn lemma_root_of_product(a: u64, b: u64)
    ensures
        is_isqrt(floor_sqrt(a * b), a * b),
        floor_sqrt(a * b) <= u64::MAX,
{
    assert(a * b >= 0) by (nonlinear_arith);
    lemma_floor_sqrt_exists(a * b);
    lemma_u64_product(a, b);
}

/// One Newton step towards the square root of `n`, from the guess `y`.
pub open spec fn newton_step(n: int, y: int) -> int {
    (y + n / y) / 2
}

/// Quotient and remainder of a division by a positive divisor.
pub proof fn lemma_div_bounds(n: int, d: int)
    requires
        n >= 0,
        d >= 1,
    ensures
        (n / d) * d <= n,
        n < (n / d + 1) * d,
        n / d >= 0,
{
    lemma_fundamental_div_mod(n, d);
    assert((n / d) * d <= n && n < (n / d + 1) * d && n / d >= 0) by (nonlinear_arith)
        requires
            n == d * (n / d) + (n % d),
            0 <= n % d < d,
            d >= 1,
            n >= 0,
    {
        assert(d * (n / d) == (n / d) * d);
        assert((n / d + 1) * d == (n / d) * d + d);
        if n / d < 0 {
            assert((n / d) * d <= -d);
        }
    }
}

/// A Newton step never lands below the floor square root.
pub proof fn lemma_newton_step_above(n: int, y: int)
    requires
        n >= 0,
        y >= 1,
    ensures
        n < (newton_step(n, y) + 1) * (newton_step(n, y) + 1),
{
    let q = n / y;
    let t = newton_step(n, y);
    lemma_div_bounds(n, y);
    assert(2 * (t + 1) >= y + q + 1);
    assert(n < (t + 1) * (t + 1)) by (nonlinear_arith)
        requires
            n < (q + 1) * y,
            2 * (t + 1) >= y + q + 1,
            y >= 1,
            q >= 0,
    {
        let a = y;
        let b = q + 1;
        assert((a + b) * (a + b) - 4 * (a * b) == (a - b) * (a - b));
        assert((a - b) * (a - b) >= 0);
        assert(4 * ((t + 1) * (t + 1)) == (2 * (t + 1)) * (2 * (t + 1)));
        assert((2 * (t + 1)) * (2 * (t + 1)) >= (a + b) * (a + b));
    }
}

/// Above the square root, a Newton step strictly decreases the guess.
pub proof fn lemma_newton_step_decreases(n: int, z: int)
    requires
        n >= 0,
        z >= 1,
        z * z > n,
    ensures
        newton_step(n, z) < z,
{
    let q = n / z;
    lemma_div_bounds(n, z);
    assert(q < z) by (nonlinear_arith)
        requires
            q * z <= n,
            n < z * z,
            z >= 1,
    {
        if q >= z {
            assert(q * z >= z * z);
        }
    }
}

/// The sum that a Newton step halves stays within `n + 1`.
pub proof fn lemma_newton_sum_bound(n: int, y: int)
    requires
        1 <= y <= n,
    ensures
        y + n / y <= n + 1,
        n / y >= 1,
{
    let q = n / y;
    lemma_div_bounds(n, y);
    assert(q >= 1) by (nonlinear_arith)
        requires
            n < (q + 1) * y,
            y <= n,
            y >= 1,
            q >= 0,
    {
        if q == 0 {
            assert((q + 1) * y == y);
        }
    }
    assert(y + q <= n + 1) by (nonlinear_arith)
        requires
            q * y <= n,
            y >= 1,
            q >= 1,
    {
        assert((y - 1) * (q - 1) >= 0);
        assert((y - 1) * (q - 1) == q * y - y - q + 1);
    }
}

/// The floor square root is unique.
pub proof fn lemma_isqrt_unique(r1: int, r2: int, n: int)
    requires
        is_isqrt(r1, n),
        is_isqrt(r2, n),
    ensures
        r1 == r2,
{
    if r1 < r2 {
        assert((r1 + 1) * (r1 + 1) <= r2 * r2) by (nonlinear_arith)
            requires
                0 <= r1 + 1 <= r2,
        {
            assert((r1 + 1) * (r1 + 1) <= (r1 + 1) * r2);
            assert((r1 + 1) * r2 <= r2 * r2);
        }
    } else if r2 < r1 {
        assert((r2 + 1) * (r2 + 1) <= r1 * r1) by (nonlinear_arith)
            requires
                0 <= r2 + 1 <= r1,
        {
            assert((r2 + 1) * (r2 + 1) <= (r2 + 1) * r1);
            assert((r2 + 1) * r1 <= r1 * r1);
        }
    }
}

/// Floor square root by Newton's iteration: the guess starts at `n`, the next
/// guess at `(n + 1) / 2`, and the iteration stops as soon as the next guess
/// no longer decreases.
pub fn newton_isqrt(n: u128) -> (r: u128)
    requires
        n < u128::MAX,
    ensures
        is_isqrt(r as int, n as int),
        r == floor_sqrt(n as int),
{
    let mut z: u128 = n;
    let mut y: u128 = (n + 1) / 2;
    if n >= 1 {
        assert(n / n == 1) by (nonlinear_arith)
            requires
                n >= 1,
        ;
        assert((n as int + 1) * (n as int + 1) > n) by (nonlinear_arith)
            requires
                n >= 1,
        ;
    }
    while y < z
        invariant
            n < u128::MAX,
            n == 0 ==> z == 0 && y == 0,
            n >= 1 ==> 1 <= z <= n,
            n >= 1 ==> y == newton_step(n as int, z as int),
            n >= 1 ==> (n as int) < (z as int + 1) * (z as int + 1),
        decreases z,
    {
        proof {
            lemma_newton_step_above(n as int, z as int);
            assert((y as int) >= 1) by (nonlinear_arith)
                requires
                    (n as int) < (y as int + 1) * (y as int + 1),
                    n >= 1,
                    y >= 0,
            {
                if y == 0 {
                    assert((y as int + 1) * (y as int + 1) == 1);
                }
            }
            lemma_newton_sum_bound(n as int, y as int);
        }
        z = y;
        y = (n / y + y) / 2;
    }
    proof {
        if n >= 1 {
            if (z as int) * (z as int) > n {
                lemma_newton_step_decreases(n as int, z as int);
            }
            assert((z as int) * (z as int) >= 0) by (nonlinear_arith);
        } else {
            assert(z == 0);
        }
        lemma_floor_sqrt_is(z as int, n as int);
    }
    z
}

} // verus!

verus! {

/// Below `n`, the sum that a Newton step halves stays within `n`.
pub proof fn lemma_newton_sum_tight(n: int, y: int)
    requires
        2 <= y <= n - 1,
    ensures
        y + n / y <= n,
{
    let q = n / y;
    lemma_div_bounds(n, y);
    lemma_newton_sum_bound(n, y);
    assert(y + q <= n) by (nonlinear_arith)
        requires
            q * y <= n,
            2 <= y <= n - 1,
            q >= 1,
    {
        if q >= 2 {
            assert((y - 1) * (q - 1) >= 1);
            assert((y - 1) * (q - 1) == q * y - y - q + 1);
        }
    }
}

} // verus!
