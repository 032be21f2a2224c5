//! Fixed-point helpers: scaled multiply/divide and the integer square root.
use vstd::prelude::*;

verus! {

/// Fixed-point scale factor (10^14).
pub const SCALE: i128 = 100_000_000_000_000;

/// Basis-point denominator.
pub const BPS_DENOMINATOR: i128 = 10_000;

/// Shares locked forever on the first deposit into an empty pool.
pub const MINIMUM_LIQUIDITY: i128 = 1_000;

/// Whether an integer is representable as an `i128`.
pub open spec fn fits_i128(x: int) -> bool {
    i128::MIN <= x <= i128::MAX
}

pub open spec fn abs_int(x: int) -> int {
    if x >= 0 { x } else { -x }
}

/// Integer division rounding toward zero, as Rust's `/` does.
pub open spec fn div_trunc(x: int, d: int) -> int {
    if (x >= 0) == (d > 0) {
        abs_int(x) / abs_int(d)
    } else {
        -(abs_int(x) / abs_int(d))
    }
}

/// `r` is the integer square root of `v`: the largest `r` with `r * r <= v`.
pub open spec fn is_isqrt(r: int, v: int) -> bool {
    r >= 0 && r * r <= v && v < (r + 1) * (r + 1)
}

/// The integer square root of `v`, zero for `v <= 0`.
pub open spec fn isqrt_spec(v: int) -> int {
    if v <= 0 {
        0
    } else {
        choose|r: int| is_isqrt(r, v)
    }
}

/// At most one integer is the square root of `v`.
pub proof fn lemma_isqrt_unique(r1: int, r2: int, v: int)
    requires
        is_isqrt(r1, v),
        is_isqrt(r2, v),
    ensures
        r1 == r2,
{
    if r1 < r2 {
        assert((r1 + 1) * (r1 + 1) <= r2 * r2) by (nonlinear_arith)
            requires 0 <= r1 < r2;
    } else if r2 < r1 {
        assert((r2 + 1) * (r2 + 1) <= r1 * r1) by (nonlinear_arith)
            requires 0 <= r2 < r1;
    }
}

/// What `mul_div` returns: `a * b / d` rounded toward zero, or nothing when
/// `d` is zero or a step leaves the `i128` range.
pub open spec fn mul_div_spec(a: int, b: int, d: int) -> Option<int> {
    if d == 0 || !fits_i128(a * b) || !fits_i128(div_trunc(a * b, d)) {
        None
    } else {
        Some(div_trunc(a * b, d))
    }
}

/// Multiplies two values and divides by `denominator`, rounding toward zero.
/// Returns `None` for a zero denominator or when the product overflows.
pub fn mul_div(a: i128, b: i128, denominator: i128) -> (r: Option<i128>)
    ensures
        match r {
            Some(v) => mul_div_spec(a as int, b as int, denominator as int) == Some(v as int),
            None => mul_div_spec(a as int, b as int, denominator as int) is None,
        },
{
    if denominator == 0 {
        return None;
    }
    match a.checked_mul(b) {
        Some(p) => p.checked_div(denominator),
        None => None,
    }
}

proof fn lemma_newton_stays_above(v: int, x: int, q: int, y: int)
    requires
        v >= 1,
        x >= 1,
        q == v / x,
        y == (x + q) / 2,
    ensures
        v < (y + 1) * (y + 1),
{
    let t = y + 1;
    if t * t <= v {
        assert(x * q <= v && v < x * q + x) by (nonlinear_arith)
            requires q == v / x, x >= 1, v >= 1;
        assert(x + q <= 2 * t - 1);
        assert(x * (x + q) <= x * (2 * t - 1)) by (nonlinear_arith)
            requires x + q <= 2 * t - 1, x >= 1;
        assert((x - t) * (x - t) >= 0) by (nonlinear_arith);
        assert(false) by (nonlinear_arith)
            requires
                x * (x + q) <= x * (2 * t - 1),
                v < x * q + x,
                t * t <= v,
                (x - t) * (x - t) >= 0,
        ;
    }
}

proof fn lemma_newton_exit(v: int, x: int, q: int, y: int)
    requires
        v >= 1,
        x >= 1,
        q == v / x,
        y == (x + q) / 2,
        y >= x,
    ensures
        x * x <= v,
{
    if x * x > v {
        assert(q < x) by (nonlinear_arith)
            requires q == v / x, x >= 1, v >= 0, x * x > v;
    }
}

proof fn lemma_newton_sum_fits(v: int, x: int, q: int)
    requires
        1 <= v <= i128::MAX,
        1 <= x <= (v + 1) / 2,
        v < (x + 1) * (x + 1),
        q == v / x,
    ensures
        x + q <= i128::MAX,
{
    if x == 1 {
        assert(v < 4) by (nonlinear_arith)
            requires x == 1, v < (x + 1) * (x + 1);
    } else {
        assert(q <= v / 2) by (nonlinear_arith)
            requires q == v / x, x >= 2, v >= 0;
    }
}

/// Integer square root by Newton's iteration; zero for inputs `<= 0`.
pub fn sqrt(value: i128) -> (r: i128)
    ensures
        value <= 0 ==> r == 0,
        value > 0 ==> is_isqrt(r as int, value as int),
        r == isqrt_spec(value as int),
{
    if value <= 0 {
        return 0;
    }
    let v = value;
    let mut x: i128 = v;
    let mut y: i128 = v / 2 + v % 2;
    assert(y == (v + 1) / 2);
    assert(v < (y + 1) * (y + 1)) by (nonlinear_arith)
        requires y == (v + 1) / 2, v >= 1;
    assert(v < (x + 1) * (x + 1)) by (nonlinear_arith)
        requires x == v, v >= 1;
    while y < x
        invariant
            v == value,
            v >= 1,
            1 <= x <= v,
            1 <= y <= (v + 1) / 2,
            v < (x + 1) * (x + 1),
            v < (y + 1) * (y + 1),
            (x == v && y == (v + 1) / 2) || y == (x + v / x) / 2,
        decreases x,
    {
        x = y;
        let q = v / x;
        proof {
            lemma_newton_sum_fits(v as int, x as int, q as int);
            lemma_newton_stays_above(v as int, x as int, q as int, (x + q) / 2);
        }
        y = (x + q) / 2;
        proof {
            if x >= 2 {
                assert(q <= v / 2) by (nonlinear_arith)
                    requires q == v / x, x >= 2, v >= 0;
            }
        }
    }
    proof {
        if x == v && y == (v + 1) / 2 {
            assert(x * x <= v) by (nonlinear_arith)
                requires x == v, y == (v + 1) / 2, y >= x, v >= 1;
        } else {
            lemma_newton_exit(v as int, x as int, v as int / x as int, y as int);
        }
        assert(is_isqrt(x as int, v as int));
        let c = choose|r: int| is_isqrt(r, v as int);
        lemma_isqrt_unique(c, x as int, v as int);
    }
    x
}

} // verus!
