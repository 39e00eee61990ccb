//! Integer helpers shared by the projection code: floor division with a
//! positive divisor and an integer square root.

use vstd::prelude::*;
use vstd::arithmetic::div_mod::{lemma_fundamental_div_mod, lemma_fundamental_div_mod_converse};

verus! {

/// Magnitude cap on the dividend accepted by `div_floor`; far above anything
/// the projection arithmetic produces, far below the `i128` range.
pub const DIV_ARG_MAX: i128 = 0x4000_0000_0000_0000_0000_0000_0000_0000;

/// Floor division by a positive divisor.
///
/// Spec-level `/` on `int` rounds toward negative infinity when the divisor is
/// positive, while Rust's `/` truncates toward zero, so the two disagree on
/// negative dividends; this function computes the spec-level quotient.
pub fn div_floor(a: i128, b: i128) -> (q: i128)
    requires
        0 < b,
        -DIV_ARG_MAX < a < DIV_ARG_MAX,
    ensures
        q == a as int / b as int,
{
    if a >= 0 {
        let q0: u128 = (a as u128) / (b as u128);
        q0 as i128
    } else {
        let m: u128 = (-a) as u128;
        let bu: u128 = b as u128;
        let q0: u128 = m / bu;
        let r0: u128 = m % bu;
        proof {
            lemma_fundamental_div_mod(m as int, bu as int);
            assert(q0 <= m) by (nonlinear_arith)
                requires
                    m as int == bu as int * q0 as int + r0 as int,
                    bu >= 1,
                    r0 >= 0,
                    q0 >= 0;
        }
        if r0 == 0 {
            proof {
                assert(a as int == b as int * (-(q0 as int)) + 0) by (nonlinear_arith)
                    requires
                        m as int == bu as int * q0 as int + r0 as int,
                        a as int == -(m as int),
                        bu == b,
                        r0 == 0;
                lemma_fundamental_div_mod_converse(a as int, b as int, -(q0 as int), 0);
            }
            -(q0 as i128)
        } else {
            proof {
                assert(a as int == b as int * (-(q0 as int) - 1) + (b as int - r0 as int))
                    by (nonlinear_arith)
                    requires
                        m as int == bu as int * q0 as int + r0 as int,
                        a as int == -(m as int),
                        bu == b;
                lemma_fundamental_div_mod_converse(
                    a as int,
                    b as int,
                    -(q0 as int) - 1,
                    b as int - r0 as int,
                );
            }
            -(q0 as i128) - 1
        }
    }
}

/// Ceiling division by a positive divisor, as the negated floor of the
/// negated dividend.
pub open spec fn ceil_div(a: int, b: int) -> int {
    -((-a) / b)
}

/// Floor and ceiling respect order: the floor of a smaller value is at most
/// the ceiling of a larger one.
pub proof fn lemma_div_is_ordered_general(a: int, b: int, d: int)
    requires
        a <= b,
        d >= 1,
    ensures
        a / d <= ceil_div(b, d),
{
    vstd::arithmetic::div_mod::lemma_div_is_ordered(a, b, d);
    lemma_fundamental_div_mod(b, d);
    lemma_fundamental_div_mod(-b, d);
    assert(b / d <= -((-b) / d)) by (nonlinear_arith)
        requires
            b == d * (b / d) + b % d,
            0 <= b % d < d,
            -b == d * ((-b) / d) + (-b) % d,
            0 <= (-b) % d < d,
            d >= 1;
}

/// A product of two values bounded in magnitude is bounded by the product of
/// the magnitudes.
pub proof fn lemma_mul_bound(a: int, b: int, ma: int, mb: int)
    requires
        -ma <= a <= ma,
        -mb <= b <= mb,
        0 <= ma,
        0 <= mb,
    ensures
        -(ma * mb) <= a * b <= ma * mb,
{
    assert(-(ma * mb) <= a * b <= ma * mb) by (nonlinear_arith)
        requires
            -ma <= a <= ma,
            -mb <= b <= mb,
            0 <= ma,
            0 <= mb;
}

/// The integer square root: the unique `r` with `r * r <= n < (r + 1) * (r + 1)`.
pub open spec fn isqrt_spec(n: nat) -> nat {
    choose|r: nat| #[trigger] (r * r) <= n < (r + 1) * (r + 1)
}

/// The defining property of `isqrt_spec` pins its value down.
pub proof fn lemma_isqrt_unique(n: nat, r: nat)
    requires
        r * r <= n < (r + 1) * (r + 1),
    ensures
        isqrt_spec(n) == r,
{
    assert(exists|x: nat| #[trigger] (x * x) <= n < (x + 1) * (x + 1)) by {
        assert(r * r <= n < (r + 1) * (r + 1));
    }
    let w = isqrt_spec(n);
    assert(w * w <= n < (w + 1) * (w + 1));
    assert(w == r) by (nonlinear_arith)
        requires
            r * r <= n < (r + 1) * (r + 1),
            w * w <= n < (w + 1) * (w + 1);
}

/// A dividend within `[-m * d, m * d]` divided by `d` lands in `[-m, m]`.
pub proof fn lemma_div_range(x: int, m: int, d: int)
    requires
        d >= 1,
        0 <= m,
        -(m * d) <= x <= m * d,
    ensures
        -m <= x / d <= m,
{
    lemma_fundamental_div_mod(x, d);
    assert(-m <= x / d <= m) by (nonlinear_arith)
        requires
            x == d * (x / d) + (x % d),
            0 <= x % d < d,
            d >= 1,
            0 <= m,
            -(m * d) <= x <= m * d;
}

/// `isqrt_spec` satisfies its defining inequalities on every input.
pub proof fn lemma_isqrt_props(n: nat)
    ensures
        isqrt_spec(n) * isqrt_spec(n) <= n,
        n < (isqrt_spec(n) + 1) * (isqrt_spec(n) + 1),
    decreases n,
{
    if n == 0 {
        assert(exists|x: nat| #[trigger] (x * x) <= n < (x + 1) * (x + 1)) by {
            let z: nat = 0;
            assert(z * z <= n < (z + 1) * (z + 1)) by (nonlinear_arith)
                requires
                    n == 0,
                    z == 0;
        }
    } else {
        lemma_isqrt_props((n - 1) as nat);
        let r = isqrt_spec((n - 1) as nat);
        if (r + 1) * (r + 1) <= n {
            assert(exists|x: nat| #[trigger] (x * x) <= n < (x + 1) * (x + 1)) by {
                assert((r + 1) * (r + 1) <= n < (r + 2) * (r + 2)) by (nonlinear_arith)
                    requires
                        (r + 1) * (r + 1) <= n,
                        ((n - 1) as nat) < (r + 1) * (r + 1);
            }
        } else {
            assert(exists|x: nat| #[trigger] (x * x) <= n < (x + 1) * (x + 1)) by {
                assert(r * r <= n < (r + 1) * (r + 1));
            }
        }
    }
    let w = isqrt_spec(n);
    assert(w * w <= n < (w + 1) * (w + 1));
}

/// Integer square root by binary search.
pub fn isqrt(n: u128) -> (r: u64)
    ensures
        r * r <= n < (r + 1) * (r + 1),
        r == isqrt_spec(n as nat),
{
    let mut lo: u128 = 0;
    let mut hi: u128 = 0x1_0000_0000_0000_0000;
    while lo + 1 < hi
        invariant
            lo < hi <= 0x1_0000_0000_0000_0000,
            (lo as int) * (lo as int) <= n as int,
            (hi as int) * (hi as int) > n as int,
        decreases hi - lo,
    {
        let mid: u128 = lo + (hi - lo) / 2;
        assert(lo < mid < hi);
        proof {
            assert((mid as int) * (mid as int) < (0x1_0000_0000_0000_0000 as int) * (
            0x1_0000_0000_0000_0000 as int)) by (nonlinear_arith)
                requires
                    0 <= mid < 0x1_0000_0000_0000_0000;
        }
        if mid * mid <= n {
            lo = mid;
        } else {
            hi = mid;
        }
    }
    proof {
        lemma_isqrt_unique(n as nat, lo as nat);
    }
    lo as u64
}

} // verus!
