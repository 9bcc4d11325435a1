use vstd::prelude::*;

verus! {

use vstd::arithmetic::div_mod::{
    lemma_fundamental_div_mod, lemma_fundamental_div_mod_converse, lemma_div_is_ordered,
};

/// Largest magnitude accepted by the exact division helpers; wide enough that
/// every intermediate the rasterizer forms stays far inside `i128`.
pub const DIV_ARG_MAX: i128 = 0x4000000000000000000000000000;

/// Quotient of `n / d` rounded toward negative infinity; meaningful for `d > 0`,
/// where the Euclidean `/` of spec arithmetic is exactly floor division.
pub open spec fn floor_div(n: int, d: int) -> int {
    n / d
}

/// Quotient of `n / d` rounded toward positive infinity; meaningful for `d > 0`.
pub open spec fn ceil_div(n: int, d: int) -> int {
    (n + d - 1) / d
}

/// Quotient of `n / d` rounded to the nearest integer, halves toward positive
/// infinity; meaningful for `d > 0`.
pub open spec fn round_div(n: int, d: int) -> int {
    (2 * n + d) / (2 * d)
}

/// `v` clamped to the closed interval `[lo, hi]`.
pub open spec fn clamped(v: int, lo: int, hi: int) -> int {
    if v < lo {
        lo
    } else if v > hi {
        hi
    } else {
        v
    }
}

/// `|x * y|` is bounded by the product of bounds on `|x|` and `|y|`.
pub proof fn lemma_mul_bound(x: int, y: int, mx: int, my: int)
    by (nonlinear_arith)
    requires
        -mx <= x <= mx,
        -my <= y <= my,
        0 <= mx,
        0 <= my,
    ensures
        -(mx * my) <= x * y <= mx * my,
{
}

/// An integer `k` is at most `floor_div(n, d)` exactly when `k * d` is at most `n`.
pub proof fn lemma_floor_div_char(n: int, d: int, k: int)
    requires
        d > 0,
    ensures
        k <= floor_div(n, d) <==> k * d <= n,
{
    lemma_fundamental_div_mod(n, d);
    let q = n / d;
    let r = n % d;
    assert((k <= q ==> k * d <= n) && (k * d <= n ==> k <= q)) by (nonlinear_arith)
        requires
            n == d * q + r,
            0 <= r < d,
            d > 0,
    ;
}

/// Ceiling division is the negated floor division of the negated numerator.
pub proof fn lemma_ceil_div_neg_floor(n: int, d: int)
    requires
        d > 0,
    ensures
        ceil_div(n, d) == -floor_div(-n, d),
{
    lemma_fundamental_div_mod(-n, d);
    let q = (-n) / d;
    let r = (-n) % d;
    assert(n + d - 1 == (-q) * d + (d - 1 - r)) by (nonlinear_arith)
        requires
            -n == d * q + r,
    ;
    lemma_fundamental_div_mod_converse(n + d - 1, d, -q, d - 1 - r);
}

/// An integer `k` is at least `ceil_div(n, d)` exactly when `k * d` is at least `n`.
pub proof fn lemma_ceil_div_char(n: int, d: int, k: int)
    requires
        d > 0,
    ensures
        k >= ceil_div(n, d) <==> k * d >= n,
{
    lemma_ceil_div_neg_floor(n, d);
    lemma_floor_div_char(-n, d, -k);
    assert((-k) * d == -(k * d)) by (nonlinear_arith);
}

/// Floor division by a positive divisor is monotone in the numerator.
pub proof fn lemma_floor_div_mono(n1: int, n2: int, d: int)
    requires
        d > 0,
        n1 <= n2,
    ensures
        floor_div(n1, d) <= floor_div(n2, d),
{
    lemma_div_is_ordered(n1, n2, d);
}

/// Ceiling division by a positive divisor is monotone in the numerator.
pub proof fn lemma_ceil_div_mono(n1: int, n2: int, d: int)
    requires
        d > 0,
        n1 <= n2,
    ensures
        ceil_div(n1, d) <= ceil_div(n2, d),
{
    lemma_div_is_ordered(n1 + d - 1, n2 + d - 1, d);
}

/// Rounding an exact multiple of the divisor recovers the factor.
pub proof fn lemma_round_div_exact(a: int, d: int)
    requires
        d > 0,
    ensures
        round_div(a * d, d) == a,
{
    assert(2 * (a * d) + d == a * (2 * d) + d) by (nonlinear_arith);
    lemma_fundamental_div_mod_converse(2 * (a * d) + d, 2 * d, a, d);
}

/// A rounded quotient stays inside any pair of bounds that hold of the exact quotient.
pub proof fn lemma_round_div_range(n: int, d: int, lo: int, hi: int)
    requires
        d > 0,
        lo * d <= n,
        n <= hi * d,
    ensures
        lo <= round_div(n, d) <= hi,
{
    lemma_floor_div_char(2 * n + d, 2 * d, lo);
    lemma_floor_div_char(2 * n + d, 2 * d, hi + 1);
    assert(lo * (2 * d) <= 2 * n + d) by (nonlinear_arith)
        requires
            lo * d <= n,
            d > 0,
    ;
    assert(!((hi + 1) * (2 * d) <= 2 * n + d)) by (nonlinear_arith)
        requires
            n <= hi * d,
            d > 0,
    ;
}

/// Exact floor division on machine integers.
pub fn idiv_floor(n: i128, d: i128) -> (r: i128)
    requires
        0 < d <= DIV_ARG_MAX,
        -DIV_ARG_MAX <= n <= DIV_ARG_MAX,
    ensures
        r == floor_div(n as int, d as int),
        n >= 0 ==> 0 <= r <= n,
        n < 0 ==> n <= r <= 0,
{
    if n >= 0 {
        let q = n / d;
        proof {
            lemma_floor_div_char(n as int, d as int, 0);
            lemma_floor_div_char(n as int, d as int, (n + 1) as int);
            assert((n + 1) * d > n) by (nonlinear_arith)
                requires
                    n >= 0,
                    d > 0,
            ;
        }
        q
    } else {
        let m = -n + d - 1;
        let q = m / d;
        proof {
            lemma_fundamental_div_mod(m as int, d as int);
            let qq = m as int / d as int;
            let rr = m as int % d as int;
            assert(n as int == (-qq) * (d as int) + (d - 1 - rr)) by (nonlinear_arith)
                requires
                    m == d * qq + rr,
                    m == -n + d - 1,
            ;
            lemma_fundamental_div_mod_converse(n as int, d as int, -qq, d - 1 - rr);
            lemma_floor_div_char(n as int, d as int, n as int);
            lemma_floor_div_char(n as int, d as int, 1);
            assert(n * d <= n && !(1 * d <= n)) by (nonlinear_arith)
                requires
                    n < 0,
                    d > 0,
            ;
        }
        -q
    }
}

/// Exact ceiling division on machine integers.
pub fn idiv_ceil(n: i128, d: i128) -> (r: i128)
    requires
        0 < d <= DIV_ARG_MAX,
        -DIV_ARG_MAX <= n <= DIV_ARG_MAX,
    ensures
        r == ceil_div(n as int, d as int),
        n >= 0 ==> 0 <= r <= n + 1,
        n < 0 ==> n <= r <= 0,
{
    proof {
        lemma_ceil_div_neg_floor(n as int, d as int);
    }
    let f = idiv_floor(-n, d);
    proof {
        assert(ceil_div(n as int, d as int) == -floor_div(-n as int, d as int));
    }
    -f
}

/// Exact round-to-nearest division on machine integers, halves toward
/// positive infinity.
pub fn iround_div(n: i128, d: i128) -> (r: i128)
    requires
        0 < d,
        d <= DIV_ARG_MAX / 4,
        -DIV_ARG_MAX / 4 <= n <= DIV_ARG_MAX / 4,
    ensures
        r == round_div(n as int, d as int),
{
    idiv_floor(2 * n + d, 2 * d)
}

} // verus!
