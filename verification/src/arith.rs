//! Facts about the floor of a quotient that the arithmetic of frequencies
//! rests on.

use vstd::arithmetic::div_mod::lemma_div_by_multiple;
use vstd::arithmetic::div_mod::lemma_div_denominator;
use vstd::arithmetic::div_mod::lemma_fundamental_div_mod;
use vstd::arithmetic::div_mod::lemma_mod_bound;
use vstd::prelude::*;

verus! {

/// A factor common to both sides of a quotient cancels:
/// `(a * c) / (b * c) == a / b`.
pub proof fn lemma_cancel_common_factor(a: int, b: int, c: int)
    requires
        0 <= a,
        0 < b,
        0 < c,
    ensures
        b * c > 0,
        (a * c) / (b * c) == a / b,
{
    assert(0 <= a * c && b * c > 0 && c * b == b * c) by (nonlinear_arith)
        requires
            0 <= a,
            0 < b,
            0 < c,
    ;
    lemma_div_denominator(a * c, c, b);
    lemma_div_by_multiple(a, c);
}

/// A quotient is at least `q` exactly when the dividend reaches `q * d`.
pub proof fn lemma_quotient_reaches(x: int, d: int, q: int)
    requires
        0 < d,
    ensures
        q <= x / d <==> q * d <= x,
{
    lemma_fundamental_div_mod(x, d);
    lemma_mod_bound(x, d);
    let k = x / d;
    let r = x % d;
    assert(x == d * k + r);
    if q <= k {
        assert(q * d <= k * d) by (nonlinear_arith)
            requires
                q <= k,
                0 < d,
        ;
        assert(d * k == k * d) by (nonlinear_arith);
    } else {
        assert(q * d >= (k + 1) * d) by (nonlinear_arith)
            requires
                q >= k + 1,
                0 < d,
        ;
        assert((k + 1) * d == d * k + d) by (nonlinear_arith);
    }
}

} // verus!
