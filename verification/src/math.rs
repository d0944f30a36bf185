//! Rounding division.

use vstd::prelude::*;

verus! {

/// `numerator / denominator`, rounded up.
pub open spec fn ceil_quotient(numerator: int, denominator: int) -> int {
    if numerator % denominator == 0 {
        numerator / denominator
    } else {
        numerator / denominator + 1
    }
}

/// The quotient rounded up is the least integer whose product with the denominator reaches the
/// numerator.
pub proof fn lemma_ceil_quotient_is_least(numerator: int, denominator: int)
    requires
        denominator > 0,
    ensures
        numerator <= ceil_quotient(numerator, denominator) * denominator,
        forall|q: int|
            numerator <= #[trigger] (q * denominator) ==> ceil_quotient(numerator, denominator)
                <= q,
{
    let d = denominator;
    let q0 = numerator / d;
    let r = numerator % d;
    vstd::arithmetic::div_mod::lemma_fundamental_div_mod(numerator, d);
    assert(numerator == d * q0 + r && 0 <= r < d);
    let c = ceil_quotient(numerator, d);
    assert(numerator <= c * d) by (nonlinear_arith)
        requires
            numerator == d * q0 + r,
            0 <= r < d,
            c == (if r == 0 {
                q0
            } else {
                q0 + 1
            }),
    ;
    assert forall|q: int| numerator <= #[trigger] (q * d) implies c <= q by {
        assert(c <= q) by (nonlinear_arith)
            requires
                numerator == d * q0 + r,
                0 <= r < d,
                numerator <= q * d,
                c == (if r == 0 {
                    q0
                } else {
                    q0 + 1
                }),
        ;
    }
}

/// Divides rounding up; `None` exactly when the denominator is zero.
///
/// The sum of the two arguments has to fit in a `u128`.
pub fn ceil_div(numerator: u128, denominator: u128) -> (quotient: Option<u128>)
    requires
        denominator != 0 ==> numerator + denominator <= u128::MAX,
    ensures
        quotient is None <==> denominator == 0,
        quotient matches Some(q) ==> q == ceil_quotient(numerator as int, denominator as int),
{
    if denominator == 0 {
        return None;
    }
    let quotient: u128 = (numerator + denominator - 1) / denominator;
    proof {
        let n = numerator as int;
        let d = denominator as int;
        vstd::arithmetic::div_mod::lemma_fundamental_div_mod(n + d - 1, d);
        vstd::arithmetic::div_mod::lemma_fundamental_div_mod(n, d);
        let q = (n + d - 1) / d;
        let s = (n + d - 1) % d;
        let q0 = n / d;
        let r = n % d;
        assert(q == (if r == 0 {
            q0
        } else {
            q0 + 1
        })) by (nonlinear_arith)
            requires
                n + d - 1 == d * q + s,
                n == d * q0 + r,
                0 <= s < d,
                0 <= r < d,
        ;
    }
    Some(quotient)
}

} // verus!
