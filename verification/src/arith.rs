//! Shares of an amount: percentages and basis points.

use vstd::prelude::*;

verus! {

/// The quotient of `p` by a positive `d`, rounded toward zero.
pub open spec fn quotient_toward_zero(p: int, d: int) -> int {
    if p >= 0 {
        p / d
    } else {
        -((-p) / d)
    }
}

/// `rate` parts in `per` of `amount`, rounded toward zero.
pub open spec fn share(amount: i128, rate: u32, per: int) -> int {
    quotient_toward_zero(amount * rate, per)
}

/// A share of a non-negative amount is non-negative and at most `amount * rate`.
pub proof fn lemma_share_bound(amount: i128, rate: u32, per: int)
    requires
        0 <= amount,
        per >= 1,
    ensures
        0 <= amount * rate,
        0 <= share(amount, rate, per) <= amount * rate,
{
    let p = amount * rate;
    assert(0 <= p) by (nonlinear_arith)
        requires
            p == amount * rate,
            0 <= amount,
            0 <= rate,
    ;
    assert(0 <= p / per <= p) by (nonlinear_arith)
        requires
            0 <= p,
            per >= 1,
    ;
}

/// The product of an amount up to `cap` and a 32-bit rate is at most `cap * 2^32`.
pub proof fn lemma_product_bound(amount: i128, rate: u32, cap: int)
    requires
        0 <= amount <= cap,
    ensures
        0 <= amount * rate <= cap * 0x1_0000_0000,
{
    assert(0 <= amount * rate <= cap * 0x1_0000_0000) by (nonlinear_arith)
        requires
            0 <= amount <= cap,
            0 <= rate < 0x1_0000_0000,
    ;
}

} // verus!
