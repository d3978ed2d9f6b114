use vstd::prelude::*;

verus! {

/// The number of basis points in a whole.
pub const BPS_DENOMINATOR: i128 = 10000;

/// The platform's cut of `amount` at a rate of `bps` basis points, rounded down.
pub open spec fn fee_of(amount: int, bps: int) -> int {
    (amount * bps) / 10000
}

/// Whether `amount * bps` can be computed in an `i128`.
pub open spec fn fee_computable(amount: int, bps: int) -> bool {
    amount * bps <= i128::MAX
}

/// A fee never goes below zero, and at a rate of at most a whole it never
/// exceeds the amount it is taken from.
pub proof fn lemma_fee_bounds(amount: int, bps: int)
    requires
        amount >= 0,
        bps >= 0,
    ensures
        0 <= fee_of(amount, bps),
        bps <= 10000 ==> fee_of(amount, bps) <= amount,
        amount * bps >= 0,
{
    assert(amount * bps >= 0) by (nonlinear_arith)
        requires
            amount >= 0,
            bps >= 0,
    ;
    if bps <= 10000 {
        assert(amount * bps <= amount * 10000) by (nonlinear_arith)
            requires
                amount >= 0,
                0 <= bps <= 10000,
        ;
    }
}

/// The fee on a non-negative `amount` at `bps` basis points, or `None` when
/// `amount * bps` overflows an `i128` (where the contracts abort).
pub fn platform_fee(amount: i128, bps: u32) -> (fee: Option<i128>)
    requires
        amount >= 0,
    ensures
        fee == (if fee_computable(amount as int, bps as int) {
            Some(fee_of(amount as int, bps as int) as i128)
        } else {
            None
        }),
        fee matches Some(f) ==> 0 <= f,
        fee matches Some(f) ==> (bps <= 10000 ==> f <= amount),
{
    proof {
        lemma_fee_bounds(amount as int, bps as int);
    }
    match amount.checked_mul(bps as i128) {
        Some(product) => Some(product / BPS_DENOMINATOR),
        None => None,
    }
}

} // verus!
