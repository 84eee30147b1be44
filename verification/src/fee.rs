//! Fee policy of the facility: a fixed 500-basis-point (5%) fee on the
//! principal, rounded down, with every step of the computation checked
//! against the 64-bit range.

use vstd::prelude::*;
use vstd::arithmetic::div_mod::{lemma_div_is_ordered, lemma_div_nonincreasing, lemma_div_pos_is_pos};
use vstd::arithmetic::mul::{lemma_mul_inequality, lemma_mul_nonnegative};

use crate::error::ProtocolError;

verus! {

/// Fee rate in basis points: 500, i.e. 5% of the principal.
pub const FEE_BPS: u64 = 500;

/// One basis point is a ten-thousandth.
pub const BPS_DENOMINATOR: u64 = 10000;

/// The fee owed on a principal: `floor(principal * 500 / 10000)`.
pub open spec fn fee_of(principal: int) -> int {
    principal * (FEE_BPS as int) / (BPS_DENOMINATOR as int)
}

/// The total a borrower owes: principal plus fee.
pub open spec fn owed_of(principal: int) -> int {
    principal + fee_of(principal)
}

/// The fee on a non-negative principal never exceeds the principal and is
/// never negative, so the total owed lies between `principal` and
/// `2 * principal`.
pub proof fn lemma_fee_bounds(principal: int)
    requires
        0 <= principal,
    ensures
        0 <= fee_of(principal) <= principal,
        principal <= owed_of(principal) <= 2 * principal,
{
    lemma_mul_nonnegative(principal, FEE_BPS as int);
    lemma_div_pos_is_pos(principal * (FEE_BPS as int), BPS_DENOMINATOR as int);
    lemma_mul_inequality(FEE_BPS as int, BPS_DENOMINATOR as int, principal);
    assert(principal * (FEE_BPS as int) == (FEE_BPS as int) * principal) by (nonlinear_arith);
    assert(principal * (BPS_DENOMINATOR as int) == (BPS_DENOMINATOR as int) * principal)
        by (nonlinear_arith);
    lemma_div_is_ordered(
        principal * (FEE_BPS as int),
        principal * (BPS_DENOMINATOR as int),
        BPS_DENOMINATOR as int,
    );
    assert(principal * (BPS_DENOMINATOR as int) / (BPS_DENOMINATOR as int) == principal)
        by (nonlinear_arith)
        requires
            principal >= 0,
    ;
}

/// The total owed never decreases as the principal increases.
pub proof fn lemma_owed_monotonic(p1: int, p2: int)
    requires
        0 <= p1 <= p2,
    ensures
        owed_of(p1) <= owed_of(p2),
{
    lemma_mul_inequality(p1, p2, FEE_BPS as int);
    lemma_div_is_ordered(p1 * (FEE_BPS as int), p2 * (FEE_BPS as int), BPS_DENOMINATOR as int);
}

/// Computes the total repayment owed on `principal`: the principal plus a
/// 500-basis-point fee rounded down. The multiplication is carried out in
/// 128 bits, so the only way the computation can leave the 64-bit range is
/// the final addition; exactly then `Overflow` is returned, and the result
/// never silently wraps.
pub fn total_owed(principal: u64) -> (r: Result<u64, ProtocolError>)
    ensures
        owed_of(principal as int) <= u64::MAX ==> r == Ok::<u64, ProtocolError>(
            owed_of(principal as int) as u64,
        ),
        owed_of(principal as int) > u64::MAX ==> r == Err::<u64, ProtocolError>(
            ProtocolError::Overflow,
        ),
{
    proof {
        lemma_fee_bounds(principal as int);
    }
    let wide: u128 = (principal as u128) * (FEE_BPS as u128) / (BPS_DENOMINATOR as u128);
    let fee: u64 = wide as u64;
    if principal <= u64::MAX - fee {
        Ok(principal + fee)
    } else {
        Err(ProtocolError::Overflow)
    }
}

} // verus!
