//! A fee computed in the native width with floor rounding.
//!
//! This variant keeps the product `amount * fee_bps` in the input width, so
//! it can overflow and fail for large amounts, and it rounds the quotient
//! down, so a small positive amount can be assessed a zero fee.  Both
//! shortcomings show in its contract; `fee_ceil` holds the repaired
//! calculation.

use crate::fee::MAX_FEE_BASIS_POINTS;
use vstd::prelude::*;

verus! {

/// What `compute_fee` returns: an error for a zero amount or when the
/// native-width product overflows, otherwise the scaled amount rounded down.
pub open spec fn compute_fee_spec(amount: u64, fee_bps: u16) -> Result<u64, ()> {
    if amount == 0 {
        Err(())
    } else if amount * fee_bps > u64::MAX {
        Err(())
    } else {
        Ok((amount * fee_bps / (MAX_FEE_BASIS_POINTS as int)) as u64)
    }
}

/// Scale a positive amount by a basis-point rate, rounding down, with the
/// product checked in the native width.
pub fn compute_fee(amount: u64, fee_bps: u16) -> (r: Result<u64, ()>)
    ensures
        r == compute_fee_spec(amount, fee_bps),
{
    if amount > 0 {
        match amount.checked_mul(fee_bps as u64) {
            Some(numerator) => Ok(numerator / (MAX_FEE_BASIS_POINTS as u64)),
            None => Err(()),
        }
    } else {
        Err(())
    }
}

/// Whenever the computation succeeds for a rate of at most one whole, the fee
/// stays within the amount.  The stronger claim that a positive rate always
/// assesses a positive fee does not hold here: rounding down sends small
/// amounts to zero.
pub proof fn rule_fee_assessed(amount: u64, fee_bps: u16)
    requires
        fee_bps <= MAX_FEE_BASIS_POINTS,
    ensures
        (compute_fee_spec(amount, fee_bps) matches Ok(f) ==> f <= amount),
{
    crate::arith::lemma_div_scaled_le(amount as int, fee_bps as int, MAX_FEE_BASIS_POINTS as int);
}

/// On inputs whose product stays in the native width, the computation fails
/// exactly for a zero amount.  Without that bound it also fails on overflow,
/// so the equivalence below does not hold of all inputs.
pub proof fn rule_fee_liveness(amount: u64, fee_bps: u16)
    requires
        fee_bps <= MAX_FEE_BASIS_POINTS,
        amount * fee_bps <= u64::MAX,
    ensures
        (compute_fee_spec(amount, fee_bps) is Err) <==> amount == 0,
{
}

} // verus!
