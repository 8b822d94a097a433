//! A minimal fee computation: native-width product, floor rounding, no
//! zero-amount check.
//!
//! Unlike `fee_floor` this variant accepts a zero amount (the fee is then
//! zero); like it, the product is checked in the native width and the
//! quotient is rounded down.

use crate::fee::MAX_FEE_BASIS_POINTS;
use vstd::prelude::*;

verus! {

/// What `compute_fee` returns: nothing when the native-width product
/// overflows, otherwise the scaled amount rounded down.
pub open spec fn compute_fee_spec(amount: u64, fee_bps: u16) -> Option<u64> {
    if amount * fee_bps > u64::MAX {
        None
    } else {
        Some((amount * fee_bps / (MAX_FEE_BASIS_POINTS as int)) as u64)
    }
}

/// Scale an amount by a basis-point rate, rounding down, with the product
/// checked in the native width.
pub fn compute_fee(amount: u64, fee_bps: u16) -> (r: Option<u64>)
    ensures
        r == compute_fee_spec(amount, fee_bps),
{
    match amount.checked_mul(fee_bps as u64) {
        Some(numerator) => Some(numerator / (MAX_FEE_BASIS_POINTS as u64)),
        None => None,
    }
}

/// Whenever the computation succeeds for a rate of at most one whole, the fee
/// stays within the amount.  The stricter claim that the fee is also positive
/// fails under floor rounding: an amount of one at one basis point rounds to
/// zero.
pub proof fn check_compute_fee(amount: u64, fee_bps: u16)
    requires
        fee_bps <= MAX_FEE_BASIS_POINTS,
    ensures
        (compute_fee_spec(amount, fee_bps) matches Some(f) ==> f <= amount),
{
    crate::arith::lemma_div_scaled_le(amount as int, fee_bps as int, MAX_FEE_BASIS_POINTS as int);
}

} // verus!
