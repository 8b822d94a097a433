//! The repaired fee computation: wide product, ceiling rounding.
//!
//! Where `fee_floor` overflows and rounds small fees to zero, this variant
//! forms the product at double width and rounds the quotient up, so for any
//! rate in `[0, 10_000]` it succeeds on every positive amount and a positive
//! rate always assesses a positive fee.

use crate::arith::ceil_div;
use crate::arith::lemma_ceil_div_pos;
use crate::arith::lemma_ceil_div_scaled_le;
use crate::fee::MAX_FEE_BASIS_POINTS;
use vstd::arithmetic::mul::*;
use vstd::prelude::*;

verus! {

/// What `compute_fee` returns: an error for a zero amount or when the
/// rounded-up fee leaves the output width (only reachable for rates above one
/// whole), otherwise the scaled amount rounded up.
pub open spec fn compute_fee_spec(amount: u64, fee_bps: u16) -> Result<u64, ()> {
    if amount == 0 {
        Err(())
    } else if ceil_div(amount * fee_bps, MAX_FEE_BASIS_POINTS as int) > u64::MAX {
        Err(())
    } else {
        Ok(ceil_div(amount * fee_bps, MAX_FEE_BASIS_POINTS as int) as u64)
    }
}

/// Scale a positive amount by a basis-point rate, rounding up, with the
/// product formed at double width.
pub fn compute_fee(amount: u64, fee_bps: u16) -> (r: Result<u64, ()>)
    ensures
        r == compute_fee_spec(amount, fee_bps),
{
    if amount > 0 {
        proof {
            lemma_mul_upper_bound(amount as int, u64::MAX as int, fee_bps as int, u16::MAX as int);
        }
        let numerator = (amount as u128) * (fee_bps as u128);
        let raw = (numerator + (MAX_FEE_BASIS_POINTS as u128 - 1)) / (MAX_FEE_BASIS_POINTS as u128);
        if raw > u64::MAX as u128 {
            Err(())
        } else {
            Ok(raw as u64)
        }
    } else {
        Err(())
    }
}

/// Whenever the computation succeeds for a rate of at most one whole, the fee
/// stays within the amount, and a positive rate assesses a positive fee:
/// rounding up never sends a positive amount to zero.
pub proof fn rule_fee_assessed_ok(amount: u64, fee_bps: u16)
    requires
        fee_bps <= MAX_FEE_BASIS_POINTS,
    ensures
        (compute_fee_spec(amount, fee_bps) matches Ok(f) ==> f <= amount),
        (fee_bps > 0 ==> (compute_fee_spec(amount, fee_bps) matches Ok(f) ==> f > 0)),
{
    lemma_ceil_div_scaled_le(amount as int, fee_bps as int, MAX_FEE_BASIS_POINTS as int);
    if amount > 0 && fee_bps > 0 {
        lemma_mul_strict_inequality(0, amount as int, fee_bps as int);
        lemma_ceil_div_pos(amount * fee_bps, MAX_FEE_BASIS_POINTS as int);
    }
}

/// For a rate of at most one whole, the computation fails exactly on a zero
/// amount: the rounded-up fee is bounded by the amount, so it always fits.
pub proof fn rule_fee_liveness_ok(amount: u64, fee_bps: u16)
    requires
        fee_bps <= MAX_FEE_BASIS_POINTS,
    ensures
        (compute_fee_spec(amount, fee_bps) is Err) <==> amount == 0,
{
    lemma_ceil_div_scaled_le(amount as int, fee_bps as int, MAX_FEE_BASIS_POINTS as int);
}

} // verus!
