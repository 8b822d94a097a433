//! The smallest fee property: a positive rate assesses a positive fee.
//!
//! When the fee is the amount scaled by a positive basis-point rate and
//! rounded up at full width, it cannot round to zero for a positive amount.
//! Computed with floor rounding instead, the same claim fails — an amount of
//! one at one basis point rounds to zero — which is why the vault's fee
//! calculators round up.

use crate::arith::ceil_div;
use crate::arith::lemma_ceil_div_pos;
use crate::fee::MAX_FEE_BASIS_POINTS;
use vstd::arithmetic::mul::lemma_mul_strict_inequality;
use vstd::prelude::*;

verus! {

/// For a positive amount and a positive rate within one whole, the
/// rounded-up fee is positive.
pub proof fn check_fee(amt: u64, bps: u16)
    requires
        amt > 0,
        bps <= MAX_FEE_BASIS_POINTS,
    ensures
        bps > 0 ==> ceil_div(amt * bps, MAX_FEE_BASIS_POINTS as int) > 0,
{
    if bps > 0 {
        lemma_mul_strict_inequality(0, amt as int, bps as int);
        lemma_ceil_div_pos(amt * bps, MAX_FEE_BASIS_POINTS as int);
    }
}

} // verus!
