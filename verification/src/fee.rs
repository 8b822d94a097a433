//! Basis-point transfer fee with a cap and ceiling rounding.
//!
//! The fee is a fraction of the transferred amount expressed in basis points
//! (hundredths of a percent), rounded up, and capped at a fixed maximum.  The
//! numerator is formed at double width, so it never overflows; the result is
//! checked against the output width all the same.

use crate::arith::ceil_div;
use crate::arith::lemma_ceil_div_monotone;
use crate::arith::lemma_ceil_div_pos;
use crate::arith::lemma_ceil_div_scaled_le;
use vstd::arithmetic::mul::*;
use vstd::math::max;
use vstd::math::min;
use vstd::prelude::*;

verus! {

/// One whole, expressed in basis points: fee rates live in `[0, 10_000]`.
pub const MAX_FEE_BASIS_POINTS: u16 = 10_000;

/// Transfer fee information.
pub struct TransferFee {
    /// First epoch where the transfer fee takes effect; informational, not
    /// used in the calculation.
    pub epoch: u64,
    /// Maximum fee assessed on transfers, expressed as an amount of tokens.
    pub maximum_fee: u64,
    /// Amount of transfer collected as fees, expressed as basis points of
    /// the transfer amount, i.e. increments of 0.01%.
    pub transfer_fee_basis_points: u16,
}

/// The uncapped fee: the amount scaled by the basis points, rounded up.
pub open spec fn raw_fee(fee: TransferFee, pre_fee_amount: u64) -> int {
    ceil_div(pre_fee_amount * fee.transfer_fee_basis_points, MAX_FEE_BASIS_POINTS as int)
}

/// What `calculate_fee` returns: zero for a zero rate or amount, nothing when
/// the uncapped fee leaves the output width (only reachable for rates above
/// one whole), and otherwise the uncapped fee clamped to the maximum.
pub open spec fn calculate_fee_spec(fee: TransferFee, pre_fee_amount: u64) -> Option<u64> {
    if fee.transfer_fee_basis_points == 0 || pre_fee_amount == 0 {
        Some(0u64)
    } else if raw_fee(fee, pre_fee_amount) > u64::MAX {
        None
    } else {
        Some(min(raw_fee(fee, pre_fee_amount), fee.maximum_fee as int) as u64)
    }
}

impl TransferFee {
    /// Ceiling-division
    ///     `ceil[ numerator / denominator ]`
    /// represented as the floor-division
    ///     `floor[ (numerator + denominator - 1) / denominator ]`.
    /// Nothing comes back exactly when the denominator is zero or the sum
    /// overflows the wide width.
    fn ceil_div(numerator: u128, denominator: u128) -> (r: Option<u128>)
        ensures
            (denominator == 0 || numerator + denominator > u128::MAX) <==> (r is None),
            (r matches Some(q) ==> q == ceil_div(numerator as int, denominator as int)),
    {
        if denominator == 0 {
            None
        } else if numerator > u128::MAX - denominator {
            None
        } else {
            Some((numerator + denominator - 1) / denominator)
        }
    }

    /// Calculate the transfer fee.
    pub fn calculate_fee(&self, pre_fee_amount: u64) -> (r: Option<u64>)
        ensures
            r == calculate_fee_spec(*self, pre_fee_amount),
    {
        let transfer_fee_basis_points = self.transfer_fee_basis_points as u128;
        if transfer_fee_basis_points == 0 || pre_fee_amount == 0 {
            Some(0)
        } else {
            proof {
                lemma_mul_upper_bound(
                    pre_fee_amount as int,
                    u64::MAX as int,
                    transfer_fee_basis_points as int,
                    u16::MAX as int,
                );
            }
            let numerator = (pre_fee_amount as u128) * transfer_fee_basis_points;
            // the numerator is far below the wide maximum, so this cannot fail
            let raw_wide = Self::ceil_div(numerator, MAX_FEE_BASIS_POINTS as u128).unwrap();
            if raw_wide > u64::MAX as u128 {
                return None;
            }
            let raw_fee = raw_wide as u64;
            if raw_fee < self.maximum_fee {
                Some(raw_fee)
            } else {
                Some(self.maximum_fee)
            }
        }
    }
}

/// For a rate of at most one whole, the uncapped fee never exceeds the
/// amount, so the calculation always succeeds.
pub proof fn lemma_calculate_fee_live(fee: TransferFee, pre_fee_amount: u64)
    requires
        fee.transfer_fee_basis_points <= MAX_FEE_BASIS_POINTS,
    ensures
        (calculate_fee_spec(fee, pre_fee_amount) is Some),
        0 <= raw_fee(fee, pre_fee_amount) <= pre_fee_amount,
{
    lemma_ceil_div_scaled_le(
        pre_fee_amount as int,
        fee.transfer_fee_basis_points as int,
        MAX_FEE_BASIS_POINTS as int,
    );
}

/// Fee monotonicity: with the fee parameters fixed and a rate of at most one
/// whole, a strictly larger transfer amount is never assessed a smaller fee.
/// The cap makes the fee non-decreasing rather than strictly increasing.
pub proof fn rule_monotonicity_of_calculate_fee(
    fee: TransferFee,
    pre_fee_amount_x: u64,
    pre_fee_amount_y: u64,
)
    requires
        fee.transfer_fee_basis_points <= MAX_FEE_BASIS_POINTS,
        pre_fee_amount_x > pre_fee_amount_y,
    ensures
        (calculate_fee_spec(fee, pre_fee_amount_x) is Some),
        (calculate_fee_spec(fee, pre_fee_amount_y) is Some),
        calculate_fee_spec(fee, pre_fee_amount_x).unwrap() >= calculate_fee_spec(
            fee,
            pre_fee_amount_y,
        ).unwrap(),
{
    lemma_calculate_fee_live(fee, pre_fee_amount_x);
    lemma_calculate_fee_live(fee, pre_fee_amount_y);
    let bps = fee.transfer_fee_basis_points as int;
    lemma_mul_inequality(pre_fee_amount_y as int, pre_fee_amount_x as int, bps);
    lemma_ceil_div_monotone(
        pre_fee_amount_y * bps,
        pre_fee_amount_x * bps,
        MAX_FEE_BASIS_POINTS as int,
    );
}

/// Fee boundedness: whenever the calculation succeeds, the fee lies between
/// zero and the larger of the cap and the amount; in particular it never
/// exceeds the amount once the cap is at or below it.
pub proof fn lemma_calculate_fee_bounded(fee: TransferFee, pre_fee_amount: u64)
    ensures
        (calculate_fee_spec(fee, pre_fee_amount) matches Some(f) ==> 0 <= f <= max(
            fee.maximum_fee as int,
            pre_fee_amount as int,
        )),
        (fee.maximum_fee <= pre_fee_amount ==> (calculate_fee_spec(fee, pre_fee_amount)
            matches Some(f) ==> f <= pre_fee_amount)),
{
}

/// For a rate of at most one whole, the fee never exceeds the amount itself,
/// with or without the cap.
pub proof fn lemma_calculate_fee_le_amount(fee: TransferFee, pre_fee_amount: u64)
    requires
        fee.transfer_fee_basis_points <= MAX_FEE_BASIS_POINTS,
    ensures
        (calculate_fee_spec(fee, pre_fee_amount) matches Some(f) ==> f <= pre_fee_amount),
{
    lemma_calculate_fee_live(fee, pre_fee_amount);
}

} // verus!
