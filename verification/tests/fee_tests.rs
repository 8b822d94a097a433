use vault_model::fee::TransferFee;
use vault_model::{fee_ceil, fee_floor, some_fee};

#[test]
fn calculate_fee_under_the_cap() {
    // 100 basis points of 50_000 is 500, under the cap of 1_000
    let fee = TransferFee { epoch: 0, maximum_fee: 1_000, transfer_fee_basis_points: 100 };
    assert_eq!(fee.calculate_fee(50_000), Some(500));
}

#[test]
fn calculate_fee_capped() {
    // 100 basis points of 200_000 is 2_000, capped at 1_000
    let fee = TransferFee { epoch: 0, maximum_fee: 1_000, transfer_fee_basis_points: 100 };
    assert_eq!(fee.calculate_fee(200_000), Some(1_000));
}

#[test]
fn calculate_fee_zero_rate_and_zero_amount() {
    let fee = TransferFee { epoch: 7, maximum_fee: 1_000, transfer_fee_basis_points: 0 };
    assert_eq!(fee.calculate_fee(123_456), Some(0));
    let fee = TransferFee { epoch: 7, maximum_fee: 1_000, transfer_fee_basis_points: 100 };
    assert_eq!(fee.calculate_fee(0), Some(0));
}

#[test]
fn calculate_fee_rounds_up() {
    // 1 basis point of 10_001 is 1.0001, rounded up to 2
    let fee = TransferFee { epoch: 0, maximum_fee: u64::MAX, transfer_fee_basis_points: 1 };
    assert_eq!(fee.calculate_fee(10_001), Some(2));
    assert_eq!(fee.calculate_fee(10_000), Some(1));
    assert_eq!(fee.calculate_fee(1), Some(1));
}

#[test]
fn calculate_fee_overflowing_rate_fails() {
    // a rate above one whole can push the uncapped fee past the output width
    let fee = TransferFee { epoch: 0, maximum_fee: u64::MAX, transfer_fee_basis_points: 20_000 };
    assert_eq!(fee.calculate_fee(u64::MAX), None);
}

#[test]
fn calculate_fee_monotone_in_the_amount() {
    let fee = TransferFee { epoch: 0, maximum_fee: 1_000, transfer_fee_basis_points: 100 };
    let mut previous = 0u64;
    for amount in [0u64, 1, 9_999, 10_000, 50_000, 100_000, 200_000, u64::MAX] {
        let assessed = fee.calculate_fee(amount).unwrap();
        assert!(assessed >= previous);
        previous = assessed;
    }
}

#[test]
fn calculate_fee_bounded_by_cap_and_amount() {
    for bps in [0u16, 1, 100, 10_000] {
        for maximum_fee in [0u64, 1, 1_000, u64::MAX] {
            for amount in [0u64, 1, 10_000, 1 << 40] {
                let fee = TransferFee { epoch: 0, maximum_fee, transfer_fee_basis_points: bps };
                let assessed = fee.calculate_fee(amount).unwrap();
                assert!(assessed <= maximum_fee.max(amount));
                if maximum_fee <= amount {
                    assert!(assessed <= amount);
                }
            }
        }
    }
}

#[test]
fn floor_fee_success_and_errors() {
    assert_eq!(fee_floor::compute_fee(50_000, 100), Ok(500));
    // floor rounding sends a small positive amount to zero
    assert_eq!(fee_floor::compute_fee(1, 1), Ok(0));
    // a zero amount is rejected
    assert_eq!(fee_floor::compute_fee(0, 100), Err(()));
    // the native-width product overflows
    assert_eq!(fee_floor::compute_fee(u64::MAX, 2), Err(()));
}

#[test]
fn ceil_fee_success_and_errors() {
    assert_eq!(fee_ceil::compute_fee(50_000, 100), Ok(500));
    // ceiling rounding keeps a small positive amount at one
    assert_eq!(fee_ceil::compute_fee(1, 1), Ok(1));
    // a zero amount is rejected
    assert_eq!(fee_ceil::compute_fee(0, 100), Err(()));
    // the wide product never overflows for a rate within one whole
    assert_eq!(fee_ceil::compute_fee(u64::MAX, 10_000), Ok(u64::MAX));
}

#[test]
fn some_fee_success_and_errors() {
    assert_eq!(some_fee::compute_fee(50_000, 100), Some(500));
    // no zero-amount check in this variant
    assert_eq!(some_fee::compute_fee(0, 100), Some(0));
    assert_eq!(some_fee::compute_fee(u64::MAX, 2), None);
}
