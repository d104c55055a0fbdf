use router_api::FeeEstimate;

#[test]
fn test_fee_estimate_calculation() {
    let fee = FeeEstimate {
        base_fee: 100,
        resource_fee: 1000,
        total_fee: 1100,
        surge_multiplier: 100,
        high_load: false,
    };

    assert_eq!(fee.base_fee + fee.resource_fee, 1100);
    assert!(!fee.high_load);
}

#[test]
fn test_fee_estimate_with_surge() {
    let fee = FeeEstimate {
        base_fee: 100,
        resource_fee: 1000,
        total_fee: 2200,
        surge_multiplier: 200,
        high_load: true,
    };

    assert_eq!(fee.total_fee, (fee.base_fee + fee.resource_fee) * 2);
    assert!(fee.high_load);
}

#[test]
fn fee_estimate_is_copy_and_comparable() {
    let fee = FeeEstimate {
        base_fee: 1,
        resource_fee: 2,
        total_fee: 3,
        surge_multiplier: 100,
        high_load: false,
    };
    let copy = fee;
    assert_eq!(copy, fee);
}
