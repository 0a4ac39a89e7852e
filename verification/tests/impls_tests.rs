use runtime::impls::{ChargingToEnergy, ConvertBalance, EnergyToFee, EnergyToLocking, FeeToEnergy};

#[test]
fn conversions() {
    assert_eq!(FeeToEnergy::convert(12_345), 123);
    assert_eq!(EnergyToFee::convert(123), 12_300);
    assert_eq!(EnergyToLocking::convert(0), 1);
    assert_eq!(EnergyToLocking::convert(250), 3);
    assert_eq!(ChargingToEnergy::convert(7), 70);
    assert_eq!(ConvertBalance::convert(99), 99);
}

#[test]
fn energy_fee_round_trip() {
    for x in [0u128, 1, 99, 100, 12_345, u128::MAX / 100] {
        assert_eq!(FeeToEnergy::convert(EnergyToFee::convert(x)), x);
    }
    for y in [0u128, 1, 99, 100, 12_345, u128::MAX] {
        let back = EnergyToFee::convert(FeeToEnergy::convert(y));
        assert!(back <= y && y - back < 100);
    }
}
