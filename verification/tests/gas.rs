use host_env::error::{GasError, HostError};
use host_env::gas::BlockGasMeter;
use host_env::vp::vp_charge_gas;

#[test]
fn charges_up_to_the_limit() {
    let mut meter = BlockGasMeter::new(10);
    assert_eq!(vp_charge_gas(&mut meter, 4), Ok(()));
    assert_eq!(vp_charge_gas(&mut meter, 6), Ok(()));
    assert_eq!(meter.transaction_gas(), 10);
    assert_eq!(vp_charge_gas(&mut meter, 0), Ok(()));
    assert_eq!(vp_charge_gas(&mut meter, 1), Err(HostError::Gas(GasError::LimitExceeded)));
    assert_eq!(meter.transaction_gas(), 11);
    assert_eq!(vp_charge_gas(&mut meter, 0), Err(HostError::Gas(GasError::LimitExceeded)));
}

#[test]
fn a_negative_request_is_a_huge_one() {
    let mut meter = BlockGasMeter::new(u64::MAX);
    assert_eq!(vp_charge_gas(&mut meter, -1), Ok(()));
    assert_eq!(meter.transaction_gas(), u64::MAX);
    let mut meter = BlockGasMeter::new(u64::MAX);
    assert_eq!(vp_charge_gas(&mut meter, i32::MIN), Ok(()));
    assert_eq!(meter.transaction_gas(), 0xffff_ffff_8000_0000);
}

#[test]
fn an_overflow_is_refused_and_not_counted() {
    let mut meter = BlockGasMeter::new(100);
    assert_eq!(vp_charge_gas(&mut meter, 5), Ok(()));
    assert_eq!(vp_charge_gas(&mut meter, -1), Err(HostError::Gas(GasError::Overflow)));
    assert_eq!(meter.transaction_gas(), 5);
}
