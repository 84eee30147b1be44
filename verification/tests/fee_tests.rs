use flash_loan::error::ProtocolError;
use flash_loan::fee::total_owed;

#[test]
fn owed_is_principal_plus_five_percent() {
    assert_eq!(total_owed(100), Ok(105));
    assert_eq!(total_owed(10_000), Ok(10_500));
    assert_eq!(total_owed(1_000_000), Ok(1_050_000));
}

#[test]
fn owed_rounds_fee_down() {
    assert_eq!(total_owed(1), Ok(1));
    assert_eq!(total_owed(19), Ok(19));
    assert_eq!(total_owed(20), Ok(21));
    assert_eq!(total_owed(39), Ok(40));
}

#[test]
fn owed_of_zero_is_zero() {
    assert_eq!(total_owed(0), Ok(0));
}

#[test]
fn owed_fails_exactly_past_the_64_bit_boundary() {
    assert_eq!(total_owed(17_568_327_689_247_192_015), Ok(u64::MAX));
    assert_eq!(
        total_owed(17_568_327_689_247_192_016),
        Err(ProtocolError::Overflow)
    );
    assert_eq!(total_owed(u64::MAX), Err(ProtocolError::Overflow));
}

#[test]
fn owed_never_decreases() {
    let mut last = 0u64;
    for principal in [0u64, 1, 19, 20, 100, 10_000, 1 << 32, 1 << 60] {
        let owed = total_owed(principal).unwrap();
        assert!(owed >= last);
        last = owed;
    }
}
