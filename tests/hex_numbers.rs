use hub_nfts_polygon::{strip_prefix, HexNumberError};

#[test]
fn reads_prefixed_hex() {
    assert_eq!(strip_prefix(&"0x2a".to_string()), Ok(42));
    assert_eq!(strip_prefix(&"0xFF".to_string()), Ok(255));
    assert_eq!(strip_prefix(&"0x+ff".to_string()), Ok(255));
    assert_eq!(strip_prefix(&"0x0".to_string()), Ok(0));
}

#[test]
fn reads_largest_u64() {
    assert_eq!(strip_prefix(&"0xffffffffffffffff".to_string()), Ok(u64::MAX));
}

#[test]
fn refuses_missing_prefix() {
    assert_eq!(strip_prefix(&"2a".to_string()), Err(HexNumberError::MissingPrefix));
    assert_eq!(strip_prefix(&"".to_string()), Err(HexNumberError::MissingPrefix));
    assert_eq!(strip_prefix(&"0X2a".to_string()), Err(HexNumberError::MissingPrefix));
}

#[test]
fn refuses_bad_digits_and_overflow() {
    assert_eq!(strip_prefix(&"0x".to_string()), Err(HexNumberError::NotANumber));
    assert_eq!(strip_prefix(&"0x+".to_string()), Err(HexNumberError::NotANumber));
    assert_eq!(strip_prefix(&"0xzz".to_string()), Err(HexNumberError::NotANumber));
    assert_eq!(strip_prefix(&"0x-1".to_string()), Err(HexNumberError::NotANumber));
    assert_eq!(
        strip_prefix(&"0x10000000000000000".to_string()),
        Err(HexNumberError::NotANumber)
    );
}
