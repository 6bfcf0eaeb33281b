use wrapper_tx::gas::{Amount, GasLimit, GAS_LIMIT_RESOLUTION, MAX_MULTIPLIER};
use wrapper_tx::wire::DataError;

/// Test serializing and deserializing again gives back the same object
/// Test that serializing converts GasLimit to u64 correctly
#[test]
fn test_gas_limit_roundtrip() {
    let limit = GasLimit { multiplier: 1 };
    // Test serde roundtrip
    let js = serde_json::to_string(&limit.to_u64()).expect("Test failed");
    assert_eq!(js, format!("{}", GAS_LIMIT_RESOLUTION));
    let raw: u64 = serde_json::from_str(&js).expect("Test failed");
    let new_limit = GasLimit::from(raw);
    assert_eq!(new_limit, limit);

    // Test borsh roundtrip
    let mut borsh = Vec::new();
    limit.serialize(&mut borsh).expect("Test failed");
    let (read, rest) = GasLimit::deserialize(&borsh).expect("Test failed");
    assert_eq!(limit, read);
    assert!(rest.is_empty());
}

/// Test that when we deserialize a u64 that is not a multiple of
/// GAS_LIMIT_RESOLUTION to a GasLimit, it rounds up to the next multiple
#[test]
fn test_deserialize_not_multipe_of_resolution() {
    let js = serde_json::to_string(&(GAS_LIMIT_RESOLUTION + 1)).expect("Test failed");
    let raw: u64 = serde_json::from_str(&js).expect("Test failed");
    let limit = GasLimit::from(raw);
    assert_eq!(limit, GasLimit { multiplier: 2 });
}

/// Test that refund is calculated correctly
#[test]
fn test_gas_limit_refund() {
    let limit = GasLimit { multiplier: 1 };
    let refund = limit.refund_amount(GAS_LIMIT_RESOLUTION - 1);
    assert_eq!(refund, Amount::from(1u64));
}

/// Test that we don't refund more than GAS_LIMIT_RESOLUTION
#[test]
fn test_gas_limit_too_high_no_refund() {
    let limit = GasLimit { multiplier: 2 };
    let refund = limit.refund_amount(GAS_LIMIT_RESOLUTION - 1);
    assert_eq!(refund, Amount::from(GAS_LIMIT_RESOLUTION));
}

/// Test that if gas usage was underestimated, we issue no refund
#[test]
fn test_gas_limit_too_low_no_refund() {
    let limit = GasLimit { multiplier: 1 };
    let refund = limit.refund_amount(GAS_LIMIT_RESOLUTION + 1);
    assert_eq!(refund, Amount::from(0u64));
}

#[test]
fn text_form_of_one_unit_is_the_resolution() {
    let limit = GasLimit { multiplier: 1 };
    assert_eq!(serde_json::to_string(&limit.to_u64()).unwrap(), "1000000");
    let raw: u64 = serde_json::from_str("1000001").unwrap();
    assert_eq!(GasLimit::from(raw), GasLimit { multiplier: 2 });
}

#[test]
fn quantization_rounds_up_to_the_next_multiple() {
    assert_eq!(GasLimit::from(0u64), GasLimit { multiplier: 0 });
    assert_eq!(GasLimit::from(1u64), GasLimit { multiplier: 1 });
    assert_eq!(GasLimit::from(999_999u64), GasLimit { multiplier: 1 });
    assert_eq!(GasLimit::from(1_000_000u64), GasLimit { multiplier: 1 });
    assert_eq!(GasLimit::from(1_000_001u64), GasLimit { multiplier: 2 });
    assert_eq!(GasLimit::from(7_500_000u64).to_u64(), 8_000_000);
    assert_eq!(GasLimit::from(Amount::from(2_000_001u64)), GasLimit { multiplier: 3 });
    assert_eq!(GasLimit { multiplier: 3 }.to_amount(), Amount::from(3_000_000u64));
    assert_eq!(Amount::from(42u64).to_u64(), 42);
}

#[test]
fn quantizing_a_quantized_value_changes_nothing() {
    for raw in [0u64, 1, 999_999, 1_000_000, 123_456_789, 18_446_744_073_709_000_000] {
        let limit = GasLimit::from(raw);
        assert!(limit.is_representable());
        assert_eq!(GasLimit::from(limit.to_u64()), limit);
        assert!(limit.to_u64() >= raw);
        assert!(limit.to_u64() - raw < GAS_LIMIT_RESOLUTION);
        assert_eq!(limit.to_u64() % GAS_LIMIT_RESOLUTION, 0);
    }
}

#[test]
fn limits_beyond_64_bits_are_told_apart() {
    let top = GasLimit { multiplier: MAX_MULTIPLIER };
    assert!(top.is_representable());
    assert_eq!(top.checked_to_u64(), Some(18_446_744_073_709_000_000));
    let over = GasLimit::from(u64::MAX);
    assert_eq!(over, GasLimit { multiplier: MAX_MULTIPLIER + 1 });
    assert!(!over.is_representable());
    assert_eq!(over.checked_to_u64(), None);
    let mut out = vec![7u8];
    assert_eq!(over.serialize(&mut out), Err(DataError::TooLong));
    assert_eq!(out, vec![7u8]);
}

#[test]
fn refund_follows_the_three_cases() {
    let limit = GasLimit { multiplier: 3 };
    // well under the limit: capped at one unit
    assert_eq!(limit.refund_amount(0), Amount::from(1_000_000u64));
    assert_eq!(limit.refund_amount(1_999_999), Amount::from(1_000_000u64));
    // within the last unit: what is left
    assert_eq!(limit.refund_amount(2_000_000), Amount::from(1_000_000u64));
    assert_eq!(limit.refund_amount(2_000_001), Amount::from(999_999u64));
    assert_eq!(limit.refund_amount(2_999_999), Amount::from(1u64));
    // at or over the limit: nothing
    assert_eq!(limit.refund_amount(3_000_000), Amount::from(0u64));
    assert_eq!(limit.refund_amount(u64::MAX), Amount::from(0u64));
}

#[test]
fn a_limit_of_zero_refunds_nothing() {
    let limit = GasLimit { multiplier: 0 };
    assert_eq!(limit.refund_amount(0), Amount::from(0u64));
    assert_eq!(limit.refund_amount(1), Amount::from(0u64));
    assert_eq!(limit.refund_amount(u64::MAX), Amount::from(0u64));
}

#[test]
fn binary_form_holds_the_raw_value() {
    let mut out = Vec::new();
    GasLimit { multiplier: 2 }.serialize(&mut out).unwrap();
    assert_eq!(out, vec![0x80, 0x84, 0x1e, 0, 0, 0, 0, 0]);
    assert_eq!(out, borsh::BorshSerialize::try_to_vec(&2_000_000u64).unwrap());
    // a raw value that is no multiple is rounded up when read
    let raw = borsh::BorshSerialize::try_to_vec(&2_000_001u64).unwrap();
    let (limit, rest) = GasLimit::deserialize(&raw).unwrap();
    assert_eq!(limit, GasLimit { multiplier: 3 });
    assert!(rest.is_empty());
    // what follows the value is handed back
    let mut longer = out.clone();
    longer.extend_from_slice(&[9, 9]);
    let (limit, rest) = GasLimit::deserialize(&longer).unwrap();
    assert_eq!(limit, GasLimit { multiplier: 2 });
    assert_eq!(rest, &[9u8, 9][..]);
    assert_eq!(GasLimit::deserialize(&out[..7]), Err(DataError::UnexpectedEnd));
}
