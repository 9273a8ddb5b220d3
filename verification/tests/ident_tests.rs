use supply_chain::ident::{generate_id, timestamp_seconds, u64_to_dec_string};

#[test]
fn decimal_rendering_is_exact() {
    assert_eq!(u64_to_dec_string(0), "0");
    assert_eq!(u64_to_dec_string(7), "7");
    assert_eq!(u64_to_dec_string(10), "10");
    assert_eq!(u64_to_dec_string(90210), "90210");
    assert_eq!(u64_to_dec_string(u64::MAX), "18446744073709551615");
}

#[test]
fn identifier_combines_timestamp_and_low_entropy_part() {
    assert_eq!(generate_id(0), "0_0");
    assert_eq!(generate_id(1_234_567_890), "1_7890");
    assert_eq!(generate_id(42_000_000_000), "42_0");
    assert_eq!(generate_id(5_000_000_123), "5_123");
}

#[test]
fn identifiers_collide_when_both_clock_derivations_agree() {
    assert_eq!(generate_id(3_000_010_000), generate_id(3_000_020_000));
    assert_ne!(generate_id(3_000_010_000), generate_id(3_000_010_001));
}

#[test]
fn timestamps_are_whole_seconds() {
    assert_eq!(timestamp_seconds(0), 0);
    assert_eq!(timestamp_seconds(999_999_999), 0);
    assert_eq!(timestamp_seconds(1_000_000_000), 1);
    assert_eq!(timestamp_seconds(2_500_000_000), 2);
}
