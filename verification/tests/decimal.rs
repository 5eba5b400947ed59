use axon_core::primitives::types::U256;
use axon_core::utils::bignum::{BigInt, BigUint, Sign};
use axon_core::utils::convert::{
    big_decimal_to_ratio, bigdecimal_to_u256, biguint_to_u256, fits_u256, normalized_in_reach,
    ratio_to_big_decimal, ratio_to_big_decimal_normalized, round_precision_raw_no_div,
    u256_to_big_decimal, u256_to_biguint, whole_part_in_reach, ConvertError,
};
use axon_core::utils::decimal::{digits_within, trailing_zeros_within, BigDecimal, Ratio};

#[test]
fn test_ratio_to_big_decimal() {
    let ratio = Ratio::from_integer(BigUint::from_u64(0));
    let dec = ratio_to_big_decimal(&ratio, 1);
    assert_eq!(dec.to_string(), "0.0");
    let ratio = Ratio::from_integer(BigUint::from_u64(1234));
    let dec = ratio_to_big_decimal(&ratio, 7);
    assert_eq!(dec.to_string(), "1234.0000000");
    // 4 divided by 9 is 0.(4).
    let ratio = Ratio::new(BigUint::from_u64(4), BigUint::from_u64(9));
    let dec = ratio_to_big_decimal(&ratio, 12);
    assert_eq!(dec.to_string(), "0.444444444444");
    // First 7 decimal digits of pi.
    let ratio = Ratio::new(BigUint::from_u64(52163), BigUint::from_u64(16604));
    let dec = ratio_to_big_decimal(&ratio, 6);
    assert_eq!(dec.to_string(), "3.141592");
}

#[test]
fn test_ratio_to_big_decimal_normalized() {
    let ratio = Ratio::from_integer(BigUint::from_u64(10));
    let dec = ratio_to_big_decimal_normalized(&ratio, 100, 2);
    assert_eq!(dec.to_string(), "10.00");

    // First 7 decimal digits of pi.
    let ratio = Ratio::new(BigUint::from_u64(52163), BigUint::from_u64(16604));
    let dec = ratio_to_big_decimal_normalized(&ratio, 6, 2);
    assert_eq!(dec.to_string(), "3.141592");

    // 4 divided by 9 is 0.(4).
    let ratio = Ratio::new(BigUint::from_u64(4), BigUint::from_u64(9));
    let dec = ratio_to_big_decimal_normalized(&ratio, 12, 2);
    assert_eq!(dec.to_string(), "0.444444444444");
}

#[test]
fn test_big_decimal_to_ratio() {
    // Expect unsigned number.
    let dec = BigDecimal::new(BigInt::from_i64(-1), 0);
    assert!(big_decimal_to_ratio(&dec).is_err());
    let expected = Ratio::from_integer(BigUint::from_u64(0));
    let dec = BigDecimal::new(BigInt::from_i64(0), 0);
    let ratio = big_decimal_to_ratio(&dec).unwrap();
    assert_eq!(ratio, expected);
    let expected = Ratio::new(BigUint::from_u64(1234567), BigUint::from_u64(10000));
    let dec = BigDecimal::new(BigInt::from_i64(1234567), 4);
    let ratio = big_decimal_to_ratio(&dec).unwrap();
    assert_eq!(ratio, expected);
}

#[test]
fn test_bigdecimal_to_u256() {
    let value = BigDecimal::new(BigInt::from_u64(100), 0);
    let expected = U256::from_u64(100);
    assert_eq!(bigdecimal_to_u256(value), expected);

    let value = BigDecimal::new(BigInt::from_i64(100), -2);
    let expected = U256::from_u64(10000);
    assert_eq!(bigdecimal_to_u256(value), expected);
}

#[test]
fn a_negative_decimal_is_refused_with_its_reason() {
    let dec = BigDecimal::new(BigInt::from_i64(-5), 1);
    assert_eq!(big_decimal_to_ratio(&dec), Err(ConvertError::NegativeDecimal));
    assert_eq!(ConvertError::NegativeDecimal.message(), "BigDecimal should be unsigned");
}

#[test]
fn ratios_are_reduced() {
    let ratio = Ratio::new(BigUint::from_u64(50), BigUint::from_u64(100));
    assert_eq!(ratio.numer(), &BigUint::from_u64(1));
    assert_eq!(ratio.denom(), &BigUint::from_u64(2));
    let raw = Ratio::new_raw(BigUint::from_u64(50), BigUint::from_u64(100));
    assert_eq!(raw.numer(), &BigUint::from_u64(50));
    assert_eq!(raw.denom(), &BigUint::from_u64(100));
    // Reduced or not, it is the same number.
    assert_eq!(raw, ratio);
    // 12.50 is 25 / 2.
    let dec = BigDecimal::new(BigInt::from_u64(1250), 2);
    let ratio = big_decimal_to_ratio(&dec).unwrap();
    assert_eq!(ratio, Ratio::new_raw(BigUint::from_u64(25), BigUint::from_u64(2)));
}

#[test]
fn rounding_goes_to_the_nearest_and_up_at_the_half() {
    let third = Ratio::new(BigUint::from_u64(1), BigUint::from_u64(3));
    assert_eq!(round_precision_raw_no_div(&third, 2), BigUint::from_u64(33));
    let two_thirds = Ratio::new(BigUint::from_u64(2), BigUint::from_u64(3));
    assert_eq!(round_precision_raw_no_div(&two_thirds, 2), BigUint::from_u64(67));
    let half = Ratio::new_raw(BigUint::from_u64(5), BigUint::from_u64(10));
    assert_eq!(round_precision_raw_no_div(&half, 0), BigUint::from_u64(1));
    let below_half = Ratio::new_raw(BigUint::from_u64(49), BigUint::from_u64(100));
    assert_eq!(round_precision_raw_no_div(&below_half, 0), BigUint::from_u64(0));
    assert_eq!(round_precision_raw_no_div(&below_half, 1), BigUint::from_u64(5));
}

#[test]
fn u256_becomes_a_decimal_with_eighty_zeros() {
    let dec = u256_to_big_decimal(U256::from_u64(7));
    let (digits, scale) = dec.as_bigint_and_exponent();
    assert_eq!(scale, 80);
    let mut expected = String::from("7");
    expected.push_str(&"0".repeat(80));
    let text = BigDecimal::new(digits, 0).to_string();
    assert_eq!(text, expected);
    assert_eq!(bigdecimal_to_u256(dec), U256::from_u64(7));
}

#[test]
fn numbers_of_any_size_keep_their_value() {
    let max = U256::from_limbs([u64::MAX; 4]);
    let big = u256_to_biguint(max);
    assert_eq!(big.to_bytes_be(), vec![0xffu8; 32]);
    assert!(fits_u256(&big));
    assert_eq!(biguint_to_u256(big), max);
    let mut too_wide = vec![1u8];
    too_wide.extend_from_slice(&[0u8; 32]);
    assert!(!fits_u256(&BigUint::from_bytes_be(&too_wide)));
    let small = u256_to_biguint(U256::from_u64(258));
    assert_eq!(small, BigUint::from_u64(258));
    assert_eq!(small.to_bytes_be(), vec![1, 2]);
    assert_eq!(biguint_to_u256(BigUint::from_u64(0)), U256::from_u64(0));
}

#[test]
fn leading_zero_bytes_are_dropped() {
    assert_eq!(BigUint::from_bytes_be(&[0, 0, 1, 0]), BigUint::from_u64(256));
    assert_eq!(BigUint::from_bytes_be(&[]), BigUint::from_u64(0));
    assert_eq!(BigUint::from_bytes_be(&[0, 0]).to_bytes_be(), vec![0]);
    assert!(BigUint::from_bytes_be(&[0, 0]).is_zero());
    assert!(!BigUint::from_u64(u64::MAX).is_zero());
    assert_eq!(BigUint::from_u64(u64::MAX).to_bytes_be(), vec![0xff; 8]);
    assert_eq!(BigUint::from_u64(5).clone(), BigUint::from_u64(5));
}

#[test]
fn signs_and_magnitudes_go_together() {
    let minus = BigInt::from_i64(i64::MIN);
    assert!(minus.is_negative());
    assert_eq!(minus.sign(), Sign::Minus);
    assert_eq!(minus.magnitude(), &BigUint::from_u64(1 << 63));
    assert_eq!(minus.to_biguint(), None);
    let zero = BigInt::from_biguint(Sign::Minus, BigUint::from_u64(0));
    assert_eq!(zero.sign(), Sign::NoSign);
    assert_eq!(zero, BigInt::from_i64(0));
    assert_eq!(BigInt::from_biguint(Sign::NoSign, BigUint::from_u64(9)), BigInt::from_u64(0));
    let plus = BigInt::from_i64(42);
    assert!(!plus.is_negative());
    assert_eq!(plus.to_biguint(), Some(BigUint::from_u64(42)));
    assert_eq!(plus.clone(), BigInt::from_u64(42));
}

#[test]
fn decimals_change_scale_by_padding_or_cutting() {
    let dec = BigDecimal::new(BigInt::from_i64(12345), 2);
    assert_eq!(dec.to_string(), "123.45");
    assert_eq!(dec.with_scale(4).to_string(), "123.4500");
    assert_eq!(dec.with_scale(1).to_string(), "123.4");
    assert_eq!(dec.with_scale(0).to_string(), "123");
    let negative = BigDecimal::new(BigInt::from_i64(-12345), 2);
    assert_eq!(negative.with_scale(1), BigDecimal::new(BigInt::from_i64(-1234), 1));
    assert_eq!(negative.to_string(), "-123.45");
    let tiny = BigDecimal::new(BigInt::from_i64(-5), 1);
    assert_eq!(tiny.with_scale(0), BigDecimal::new(BigInt::from_i64(0), 0));
    assert!(dec.scale_in_reach(0));
    assert!(!BigDecimal::new(BigInt::from_i64(1), i64::MIN).scale_in_reach(1));
    // A difference of the scales whose negative does not fit is out of reach.
    assert!(!BigDecimal::new(BigInt::from_i64(1), 0).scale_in_reach(i64::MIN));
    assert!(BigDecimal::new(BigInt::from_i64(1), 0).scale_in_reach(i64::MIN + 1));
    assert!(BigDecimal::new(BigInt::from_i64(1), 0).scale_in_reach(i64::MAX));
    assert!(!BigDecimal::new(BigInt::from_i64(1), -1).scale_in_reach(i64::MAX));
    // Zero takes any scale.
    let zero = BigDecimal::new(BigInt::from_i64(0), 0);
    assert!(zero.scale_in_reach(i64::MIN));
    assert_eq!(zero.with_scale(i64::MIN), zero);
}

#[test]
fn only_whole_parts_that_fit_are_converted() {
    assert!(whole_part_in_reach(&BigDecimal::new(BigInt::from_i64(100), -2)));
    assert!(!whole_part_in_reach(&BigDecimal::new(BigInt::from_i64(-100), 0)));
    // -0.5 has the whole part zero.
    let tiny = BigDecimal::new(BigInt::from_i64(-5), 1);
    assert!(whole_part_in_reach(&tiny));
    assert_eq!(bigdecimal_to_u256(tiny), U256::from_u64(0));
    // 10^78 is above two to the power of 256.
    assert!(!whole_part_in_reach(&BigDecimal::new(BigInt::from_i64(1), -78)));
    assert!(whole_part_in_reach(&BigDecimal::new(BigInt::from_i64(1), -77)));
    assert!(!whole_part_in_reach(&BigDecimal::new(BigInt::from_i64(1), i64::MIN)));
}

#[test]
fn normalizing_keeps_the_least_precision() {
    let ratio = Ratio::from_integer(BigUint::from_u64(0));
    assert_eq!(ratio_to_big_decimal_normalized(&ratio, 5, 2).to_string(), "0.00");
    let ratio = Ratio::new(BigUint::from_u64(1), BigUint::from_u64(4));
    assert_eq!(ratio_to_big_decimal_normalized(&ratio, 10, 1).to_string(), "0.25");
    assert_eq!(ratio_to_big_decimal_normalized(&ratio, 10, 3).to_string(), "0.250");
    assert_eq!(ratio_to_big_decimal_normalized(&ratio, 10, 0).to_string(), "0.25");
    let ratio = Ratio::from_integer(BigUint::from_u64(1200));
    assert_eq!(ratio_to_big_decimal_normalized(&ratio, 3, 0).to_string(), "1200");
}

#[test]
fn ratios_are_equal_by_value() {
    let half = Ratio::new_raw(BigUint::from_u64(1), BigUint::from_u64(2));
    let two_quarters = Ratio::new_raw(BigUint::from_u64(2), BigUint::from_u64(4));
    let third = Ratio::new_raw(BigUint::from_u64(1), BigUint::from_u64(3));
    assert_eq!(half, two_quarters);
    assert_ne!(half, third);
    assert_ne!(half, Ratio::new_raw(BigUint::from_u64(2), BigUint::from_u64(2)));
    // With one denominator the numerators decide, a zero denominator too.
    let one_over_zero = Ratio::new_raw(BigUint::from_u64(1), BigUint::from_u64(0));
    let two_over_zero = Ratio::new_raw(BigUint::from_u64(2), BigUint::from_u64(0));
    assert_ne!(one_over_zero, two_over_zero);
    assert_eq!(one_over_zero, one_over_zero.clone());
}

#[test]
fn decimals_are_equal_by_value() {
    let one = BigDecimal::new(BigInt::from_i64(1), 0);
    let one_point_zero = BigDecimal::new(BigInt::from_i64(100), 2);
    assert_eq!(one, one_point_zero);
    assert_eq!(one_point_zero, one);
    assert_ne!(one, BigDecimal::new(BigInt::from_i64(-100), 2));
    assert_ne!(one, BigDecimal::new(BigInt::from_i64(101), 2));
    assert_eq!(BigDecimal::new(BigInt::from_i64(-5), 1), BigDecimal::new(BigInt::from_i64(-50), 2));
    assert_eq!(BigDecimal::new(BigInt::from_i64(0), 3), BigDecimal::new(BigInt::from_i64(0), -3));
    assert_eq!(BigDecimal::new(BigInt::from_i64(1), -2), BigDecimal::new(BigInt::from_i64(100), 0));
}

#[test]
fn big_integers_are_compared_and_sized() {
    assert!(BigUint::from_u64(300).equals(&BigUint::from_bytes_be(&[0, 1, 44])));
    assert!(!BigUint::from_u64(300).equals(&BigUint::from_u64(301)));
    assert_eq!(BigUint::from_u64(255).to_small(), Some(255));
    assert_eq!(BigUint::from_u64(256).to_small(), None);
    assert!(BigInt::from_i64(-3).equals(&BigInt::from_i64(-3)));
    assert!(!BigInt::from_i64(-3).equals(&BigInt::from_i64(3)));
    assert!(BigInt::from_i64(0).is_zero());
    assert!(!BigInt::from_i64(1).is_zero());
}

#[test]
fn digits_and_trailing_zeros_are_counted() {
    let number = BigUint::from_u64(120_000);
    assert!(digits_within(&number, 6));
    assert!(!digits_within(&number, 5));
    assert!(!digits_within(&number, 0));
    assert!(digits_within(&BigUint::from_u64(0), 1));
    assert!(!digits_within(&BigUint::from_u64(0), 0));
    assert!(digits_within(&BigUint::from_u64(9), 1));
    assert!(!digits_within(&BigUint::from_u64(10), 1));
    assert!(trailing_zeros_within(&number, 4));
    assert!(!trailing_zeros_within(&number, 3));
    assert!(trailing_zeros_within(&BigUint::from_u64(0), 0));
    assert!(trailing_zeros_within(&BigUint::from_u64(7), 0));
    assert!(!trailing_zeros_within(&BigUint::from_u64(70), 0));
}

#[test]
fn text_is_written_only_where_the_point_is_in_reach() {
    let one = BigInt::from_i64(1);
    assert!(BigDecimal::new(one.clone(), 0).text_in_reach());
    assert!(BigDecimal::new(one.clone(), i64::MAX).text_in_reach());
    assert!(!BigDecimal::new(one.clone(), i64::MIN).text_in_reach());
    assert!(!BigDecimal::new(one.clone(), i64::MIN + 1).text_in_reach());
    assert!(BigDecimal::new(one.clone(), i64::MIN + 2).text_in_reach());
    // Two digits need one place more.
    assert!(!BigDecimal::new(BigInt::from_i64(10), i64::MIN + 2).text_in_reach());
    assert!(BigDecimal::new(BigInt::from_i64(10), i64::MIN + 3).text_in_reach());
    assert!(BigDecimal::new(BigInt::from_i64(-10), i64::MIN + 3).text_in_reach());
}

#[test]
fn text_puts_the_point_where_the_scale_says() {
    let text = |digits: i64, scale: i64| BigDecimal::new(BigInt::from_i64(digits), scale).to_string();
    assert_eq!(text(12345, 0), "12345");
    assert_eq!(text(12345, 3), "12.345");
    assert_eq!(text(12345, 5), "0.12345");
    assert_eq!(text(12345, 7), "0.0012345");
    assert_eq!(text(12345, -2), "1234500");
    assert_eq!(text(-12345, 5), "-0.12345");
    assert_eq!(text(0, 0), "0");
    assert_eq!(text(0, 2), "0.00");
    assert_eq!(text(0, -2), "000");
}

#[test]
fn normalizing_is_refused_where_a_scale_is_out_of_reach() {
    let seven = Ratio::from_integer(BigUint::from_u64(7));
    let seventy = Ratio::from_integer(BigUint::from_u64(70));
    let widest = i64::MAX as usize;
    assert!(normalized_in_reach(&seven, 0, 2));
    assert!(normalized_in_reach(&seven, 0, widest));
    // 70 is normalized to the scale minus one, one digit too far.
    assert!(!normalized_in_reach(&seventy, 0, widest));
    // More precision does not help: the zeros go all the same.
    assert!(!normalized_in_reach(&seventy, 1, widest));
    let seven_and_a_half = Ratio::new(BigUint::from_u64(15), BigUint::from_u64(2));
    assert!(normalized_in_reach(&seven_and_a_half, 1, widest));
    assert!(normalized_in_reach(&seventy, 0, widest - 1));
    assert!(normalized_in_reach(&Ratio::from_integer(BigUint::from_u64(0)), 0, widest));
    assert!(!normalized_in_reach(&seven, widest + 1, 2));
    assert!(!normalized_in_reach(&seven, 0, widest + 1));
    let no_denominator = Ratio::new_raw(BigUint::from_u64(7), BigUint::from_u64(0));
    assert!(!normalized_in_reach(&no_denominator, 0, 2));
}
