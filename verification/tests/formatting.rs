use philanthrify::amount::Amount;
use philanthrify::factory::PhilanthrifyFactory;
use philanthrify::format::amount_to_decimal;

fn text(value: u128) -> Vec<u8> {
    PhilanthrifyFactory::biguint_to_egld_string(&Amount::from_u128(value))
}

#[test]
fn zero_is_a_single_digit() {
    assert_eq!(text(0), b"0".to_vec());
}

#[test]
fn one_whole_unit_has_no_fraction() {
    assert_eq!(text(1_000_000_000_000_000_000), b"1".to_vec());
    assert_eq!(text(2_000_000_000_000_000_000), b"2".to_vec());
    assert_eq!(text(120_000_000_000_000_000_000), b"120".to_vec());
}

#[test]
fn a_half_shows_one_digit() {
    assert_eq!(text(1_500_000_000_000_000_000), b"1.5".to_vec());
    assert_eq!(text(500_000_000_000_000_000), b"0.5".to_vec());
}

#[test]
fn just_below_one_is_cut_off_not_rounded() {
    assert_eq!(text(999_999_999_999_999_999), b"0.99".to_vec());
    assert_eq!(text(1_999_999_999_999_999_999), b"1.99".to_vec());
}

#[test]
fn hundredths_keep_their_place() {
    assert_eq!(text(1_050_000_000_000_000_000), b"1.05".to_vec());
    assert_eq!(text(1_250_000_000_000_000_000), b"1.25".to_vec());
    assert_eq!(text(1_259_000_000_000_000_000), b"1.25".to_vec());
}

#[test]
fn a_fraction_below_a_hundredth_shows_as_zeros() {
    assert_eq!(text(1_001_000_000_000_000_000), b"1.00".to_vec());
    assert_eq!(text(1), b"0.00".to_vec());
    assert_eq!(text(3_000_000_000_000_000_001), b"3.00".to_vec());
}

#[test]
fn tenths_followed_by_less_than_a_hundredth() {
    assert_eq!(text(1_500_000_000_000_000_001), b"1.50".to_vec());
    assert_eq!(text(100_000_000_000_000_000), b"0.1".to_vec());
}

#[test]
fn whole_part_beyond_sixty_four_bits() {
    assert_eq!(text(u128::MAX), b"340282366920938463463.37".to_vec());
    assert_eq!(
        text(18_446_744_073_709_551_616_000_000_000_000_000_000),
        b"18446744073709551616".to_vec()
    );
    assert_eq!(
        text(9_223_372_036_854_775_808_000_000_000_000_000_000),
        b"9223372036854775808".to_vec()
    );
    assert_eq!(
        text(9_223_372_036_854_775_807_000_000_000_000_000_000),
        b"9223372036854775807".to_vec()
    );
}

#[test]
fn whole_part_beyond_one_hundred_twenty_eight_bits() {
    let mut bytes = vec![1u8];
    bytes.extend_from_slice(&[0u8; 20]);
    let value = Amount::from_bytes_be(bytes);
    assert_eq!(
        amount_to_decimal(&value),
        b"1461501637330902918203684832716283019655932542976".to_vec()
    );
    assert_eq!(
        PhilanthrifyFactory::biguint_to_egld_string(&value),
        b"1461501637330902918203684832716.28".to_vec()
    );
}

#[test]
fn counters_in_decimal() {
    assert_eq!(PhilanthrifyFactory::u64_to_buffer(0), b"0".to_vec());
    assert_eq!(PhilanthrifyFactory::u64_to_buffer(7), b"7".to_vec());
    assert_eq!(PhilanthrifyFactory::u64_to_buffer(10), b"10".to_vec());
    assert_eq!(PhilanthrifyFactory::u64_to_buffer(1234567890), b"1234567890".to_vec());
    assert_eq!(PhilanthrifyFactory::u64_to_buffer(u64::MAX), b"18446744073709551615".to_vec());
}

#[test]
fn amounts_in_decimal() {
    assert_eq!(amount_to_decimal(&Amount::zero()), b"0".to_vec());
    assert_eq!(amount_to_decimal(&Amount::from_u64(9)), b"9".to_vec());
    assert_eq!(amount_to_decimal(&Amount::from_u64(10)), b"10".to_vec());
    assert_eq!(amount_to_decimal(&Amount::from_u64(u64::MAX)), b"18446744073709551615".to_vec());
    assert_eq!(
        amount_to_decimal(&Amount::from_u128(u128::MAX)),
        b"340282366920938463463374607431768211455".to_vec()
    );
}
