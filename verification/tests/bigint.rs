//! Integers of any size.

use cairo_lang_casm::bigint::BigInt;

#[test]
fn machine_integers_have_digits() {
    assert_eq!(BigInt::from_i128(0).to_u32_digits(), Vec::<u32>::new());
    assert!(!BigInt::from_i128(0).is_negative());
    assert_eq!(BigInt::from_i128(-5).to_u32_digits(), vec![5]);
    assert!(BigInt::from_i128(-5).is_negative());
    assert_eq!(BigInt::from_i128(1 << 32).to_u32_digits(), vec![0, 1]);
    assert_eq!(
        BigInt::from_i128(i128::MIN).to_u32_digits(),
        vec![0, 0, 0, 0x8000_0000]
    );
}

#[test]
fn leading_zeros_are_dropped() {
    let value = BigInt::new(true, vec![7, 0, 0]);
    assert_eq!(value.to_u32_digits(), vec![7]);
    assert!(value.is_negative());
    assert_eq!(value, BigInt::from_i128(-7));
}

#[test]
fn zero_has_no_sign() {
    let value = BigInt::new(true, vec![0, 0]);
    assert!(!value.is_negative());
    assert!(value.to_u32_digits().is_empty());
    assert!(value.is_zero());
    assert_eq!(value, BigInt::from_i128(0));
}

#[test]
fn sums_carry_and_borrow() {
    let max = BigInt::new(false, vec![u32::MAX, u32::MAX, u32::MAX, u32::MAX]);
    assert_eq!(max.plus(1).to_u32_digits(), vec![0, 0, 0, 0, 1]);
    assert_eq!(BigInt::from_i128(3).plus(-5), BigInt::from_i128(-2));
    assert_eq!(BigInt::new(false, vec![0, 1]).plus(-1).to_u32_digits(), vec![u32::MAX]);
    assert!(BigInt::from_i128(5).plus(-5).is_zero());
}

#[test]
fn small_integers_fit_in_16_bits() {
    assert_eq!(BigInt::from_i128(32767).to_i16(), Some(32767));
    assert_eq!(BigInt::from_i128(32768).to_i16(), None);
    assert_eq!(BigInt::from_i128(-32768).to_i16(), Some(-32768));
    assert_eq!(BigInt::from_i128(-32769).to_i16(), None);
    assert_eq!(BigInt::new(false, vec![0, 0, 1]).to_i16(), None);
}

#[test]
fn zero_and_one_are_known() {
    assert!(BigInt::one().is_one());
    assert!(!BigInt::one().is_zero());
    assert!(!BigInt::from_i128(-1).is_one());
    assert!(!BigInt::new(false, vec![1, 1]).is_one());
    assert!(!BigInt::new(false, vec![0, 1]).is_zero());
    assert_eq!(BigInt::one(), BigInt::from_i128(1));
}

#[test]
fn integers_are_the_same_if_their_values_are() {
    let value = BigInt::new(false, vec![1, 2, 3]);
    assert!(value.equals(&value.clone()));
    assert!(value.equals(&BigInt::new(false, vec![1, 2, 3, 0])));
    assert!(!value.equals(&BigInt::new(true, vec![1, 2, 3])));
    assert!(!value.equals(&BigInt::new(false, vec![1, 2])));
    assert_eq!(value.clone(), value);
}
