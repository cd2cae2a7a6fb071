//! Signed integers of any size, as they stand in the immediates of CASM.

use vstd::prelude::*;

use num_bigint::Sign;
use num_traits::{One, Zero};

verus! {

/// The value of a sequence of base `2^32` digits, the least significant one first.
pub open spec fn digits_value(digits: Seq<u32>) -> int
    decreases digits.len(),
{
    if digits.len() == 0 {
        0
    } else {
        digits[0] + 0x1_0000_0000 * digits_value(digits.drop_first())
    }
}

/// The value of a sign and a sequence of base `2^32` digits, the least significant one first.
pub open spec fn signed_value(negative: bool, digits: Seq<u32>) -> int {
    if negative {
        -digits_value(digits)
    } else {
        digits_value(digits)
    }
}

/// Whether a sign and digits are the one way in which their value is written: the most significant
/// digit is not zero, and zero has no sign.
pub open spec fn is_canonical(negative: bool, digits: Seq<u32>) -> bool {
    if digits.len() == 0 {
        !negative
    } else {
        digits.last() != 0
    }
}

/// A signed integer of any size.
///
/// The integer is kept as a sign and digits; the arithmetic on it is that of `num_bigint`. The view
/// of a `BigInt` is its value.
#[derive(Debug, PartialEq, Eq)]
pub struct BigInt {
    negative: bool,
    digits: Vec<u32>,
}

impl View for BigInt {
    type V = int;

    closed spec fn view(&self) -> int {
        signed_value(self.negative, self.digits@)
    }
}

/// `num_bigint::BigInt::new`: the integer of a sign and digits. The digits may have leading zeros;
/// `to_u32_digits` hands them back in the canonical form of the same value.
#[verifier::external_body]
fn big_new(negative: bool, digits: Vec<u32>) -> (res: (bool, Vec<u32>))
    ensures
        signed_value(res.0, res.1@) == signed_value(negative, digits@),
        is_canonical(res.0, res.1@),
{
    let sign = if negative { Sign::Minus } else { Sign::Plus };
    let (sign, digits) = num_bigint::BigInt::new(sign, digits).to_u32_digits();
    (matches!(sign, Sign::Minus), digits)
}

/// `From<i128>` of `num_bigint::BigInt`: the integer of the same value.
#[verifier::external_body]
fn big_from(value: i128) -> (res: (bool, Vec<u32>))
    ensures
        signed_value(res.0, res.1@) == value,
        is_canonical(res.0, res.1@),
{
    let (sign, digits) = num_bigint::BigInt::from(value).to_u32_digits();
    (matches!(sign, Sign::Minus), digits)
}

/// `One::one` of `num_bigint::BigInt`: the integer 1.
#[verifier::external_body]
fn big_one() -> (res: (bool, Vec<u32>))
    ensures
        signed_value(res.0, res.1@) == 1,
        is_canonical(res.0, res.1@),
{
    let (sign, digits) = <num_bigint::BigInt as One>::one().to_u32_digits();
    (matches!(sign, Sign::Minus), digits)
}

/// `Add<i128>` of `num_bigint::BigInt`: the sum of the two values.
#[verifier::external_body]
fn big_add(negative: bool, digits: Vec<u32>, value: i128) -> (res: (bool, Vec<u32>))
    ensures
        signed_value(res.0, res.1@) == signed_value(negative, digits@) + value,
        is_canonical(res.0, res.1@),
{
    let sign = if negative { Sign::Minus } else { Sign::Plus };
    let sum = num_bigint::BigInt::new(sign, digits) + value;
    let (sign, digits) = sum.to_u32_digits();
    (matches!(sign, Sign::Minus), digits)
}

/// `TryFrom<num_bigint::BigInt>` of `i16`: the same value where an `i16` can hold it, an error
/// (here `None`) where it cannot.
#[verifier::external_body]
fn big_try_i16(negative: bool, digits: Vec<u32>) -> (res: Option<i16>)
    ensures
        res is Some <==> i16::MIN <= signed_value(negative, digits@) <= i16::MAX,
        res matches Some(value) ==> value == signed_value(negative, digits@),
{
    let sign = if negative { Sign::Minus } else { Sign::Plus };
    i16::try_from(num_bigint::BigInt::new(sign, digits)).ok()
}

/// `Zero::is_zero` of `num_bigint::BigInt`: whether the value is 0.
#[verifier::external_body]
fn big_is_zero(negative: bool, digits: Vec<u32>) -> (res: bool)
    ensures
        res == (signed_value(negative, digits@) == 0),
{
    let sign = if negative { Sign::Minus } else { Sign::Plus };
    num_bigint::BigInt::new(sign, digits).is_zero()
}

/// `One::is_one` of `num_bigint::BigInt`: whether the value is 1.
#[verifier::external_body]
fn big_is_one(negative: bool, digits: Vec<u32>) -> (res: bool)
    ensures
        res == (signed_value(negative, digits@) == 1),
{
    let sign = if negative { Sign::Minus } else { Sign::Plus };
    num_bigint::BigInt::new(sign, digits).is_one()
}

/// `PartialEq` of `num_bigint::BigInt`: whether the two values are the same.
#[verifier::external_body]
fn big_eq(
    negative: bool,
    digits: Vec<u32>,
    other_negative: bool,
    other_digits: Vec<u32>,
) -> (res: bool)
    ensures
        res == (signed_value(negative, digits@) == signed_value(other_negative, other_digits@)),
{
    let sign = if negative { Sign::Minus } else { Sign::Plus };
    let other_sign = if other_negative { Sign::Minus } else { Sign::Plus };
    num_bigint::BigInt::new(sign, digits) == num_bigint::BigInt::new(other_sign, other_digits)
}

impl BigInt {
    #[verifier::type_invariant]
    spec fn canonical(self) -> bool {
        is_canonical(self.negative, self.digits@)
    }

    /// The integer of a sign and base `2^32` digits, the least significant one first.
    pub fn new(negative: bool, digits: Vec<u32>) -> (res: Self)
        ensures
            res@ == signed_value(negative, digits@),
    {
        let (negative, digits) = big_new(negative, digits);
        BigInt { negative, digits }
    }

    /// The integer of a machine integer.
    pub fn from_i128(value: i128) -> (res: Self)
        ensures
            res@ == value,
    {
        let (negative, digits) = big_from(value);
        BigInt { negative, digits }
    }

    /// The integer 1.
    pub fn one() -> (res: Self)
        ensures
            res@ == 1,
    {
        let (negative, digits) = big_one();
        BigInt { negative, digits }
    }

    /// The sign: whether the integer is below 0.
    pub fn is_negative(&self) -> (res: bool)
        ensures
            res == (self@ < 0),
    {
        proof {
            use_type_invariant(self);
            lemma_digits_value_positive(self.digits@);
        }
        self.negative
    }

    /// The base `2^32` digits of the absolute value, the least significant one first, with no
    /// leading zero.
    pub fn to_u32_digits(&self) -> (res: Vec<u32>)
        ensures
            signed_value(self@ < 0, res@) == self@,
            is_canonical(self@ < 0, res@),
    {
        proof {
            use_type_invariant(self);
            lemma_digits_value_positive(self.digits@);
        }
        copied(&self.digits)
    }

    /// The sum of the integer and a machine integer.
    pub fn plus(self, value: i128) -> (res: Self)
        ensures
            res@ == self@ + value,
    {
        let (negative, digits) = big_add(self.negative, self.digits, value);
        BigInt { negative, digits }
    }

    /// The integer as an `i16`, where it fits.
    pub fn to_i16(&self) -> (res: Option<i16>)
        ensures
            res is Some <==> i16::MIN <= self@ <= i16::MAX,
            res matches Some(value) ==> value == self@,
    {
        big_try_i16(self.negative, copied(&self.digits))
    }

    /// Whether the integer is 0.
    pub fn is_zero(&self) -> (res: bool)
        ensures
            res == (self@ == 0),
    {
        big_is_zero(self.negative, copied(&self.digits))
    }

    /// Whether the integer is 1.
    pub fn is_one(&self) -> (res: bool)
        ensures
            res == (self@ == 1),
    {
        big_is_one(self.negative, copied(&self.digits))
    }

    /// Whether two integers are the same.
    pub fn equals(&self, other: &Self) -> (res: bool)
        ensures
            res == (self@ == other@),
    {
        big_eq(self.negative, copied(&self.digits), other.negative, copied(&other.digits))
    }
}

impl Clone for BigInt {
    fn clone(&self) -> (res: Self)
        ensures
            res@ == self@,
    {
        proof {
            use_type_invariant(self);
        }
        BigInt { negative: self.negative, digits: copied(&self.digits) }
    }
}

fn copied(digits: &Vec<u32>) -> (res: Vec<u32>)
    ensures
        res@ == digits@,
{
    digits.clone()
}

/// Digits stand for a natural number, and for 0 only where all of them are 0.
proof fn lemma_digits_value_positive(digits: Seq<u32>)
    ensures
        digits_value(digits) >= 0,
        digits.len() > 0 && digits.last() != 0 ==> digits_value(digits) > 0,
    decreases digits.len(),
{
    if digits.len() > 0 {
        lemma_digits_value_positive(digits.drop_first());
    }
}

/// A value is written in one way only: integers with the same value have the same sign and the same
/// digits.
pub proof fn law_canonical_is_unique(
    negative: bool,
    digits: Seq<u32>,
    other_negative: bool,
    other_digits: Seq<u32>,
)
    requires
        is_canonical(negative, digits),
        is_canonical(other_negative, other_digits),
        signed_value(negative, digits) == signed_value(other_negative, other_digits),
    ensures
        negative == other_negative,
        digits == other_digits,
{
    lemma_digits_value_positive(digits);
    lemma_digits_value_positive(other_digits);
    lemma_digits_unique(digits, other_digits);
}

/// Digits without a leading zero are determined by their value.
proof fn lemma_digits_unique(digits: Seq<u32>, other: Seq<u32>)
    requires
        digits.len() > 0 ==> digits.last() != 0,
        other.len() > 0 ==> other.last() != 0,
        digits_value(digits) == digits_value(other),
    ensures
        digits == other,
    decreases digits.len(),
{
    lemma_digits_value_positive(digits);
    lemma_digits_value_positive(other);
    if digits.len() > 0 && other.len() > 0 {
        lemma_digits_unique(digits.drop_first(), other.drop_first());
        assert(digits =~= seq![digits[0]] + digits.drop_first());
    }
}

} // verus!
