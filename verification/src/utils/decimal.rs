//! Ratios of unsigned integers and decimal numbers of any size.

use crate::primitives::types::be_value;
use crate::utils::bignum::{
    canonical, coprime, magnitude_of, sign_fits, signed_value, BigInt, BigUint, Sign,
};
use crate::utils::text::decimal_spec;
use num::bigint;
use vstd::arithmetic::power::pow;
use vstd::prelude::*;

verus! {

/// Ten to the power of `exp`.
pub open spec fn pow10(exp: nat) -> nat {
    pow(10, exp) as nat
}

/// The quotient of `numer` by `denom`, rounded to the nearest integer,
/// half-way cases upwards.
pub open spec fn round_half_up(numer: nat, denom: nat) -> nat
    recommends
        denom > 0,
{
    (2 * numer + denom) / (2 * denom)
}

/// How many zeros the decimal digits of `n` end in; none for zero.
pub open spec fn trailing_zeros(n: nat) -> nat
    decreases n,
{
    if n == 0 || n % 10 != 0 {
        0
    } else {
        1 + trailing_zeros(n / 10)
    }
}

/// The integer with the sign of `value` and the given magnitude.
pub open spec fn with_magnitude(value: int, magnitude: nat) -> int {
    if value < 0 {
        -(magnitude as int)
    } else {
        magnitude as int
    }
}

/// The sign of an integer.
pub open spec fn sign_of(value: int) -> Sign {
    if value < 0 {
        Sign::Minus
    } else if value == 0 {
        Sign::NoSign
    } else {
        Sign::Plus
    }
}

/// A decimal number as mathematics sees it: `digits` divided by ten to the
/// power of `scale`.
pub struct DecimalView {
    pub digits: int,
    pub scale: int,
}

/// The same number without zeros at the end of its digits; zero has the
/// scale zero.
pub open spec fn normalized_spec(number: DecimalView) -> DecimalView {
    if number.digits == 0 {
        DecimalView { digits: 0, scale: 0 }
    } else {
        let zeros = trailing_zeros(magnitude_of(number.digits));
        DecimalView {
            digits: with_magnitude(number.digits, magnitude_of(number.digits) / pow10(zeros)),
            scale: number.scale - zeros,
        }
    }
}

/// The number brought to another scale: zeros are added at the end of the
/// digits, or digits are cut off at the end.
pub open spec fn with_scale_spec(number: DecimalView, new_scale: int) -> DecimalView {
    let magnitude = magnitude_of(number.digits);
    DecimalView {
        digits: if new_scale >= number.scale {
            with_magnitude(number.digits, magnitude * pow10((new_scale - number.scale) as nat))
        } else {
            with_magnitude(number.digits, magnitude / pow10((number.scale - new_scale) as nat))
        },
        scale: new_scale,
    }
}

/// Whether one decimal number is at most another.
pub open spec fn decimal_le(a: DecimalView, b: DecimalView) -> bool {
    let top = if a.scale >= b.scale {
        a.scale
    } else {
        b.scale
    };
    a.digits * pow10((top - a.scale) as nat) <= b.digits * pow10((top - b.scale) as nat)
}

/// The greater of two decimal numbers; of two equal numbers the second, with
/// its scale.
pub open spec fn max_spec(a: DecimalView, b: DecimalView) -> DecimalView {
    if decimal_le(a, b) {
        b
    } else {
        a
    }
}

/// How many decimal digits `n` has; zero has one.
pub open spec fn digit_count(n: nat) -> nat {
    decimal_spec(n).len()
}

/// `count` times the digit `0`.
pub open spec fn zero_digits(count: nat) -> Seq<char> {
    Seq::new(count, |i: int| '0')
}

/// The text of a decimal number: a minus sign if it is negative, then the
/// digits with the decimal point `scale` places from their end. Digits that
/// all lie behind the point follow `0.` and as many zeros as it takes; with
/// a negative scale zeros are added at the end and no point is written, and
/// no point is written for the scale zero either.
pub open spec fn decimal_text(digits: int, scale: int) -> Seq<char> {
    let written = decimal_spec(magnitude_of(digits));
    let len = written.len() as int;
    let unsigned = if scale >= len {
        "0."@ + zero_digits((scale - len) as nat) + written
    } else if scale < 0 {
        written + zero_digits((-scale) as nat)
    } else if scale == 0 {
        written
    } else {
        written.subrange(0, len - scale) + "."@ + written.subrange(len - scale, len)
    };
    if digits < 0 {
        "-"@ + unsigned
    } else {
        unsigned
    }
}

/// Whether the scales `scale` and `new_scale` are close enough for a
/// number to be brought from one to the other: their difference and its
/// negative both fit the machine word.
pub open spec fn scales_in_reach(scale: int, new_scale: int) -> bool {
    -i64::MAX <= new_scale - scale <= i64::MAX
}

/// `Pow::pow` of num on a `BigUint` of ten: ten to the power of `exp`, as
/// its shortest big-endian bytes.
#[verifier::external_body]
pub(crate) fn big_pow10(exp: u128) -> (bytes: Vec<u8>)
    ensures
        canonical(bytes@),
        be_value(bytes@) == pow10(exp as nat),
{
    num::traits::Pow::pow(num::BigUint::from(10u32), exp).to_bytes_be()
}

/// `Mul::mul` of num on two `BigUint`s: their product, as its shortest
/// big-endian bytes.
#[verifier::external_body]
pub(crate) fn big_mul(a: &[u8], b: &[u8]) -> (product: Vec<u8>)
    ensures
        canonical(product@),
        be_value(product@) == be_value(a@) * be_value(b@),
{
    (num::BigUint::from_bytes_be(a) * num::BigUint::from_bytes_be(b)).to_bytes_be()
}

/// `Mul::mul` of num's `Ratio` with an integer: a ratio equal to the given
/// one times `factor`, with a denominator that is not zero. A zero
/// denominator makes the outside function panic and is excluded.
#[verifier::external_body]
pub(crate) fn ratio_mul_int(numer: &[u8], denom: &[u8], factor: &[u8]) -> (product: (
    Vec<u8>,
    Vec<u8>,
))
    requires
        be_value(denom@) != 0,
    ensures
        canonical(product.0@),
        canonical(product.1@),
        be_value(product.1@) > 0,
        be_value(product.0@) * be_value(denom@) == be_value(numer@) * be_value(factor@)
            * be_value(product.1@),
{
    let ratio = num::rational::Ratio::new_raw(
        num::BigUint::from_bytes_be(numer),
        num::BigUint::from_bytes_be(denom),
    );
    let (n, d) = (ratio * num::BigUint::from_bytes_be(factor)).into_raw();
    (n.to_bytes_be(), d.to_bytes_be())
}

/// `Ratio::round` of num: the nearest integer, half-way cases away from
/// zero, as a ratio with the denominator one.
#[verifier::external_body]
pub(crate) fn ratio_round(numer: &[u8], denom: &[u8]) -> (rounded: (Vec<u8>, Vec<u8>))
    requires
        be_value(denom@) != 0,
    ensures
        canonical(rounded.0@),
        canonical(rounded.1@),
        be_value(rounded.1@) == 1,
        be_value(rounded.0@) == round_half_up(be_value(numer@), be_value(denom@)),
{
    let ratio = num::rational::Ratio::new_raw(
        num::BigUint::from_bytes_be(numer),
        num::BigUint::from_bytes_be(denom),
    );
    let (n, d) = ratio.round().into_raw();
    (n.to_bytes_be(), d.to_bytes_be())
}

/// `Ratio::to_integer` of num: the quotient of numerator by denominator,
/// rounded down.
#[verifier::external_body]
pub(crate) fn ratio_to_integer(numer: &[u8], denom: &[u8]) -> (quotient: Vec<u8>)
    requires
        be_value(denom@) != 0,
    ensures
        canonical(quotient@),
        be_value(quotient@) == be_value(numer@) / be_value(denom@),
{
    let ratio = num::rational::Ratio::new_raw(
        num::BigUint::from_bytes_be(numer),
        num::BigUint::from_bytes_be(denom),
    );
    ratio.to_integer().to_bytes_be()
}

/// `Ratio::new` of num: the same ratio in lowest terms. A zero denominator
/// makes the outside function panic and is excluded.
#[verifier::external_body]
pub(crate) fn ratio_new(numer: &[u8], denom: &[u8]) -> (reduced: (Vec<u8>, Vec<u8>))
    requires
        be_value(denom@) != 0,
    ensures
        canonical(reduced.0@),
        canonical(reduced.1@),
        be_value(reduced.1@) > 0,
        be_value(reduced.0@) * be_value(denom@) == be_value(numer@) * be_value(reduced.1@),
        coprime(be_value(reduced.0@), be_value(reduced.1@)),
{
    let ratio = num::rational::Ratio::new(
        num::BigUint::from_bytes_be(numer),
        num::BigUint::from_bytes_be(denom),
    );
    let (n, d) = ratio.into_raw();
    (n.to_bytes_be(), d.to_bytes_be())
}

/// `BigDecimal::normalized` of bigdecimal, on a number that is not
/// negative: the same number without zeros at the end of its digits. The
/// new scale must fit the machine word, and so must the negative of the old
/// one, which the outside function forms to compare the number with zero.
#[verifier::external_body]
pub(crate) fn decimal_normalized(digits: &[u8], scale: i64) -> (normal: (Vec<u8>, i64))
    requires
        scale > i64::MIN,
        scale - trailing_zeros(be_value(digits@)) >= i64::MIN,
    ensures
        canonical(normal.0@),
        (DecimalView { digits: be_value(normal.0@) as int, scale: normal.1 as int })
            == normalized_spec(
            DecimalView { digits: be_value(digits@) as int, scale: scale as int },
        ),
{
    let digits = num::BigInt::from_biguint(bigint::Sign::Plus, num::BigUint::from_bytes_be(digits));
    let (digits, scale) = bigdecimal::BigDecimal::new(digits, scale).normalized()
        .into_bigint_and_exponent();
    (digits.into_parts().1.to_bytes_be(), scale)
}

/// `BigDecimal::with_scale` of bigdecimal: the digits of the number brought
/// to another scale, by adding zeros at the end or by cutting digits off.
/// Zero takes any scale; for any other number the difference of the scales,
/// which the outside function forms with the greater scale first, must fit
/// the machine word.
#[verifier::external_body]
pub(crate) fn decimal_with_scale(sign: Sign, digits: &[u8], scale: i64, new_scale: i64) -> (scaled:
    (Sign, Vec<u8>))
    requires
        sign_fits(sign, be_value(digits@)),
        be_value(digits@) == 0 || scales_in_reach(scale as int, new_scale as int),
    ensures
        canonical(scaled.1@),
        sign_fits(scaled.0, be_value(scaled.1@)),
        signed_value(scaled.0, be_value(scaled.1@)) == with_scale_spec(
            DecimalView { digits: signed_value(sign, be_value(digits@)), scale: scale as int },
            new_scale as int,
        ).digits,
{
    let sign = match sign {
        Sign::Minus => bigint::Sign::Minus,
        Sign::NoSign => bigint::Sign::NoSign,
        Sign::Plus => bigint::Sign::Plus,
    };
    let digits = num::BigInt::from_biguint(sign, num::BigUint::from_bytes_be(digits));
    let scaled = bigdecimal::BigDecimal::new(digits, scale).with_scale(new_scale);
    let (sign, magnitude) = scaled.into_bigint_and_exponent().0.into_parts();
    let sign = match sign {
        bigint::Sign::Minus => Sign::Minus,
        bigint::Sign::NoSign => Sign::NoSign,
        bigint::Sign::Plus => Sign::Plus,
    };
    (sign, magnitude.to_bytes_be())
}

/// `Ord::max` of std on two `BigDecimal`s that are not negative: the greater
/// one, and of two equal numbers the second. The difference of the scales
/// must fit the machine word: beyond that the outside order goes by the
/// scales alone.
#[verifier::external_body]
pub(crate) fn decimal_max(a_digits: &[u8], a_scale: i64, b_digits: &[u8], b_scale: i64) -> (greater:
    (Vec<u8>, i64))
    requires
        canonical(a_digits@),
        canonical(b_digits@),
        -i64::MAX <= a_scale - b_scale <= i64::MAX,
    ensures
        decimal_le(
            DecimalView { digits: be_value(a_digits@) as int, scale: a_scale as int },
            DecimalView { digits: be_value(b_digits@) as int, scale: b_scale as int },
        ) ==> greater.0@ == b_digits@ && greater.1 == b_scale,
        !decimal_le(
            DecimalView { digits: be_value(a_digits@) as int, scale: a_scale as int },
            DecimalView { digits: be_value(b_digits@) as int, scale: b_scale as int },
        ) ==> greater.0@ == a_digits@ && greater.1 == a_scale,
{
    let a = num::BigInt::from_biguint(bigint::Sign::Plus, num::BigUint::from_bytes_be(a_digits));
    let b = num::BigInt::from_biguint(bigint::Sign::Plus, num::BigUint::from_bytes_be(b_digits));
    let greater = bigdecimal::BigDecimal::new(a, a_scale).max(bigdecimal::BigDecimal::new(b, b_scale));
    let (digits, scale) = greater.into_bigint_and_exponent();
    (digits.into_parts().1.to_bytes_be(), scale)
}

/// `to_string` of bigdecimal's `BigDecimal`: the text of the number. The
/// place of the decimal point, counted from the front of the digits, must
/// fit the machine word: the outside function forms the number of digits
/// minus the scale.
#[verifier::external_body]
pub(crate) fn decimal_to_string(sign: Sign, digits: &[u8], scale: i64) -> (text: String)
    requires
        sign_fits(sign, be_value(digits@)),
        digit_count(be_value(digits@)) - scale <= i64::MAX,
    ensures
        text@ == decimal_text(signed_value(sign, be_value(digits@)), scale as int),
{
    let sign = match sign {
        Sign::Minus => bigint::Sign::Minus,
        Sign::NoSign => bigint::Sign::NoSign,
        Sign::Plus => bigint::Sign::Plus,
    };
    let digits = num::BigInt::from_biguint(sign, num::BigUint::from_bytes_be(digits));
    bigdecimal::BigDecimal::new(digits, scale).to_string()
}

/// Tells whether a number has at most `limit` decimal digits.
pub fn digits_within(number: &BigUint, limit: u64) -> (ok: bool)
    ensures
        ok == (digit_count(number@) <= limit),
{
    let ten = BigUint::from_u64(10);
    let mut rest = number.duplicate();
    let mut stripped: u64 = 0;
    loop
        invariant
            ten@ == 10,
            stripped <= limit,
            digit_count(number@) == stripped + digit_count(rest@),
        decreases rest@,
    {
        proof {
            crate::utils::text::lemma_decimal_nonempty(rest@);
        }
        if stripped == limit {
            return false;
        }
        let below_ten = match rest.to_small() {
            Some(small) => small < 10,
            None => false,
        };
        if below_ten {
            return true;
        }
        let ghost before = rest@;
        let quotient = ratio_to_integer(rest.as_bytes(), ten.as_bytes());
        rest = BigUint::from_canonical(quotient);
        stripped += 1;
        proof {
            assert(decimal_spec(before).len() == decimal_spec(before / 10).len() + 1);
        }
    }
}

/// Tells whether the decimal digits of a number end in at most `limit`
/// zeros.
pub fn trailing_zeros_within(number: &BigUint, limit: u64) -> (ok: bool)
    ensures
        ok == (trailing_zeros(number@) <= limit),
{
    if number.is_zero() {
        return true;
    }
    let ten = BigUint::from_u64(10);
    let mut rest = number.duplicate();
    let mut stripped: u64 = 0;
    loop
        invariant
            ten@ == 10,
            rest@ > 0,
            stripped <= limit,
            trailing_zeros(number@) == stripped + trailing_zeros(rest@),
        decreases rest@,
    {
        let reduced = ratio_new(rest.as_bytes(), ten.as_bytes());
        let denominator = BigUint::from_canonical(reduced.1);
        let divisible = match denominator.to_small() {
            Some(small) => small == 1,
            None => false,
        };
        proof {
            let n = rest@;
            let quotient = be_value(reduced.0@);
            let d = denominator@;
            assert(quotient * 10 == n * d);
            if n % 10 == 0 {
                let k = n / 10;
                assert(quotient == d * k) by (nonlinear_arith)
                    requires
                        quotient * 10 == n * d,
                        n == 10 * k,
                ;
                assert(d == d * 1);
                assert(d == 1);
            }
            if d == 1 {
                assert(n * d == n) by (nonlinear_arith)
                    requires
                        d == 1,
                ;
                assert(n == quotient * 10);
                assert(n % 10 == 0 && n / 10 == quotient) by (nonlinear_arith)
                    requires
                        n == quotient * 10,
                ;
            }
        }
        if !divisible {
            return true;
        }
        if stripped == limit {
            return false;
        }
        rest = BigUint::from_canonical(reduced.0);
        stripped += 1;
    }
}

/// A ratio of two unsigned integers of any size. Two ratios are equal when
/// they stand for the same number, reduced or not.
#[derive(Clone, Debug, Eq)]
pub struct Ratio {
    numer: BigUint,
    denom: BigUint,
}

/// A decimal number of any size: an integer of digits and a scale, the
/// number of digits behind the decimal point. Two decimal numbers are equal
/// when they stand for the same number, whatever their scales.
#[derive(Clone, Debug, Eq)]
pub struct BigDecimal {
    digits: BigInt,
    scale: i64,
}

impl View for BigDecimal {
    type V = DecimalView;

    closed spec fn view(&self) -> DecimalView {
        DecimalView { digits: self.digits@, scale: self.scale as int }
    }
}

/// Whether two ratios stand for the same number. With one denominator the
/// numerators decide, zero denominators too; otherwise the cross products
/// do.
pub open spec fn same_ratio(a_numer: nat, a_denom: nat, b_numer: nat, b_denom: nat) -> bool {
    if a_denom == b_denom {
        a_numer == b_numer
    } else {
        a_numer * b_denom == b_numer * a_denom
    }
}

/// Whether two decimal numbers stand for the same number: brought to the
/// greater of their scales they have the same digits.
pub open spec fn same_decimal(a: DecimalView, b: DecimalView) -> bool {
    let top = if a.scale >= b.scale {
        a.scale
    } else {
        b.scale
    };
    a.digits * pow10((top - a.scale) as nat) == b.digits * pow10((top - b.scale) as nat)
}

/// How far apart two scales are.
fn scale_gap(a: i64, b: i64) -> (gap: u128)
    ensures
        gap == (if a >= b {
            a - b
        } else {
            b - a
        }),
{
    if a >= b {
        (a as i128 - b as i128) as u128
    } else {
        (b as i128 - a as i128) as u128
    }
}

impl PartialEq for Ratio {
    /// Tells whether two ratios stand for the same number.
    fn eq(&self, other: &Self) -> (equal: bool) {
        if self.denom.equals(&other.denom) {
            self.numer.equals(&other.numer)
        } else {
            let left = big_mul(self.numer.as_bytes(), other.denom.as_bytes());
            let right = big_mul(other.numer.as_bytes(), self.denom.as_bytes());
            proof {
                if be_value(left@) == be_value(right@) {
                    crate::utils::bignum::lemma_canonical_unique(left@, right@);
                }
            }
            crate::utils::bignum::same_bytes(left.as_slice(), right.as_slice())
        }
    }
}

impl vstd::std_specs::cmp::PartialEqSpecImpl for Ratio {
    open spec fn obeys_eq_spec() -> bool {
        true
    }

    open spec fn eq_spec(&self, other: &Self) -> bool {
        same_ratio(self.numer_spec(), self.denom_spec(), other.numer_spec(), other.denom_spec())
    }
}

impl PartialEq for BigDecimal {
    /// Tells whether two decimal numbers stand for the same number.
    fn eq(&self, other: &Self) -> (equal: bool) {
        let gap = scale_gap(self.scale, other.scale);
        proof {
            vstd::arithmetic::power::lemma_pow_positive(10, gap as nat);
            vstd::arithmetic::power::lemma_pow_positive(10, 0);
        }
        if self.digits.is_zero() || other.digits.is_zero() {
            proof {
                lemma_scaled_keeps_sign(self@.digits, pow10(gap as nat));
                lemma_scaled_keeps_sign(other@.digits, pow10(gap as nat));
                lemma_scaled_keeps_sign(self@.digits, pow10(0));
                lemma_scaled_keeps_sign(other@.digits, pow10(0));
            }
            return self.digits.is_zero() && other.digits.is_zero();
        }
        let factor = big_pow10(gap);
        proof {
            vstd::arithmetic::power::lemma_pow0(10);
        }
        if self.scale >= other.scale {
            let scaled = big_mul(other.digits.magnitude().as_bytes(), factor.as_slice());
            let lifted = BigInt::from_biguint(other.digits.sign(), BigUint::from_canonical(scaled));
            proof {
                lemma_scaled_keeps_sign(other@.digits, pow10(gap as nat));
                assert(lifted@ == other@.digits * pow10(gap as nat));
                assert(pow10(0) == 1);
                assert(self@.digits * pow10(0) == self@.digits) by (nonlinear_arith)
                    requires
                        pow10(0) == 1,
                ;
                assert((self@.scale - other@.scale) as nat == gap as nat);
            }
            self.digits.equals(&lifted)
        } else {
            let scaled = big_mul(self.digits.magnitude().as_bytes(), factor.as_slice());
            let lifted = BigInt::from_biguint(self.digits.sign(), BigUint::from_canonical(scaled));
            proof {
                lemma_scaled_keeps_sign(self@.digits, pow10(gap as nat));
                assert(lifted@ == self@.digits * pow10(gap as nat));
                assert(pow10(0) == 1);
                assert(other@.digits * pow10(0) == other@.digits) by (nonlinear_arith)
                    requires
                        pow10(0) == 1,
                ;
                assert((other@.scale - self@.scale) as nat == gap as nat);
            }
            lifted.equals(&other.digits)
        }
    }
}

impl vstd::std_specs::cmp::PartialEqSpecImpl for BigDecimal {
    open spec fn obeys_eq_spec() -> bool {
        true
    }

    open spec fn eq_spec(&self, other: &Self) -> bool {
        same_decimal(self@, other@)
    }
}

/// An integer times a positive factor has the sign of the integer and the
/// magnitude of the integer times the factor.
pub proof fn lemma_scaled_keeps_sign(value: int, factor: nat)
    requires
        factor > 0,
    ensures
        value * factor == with_magnitude(value, magnitude_of(value) * factor),
        value == 0 <==> magnitude_of(value) * factor == 0,
{
    assert(value * factor == with_magnitude(value, magnitude_of(value) * factor)) by (nonlinear_arith)
        requires
            factor > 0,
    {
        if value < 0 {
            assert((-value) * factor == -(value * factor));
        }
    }
    assert(value == 0 <==> magnitude_of(value) * factor == 0) by (nonlinear_arith)
        requires
            factor > 0,
    ;
}

impl Ratio {
    /// The numerator.
    pub closed spec fn numer_spec(&self) -> nat {
        self.numer@
    }

    /// The denominator.
    pub closed spec fn denom_spec(&self) -> nat {
        self.denom@
    }

    /// The ratio of exactly these two integers, not reduced.
    pub fn new_raw(numer: BigUint, denom: BigUint) -> (ratio: Self)
        ensures
            ratio.numer_spec() == numer@,
            ratio.denom_spec() == denom@,
    {
        Ratio { numer, denom }
    }

    /// The ratio of two integers in lowest terms. The denominator must not
    /// be zero.
    pub fn new(numer: BigUint, denom: BigUint) -> (ratio: Self)
        requires
            denom@ != 0,
        ensures
            ratio.denom_spec() > 0,
            ratio.numer_spec() * denom@ == numer@ * ratio.denom_spec(),
            coprime(ratio.numer_spec(), ratio.denom_spec()),
    {
        let (n, d) = ratio_new(numer.as_bytes(), denom.as_bytes());
        Ratio { numer: BigUint::from_canonical(n), denom: BigUint::from_canonical(d) }
    }

    /// The ratio of an integer to one.
    pub fn from_integer(value: BigUint) -> (ratio: Self)
        ensures
            ratio.numer_spec() == value@,
            ratio.denom_spec() == 1,
    {
        Ratio { numer: value, denom: BigUint::from_u64(1) }
    }

    /// The numerator.
    pub fn numer(&self) -> (numer: &BigUint)
        ensures
            numer@ == self.numer_spec(),
    {
        &self.numer
    }

    /// The denominator.
    pub fn denom(&self) -> (denom: &BigUint)
        ensures
            denom@ == self.denom_spec(),
    {
        &self.denom
    }
}

impl BigDecimal {
    /// The number `digits` divided by ten to the power of `scale`.
    pub fn new(digits: BigInt, scale: i64) -> (number: Self)
        ensures
            number@ == (DecimalView { digits: digits@, scale: scale as int }),
    {
        BigDecimal { digits, scale }
    }

    /// The digits and the scale of the number.
    pub fn as_bigint_and_exponent(&self) -> (parts: (BigInt, i64))
        ensures
            parts.0@ == self@.digits,
            parts.1 == self@.scale,
    {
        (self.digits.duplicate(), self.scale)
    }

    /// Takes the number apart into its digits and its scale.
    pub fn into_bigint_and_exponent(self) -> (parts: (BigInt, i64))
        ensures
            parts.0@ == self@.digits,
            parts.1 == self@.scale,
    {
        (self.digits, self.scale)
    }

    /// Whether the number can be brought to the scale `new_scale`: it is
    /// zero, or the difference of the scales and its negative fit the
    /// machine word.
    pub open spec fn can_rescale(&self, new_scale: i64) -> bool {
        self@.digits == 0 || scales_in_reach(self@.scale, new_scale as int)
    }

    /// Tells whether the number can be brought to the scale `new_scale`.
    pub fn scale_in_reach(&self, new_scale: i64) -> (ok: bool)
        ensures
            ok == self.can_rescale(new_scale),
    {
        if self.digits.is_zero() {
            return true;
        }
        match new_scale.checked_sub(self.scale) {
            Some(difference) => difference != i64::MIN,
            None => false,
        }
    }

    /// Whether the text of the number can be written: the place of the
    /// decimal point, counted from the front of the digits, fits the
    /// machine word.
    pub open spec fn can_print(&self) -> bool {
        digit_count(magnitude_of(self@.digits)) - self@.scale <= i64::MAX
    }

    /// Tells whether the text of the number can be written.
    pub fn text_in_reach(&self) -> (ok: bool)
        ensures
            ok == self.can_print(),
    {
        if self.scale == i64::MIN {
            proof {
                crate::utils::text::lemma_decimal_nonempty(magnitude_of(self@.digits));
            }
            return false;
        }
        let limit: u64 = if self.scale >= 0 {
            0x7fff_ffff_ffff_ffffu64 + (self.scale as u64)
        } else {
            0x7fff_ffff_ffff_ffffu64 - ((-self.scale) as u64)
        };
        digits_within(self.digits.magnitude(), limit)
    }

    /// The number with `new_scale` digits behind the decimal point: zeros
    /// are added at the end, or digits are cut off.
    pub fn with_scale(&self, new_scale: i64) -> (scaled: Self)
        requires
            self.can_rescale(new_scale),
        ensures
            scaled@ == with_scale_spec(self@, new_scale as int),
    {
        let (sign, magnitude) = decimal_with_scale(
            self.digits.sign(),
            self.digits.magnitude().as_bytes(),
            self.scale,
            new_scale,
        );
        let digits = BigInt::from_biguint(sign, BigUint::from_canonical(magnitude));
        BigDecimal { digits, scale: new_scale }
    }

    /// The same number without zeros at the end of its digits, for a
    /// number that is not negative.
    pub(crate) fn normalized_unsigned(&self) -> (normal: Self)
        requires
            self@.digits >= 0,
            self@.scale > i64::MIN,
            self@.scale - trailing_zeros(magnitude_of(self@.digits)) >= i64::MIN,
        ensures
            normal@ == normalized_spec(self@),
            normal@.digits >= 0,
    {
        let (digits, scale) = decimal_normalized(self.digits.magnitude().as_bytes(), self.scale);
        BigDecimal {
            digits: BigInt::from_biguint(Sign::Plus, BigUint::from_canonical(digits)),
            scale,
        }
    }

    /// The greater of two numbers that are not negative; of two equal
    /// numbers the second.
    pub(crate) fn max_unsigned(self, other: Self) -> (greater: Self)
        requires
            self@.digits >= 0,
            other@.digits >= 0,
            -i64::MAX <= self@.scale - other@.scale <= i64::MAX,
        ensures
            greater@ == max_spec(self@, other@),
    {
        let (digits, scale) = decimal_max(
            self.digits.magnitude().as_bytes(),
            self.scale,
            other.digits.magnitude().as_bytes(),
            other.scale,
        );
        BigDecimal {
            digits: BigInt::from_biguint(Sign::Plus, BigUint::from_canonical(digits)),
            scale,
        }
    }

    /// The text of the number. The place of the decimal point, counted
    /// from the front of the digits, must fit the machine word.
    pub fn to_string(&self) -> (text: String)
        requires
            self.can_print(),
        ensures
            text@ == decimal_text(self@.digits, self@.scale),
    {
        decimal_to_string(self.digits.sign(), self.digits.magnitude().as_bytes(), self.scale)
    }
}

} // verus!
