//! IEEE 754 binary64 values, held as their bit patterns.
//!
//! A pattern is a `u64`: the highest bit is the sign, the next eleven bits
//! are the biased exponent, the lowest fifty-two bits are the fraction.
//! The questions that the sampler asks of a value (is it above zero, is it
//! at most one tenth) are answered here on the pattern itself, and proved
//! against the reading of the three fields. Sums, differences, products and
//! quotients are computed in software by `rustc_apfloat`, on the patterns;
//! their results are named, not defined.

use rustc_apfloat::ieee::Double;
use rustc_apfloat::Float;
use vstd::prelude::*;

verus! {

/// The pattern of positive zero.
pub const ZERO: u64 = 0;

/// The pattern of one: a clear sign, the exponent at its bias, no fraction.
pub const ONE: u64 = 0x3FF0_0000_0000_0000;

/// The pattern of the binary64 value nearest to one tenth.
pub const TENTH: u64 = 0x3FB9_9999_9999_999A;

/// The pattern of positive infinity.
pub const INFINITY: u64 = 0x7FF0_0000_0000_0000;

/// Whether the sign bit is set.
pub open spec fn is_negative(bits: u64) -> bool {
    bits >> 63 == 1
}

/// The biased exponent: eleven bits.
pub open spec fn exponent(bits: u64) -> u64 {
    (bits >> 52) & 0x7FF
}

/// The fraction: fifty-two bits.
pub open spec fn fraction(bits: u64) -> u64 {
    bits & 0x000F_FFFF_FFFF_FFFF
}

/// Not a number: the exponent is all ones and the fraction is not zero.
pub open spec fn is_nan(bits: u64) -> bool {
    exponent(bits) == 0x7FF && fraction(bits) != 0
}

/// Zero of either sign: exponent and fraction are both zero.
pub open spec fn is_zero(bits: u64) -> bool {
    exponent(bits) == 0 && fraction(bits) == 0
}

/// Strictly above zero. A NaN is above nothing; positive infinity is above
/// zero.
pub open spec fn is_positive(bits: u64) -> bool {
    !is_negative(bits) && !is_nan(bits) && !is_zero(bits)
}

/// Whether the magnitude of `a` is at most that of `b`, for two values that
/// are not NaN: the larger exponent wins, and the fraction decides between
/// equal exponents.
pub open spec fn magnitude_at_most(a: u64, b: u64) -> bool {
    exponent(a) < exponent(b) || (exponent(a) == exponent(b) && fraction(a) <= fraction(b))
}

/// The order `a <= b` of IEEE 754. A NaN is in no order with anything, the
/// two zeros are equal, a negative value is below every value that is not
/// negative, and between two values of one sign the magnitudes decide.
pub open spec fn at_most(a: u64, b: u64) -> bool {
    &&& !is_nan(a)
    &&& !is_nan(b)
    &&& {
        ||| is_zero(a) && is_zero(b)
        ||| is_negative(a) && !is_negative(b)
        ||| !is_negative(a) && !is_negative(b) && magnitude_at_most(a, b)
        ||| is_negative(a) && is_negative(b) && magnitude_at_most(b, a)
    }
}

/// The equality `a == b` of IEEE 754. A NaN equals nothing, not even itself,
/// and the two zeros are equal; any other value equals only itself.
pub open spec fn same_value(a: u64, b: u64) -> bool {
    &&& !is_nan(a)
    &&& !is_nan(b)
    &&& (a == b || (is_zero(a) && is_zero(b)))
}

/// Among the patterns, the positive values are those from the smallest
/// subnormal up to positive infinity.
pub proof fn positive_patterns(bits: u64)
    ensures
        is_positive(bits) <==> 0 < bits <= INFINITY,
{
    let s: u64 = bits >> 63;
    let e: u64 = exponent(bits);
    let f: u64 = fraction(bits);
    assert((s != 1 && !(e == 0x7FF && f != 0) && !(e == 0 && f == 0)) <==> (0 < bits && bits
        <= 0x7FF0_0000_0000_0000)) by (bit_vector)
        requires
            s == bits >> 63,
            e == (bits >> 52) & 0x7FF,
            f == bits & 0x000F_FFFF_FFFF_FFFF,
    ;
}

/// Between two positive values the patterns are ordered as the values are.
pub proof fn positive_order(a: u64, b: u64)
    requires
        is_positive(a),
        is_positive(b),
    ensures
        at_most(a, b) <==> a <= b,
{
    positive_patterns(a);
    positive_patterns(b);
    let ea: u64 = exponent(a);
    let fa: u64 = fraction(a);
    let eb: u64 = exponent(b);
    let fb: u64 = fraction(b);
    assert(a <= b <==> ea < eb || (ea == eb && fa <= fb)) by (bit_vector)
        requires
            a <= 0x7FF0_0000_0000_0000,
            b <= 0x7FF0_0000_0000_0000,
            ea == (a >> 52) & 0x7FF,
            fa == a & 0x000F_FFFF_FFFF_FFFF,
            eb == (b >> 52) & 0x7FF,
            fb == b & 0x000F_FFFF_FFFF_FFFF,
    ;
}

/// Two positive values are equal exactly when their patterns are.
pub proof fn positive_equality(a: u64, b: u64)
    requires
        is_positive(a),
        is_positive(b),
    ensures
        same_value(a, b) <==> a == b,
{
}

/// Tells whether a value is strictly above zero.
pub fn positive(bits: u64) -> (r: bool)
    ensures
        r == is_positive(bits),
{
    proof {
        positive_patterns(bits);
    }
    0 < bits && bits <= INFINITY
}

/// The fields of one tenth: a clear sign, the exponent of 2^-4, and the
/// fraction of 1.6 rounded up in its last place. With the leading one the
/// fraction makes a significand in units of 2^-56; ten times the significand
/// is 2^56 and 4, so the value is off one tenth by 0.4 of such a unit, and no
/// other binary64 value is as near.
pub proof fn tenth_fields()
    ensures
        !is_negative(TENTH),
        exponent(TENTH) == 0x3FB,
        fraction(TENTH) == 0x9_9999_9999_999A,
        is_positive(TENTH),
        10 * (0x10_0000_0000_0000 + fraction(TENTH)) == 0x100_0000_0000_0000 + 4,
{
    assert(0x3FB9_9999_9999_999Au64 >> 63 == 0) by (bit_vector);
    assert((0x3FB9_9999_9999_999Au64 >> 52) & 0x7FF == 0x3FB) by (bit_vector);
    assert(0x3FB9_9999_9999_999Au64 & 0x000F_FFFF_FFFF_FFFF == 0x9_9999_9999_999A)
        by (bit_vector);
}

/// Tells whether a value is at most one tenth: a positive value up to the
/// pattern of one tenth, a zero, or a negative value that is not NaN.
pub fn small(bits: u64) -> (r: bool)
    ensures
        r == at_most(bits, TENTH),
{
    proof {
        tenth_fields();
        let s: u64 = bits >> 63;
        let e: u64 = exponent(bits);
        let f: u64 = fraction(bits);
        assert((!(e == 0x7FF && f != 0) && (s == 1 || e < 0x3FB || (e == 0x3FB && f
            <= 0x9_9999_9999_999A))) <==> (bits <= 0x3FB9_9999_9999_999A || (0x8000_0000_0000_0000
            <= bits && bits <= 0xFFF0_0000_0000_0000))) by (bit_vector)
            requires
                s == bits >> 63,
                e == (bits >> 52) & 0x7FF,
                f == bits & 0x000F_FFFF_FFFF_FFFF,
        ;
    }
    bits <= TENTH || (0x8000_0000_0000_0000 <= bits && bits <= 0xFFF0_0000_0000_0000)
}

/// The pattern that `rustc_apfloat` gives for `a + b`.
pub uninterp spec fn sum_of(a: u64, b: u64) -> u64;

/// The pattern that `rustc_apfloat` gives for `a - b`.
pub uninterp spec fn difference_of(a: u64, b: u64) -> u64;

/// The pattern that `rustc_apfloat` gives for `a * b`.
pub uninterp spec fn product_of(a: u64, b: u64) -> u64;

/// The pattern that `rustc_apfloat` gives for `a / b`.
pub uninterp spec fn quotient_of(a: u64, b: u64) -> u64;

/// Adds `b` to `a`.
///
/// Trusted: `rustc_apfloat`'s `Add` for `ieee::Double`, which adds with
/// `Round::NearestTiesToEven`, between `Float::from_bits` and
/// `Float::to_bits`. The status flags that come with the value are dropped.
/// The contract claims only that the pattern returned depends on the two
/// patterns given and on nothing else.
#[verifier::external_body]
pub(crate) fn sum(a: u64, b: u64) -> (r: u64)
    ensures
        r == sum_of(a, b),
{
    (Double::from_bits(a as u128) + Double::from_bits(b as u128)).value.to_bits() as u64
}

/// Subtracts `b` from `a`.
///
/// Trusted: `rustc_apfloat`'s `Sub` for `ieee::Double`, which subtracts with
/// `Round::NearestTiesToEven`, between `Float::from_bits` and
/// `Float::to_bits`. The status flags are dropped. The contract claims only
/// that the pattern returned depends on the two patterns given and on
/// nothing else.
#[verifier::external_body]
pub(crate) fn difference(a: u64, b: u64) -> (r: u64)
    ensures
        r == difference_of(a, b),
{
    (Double::from_bits(a as u128) - Double::from_bits(b as u128)).value.to_bits() as u64
}

/// Multiplies `a` by `b`.
///
/// Trusted: `rustc_apfloat`'s `Mul` for `ieee::Double`, which multiplies with
/// `Round::NearestTiesToEven`, between `Float::from_bits` and
/// `Float::to_bits`. The status flags are dropped. The contract claims only
/// that the pattern returned depends on the two patterns given and on
/// nothing else.
#[verifier::external_body]
pub(crate) fn product(a: u64, b: u64) -> (r: u64)
    ensures
        r == product_of(a, b),
{
    (Double::from_bits(a as u128) * Double::from_bits(b as u128)).value.to_bits() as u64
}

/// Divides `a` by `b`.
///
/// Trusted: `rustc_apfloat`'s `Div` for `ieee::Double`, which divides with
/// `Round::NearestTiesToEven`, between `Float::from_bits` and
/// `Float::to_bits`; a division by zero gives an infinity or a NaN and does
/// not panic. The status flags are dropped. The contract claims only that the
/// pattern returned depends on the two patterns given and on nothing else.
#[verifier::external_body]
pub(crate) fn quotient(a: u64, b: u64) -> (r: u64)
    ensures
        r == quotient_of(a, b),
{
    (Double::from_bits(a as u128) / Double::from_bits(b as u128)).value.to_bits() as u64
}

} // verus!
