//! Single-precision binary floating-point numbers, read as exact fractions.
//!
//! A duty cycle reaches this crate as the 32 bits of an IEEE 754 binary32
//! number. Every finite number of that format is a whole multiple of
//! 2^-149, so its value can be written exactly as an integer numerator over
//! the fixed denominator 2^149. The contracts of this crate speak of that
//! numerator, and nothing here ever rounds.

use vstd::prelude::*;
use vstd::arithmetic::mul::*;
use vstd::arithmetic::power2::*;

verus! {

/// Two to the power 23: the weight of the hidden bit of a significand.
pub const HIDDEN_BIT: u32 = 0x80_0000;

/// The exponent field that marks infinities and NaNs.
pub const EXPONENT_SPECIAL: u32 = 0xff;

/// The exponent field of the numbers from one up to, but not including, two.
pub const EXPONENT_ONE: u32 = 127;

/// The bit that holds the sign, and so the bit pattern of negative zero.
pub const SIGN_BIT: u32 = 0x8000_0000;

/// The bit pattern of one.
pub const ONE: u32 = 0x3f80_0000;

/// The bit pattern of positive infinity: every pattern below it is a finite
/// number that is not negative.
pub const INFINITY: u32 = 0x7f80_0000;

/// The denominator shared by all finite numbers: two to the power 149.
pub open spec fn denominator() -> nat {
    pow2(149)
}

/// The bit pattern of a binary32 number.
///
/// From the most significant bit down: one sign bit, eight bits of biased
/// exponent, twenty-three bits of fraction.
#[derive(Clone, Copy, Debug, PartialEq, Eq, Structural)]
pub struct Binary32 {
    /// The 32 bits of the number.
    pub bits: u32,
}

impl Binary32 {
    /// Whether the sign bit is set.
    pub open spec fn is_negative(self) -> bool {
        self.bits >= SIGN_BIT
    }

    /// The eight-bit exponent field, still biased.
    pub open spec fn exponent_field(self) -> int {
        (self.bits as int / HIDDEN_BIT as int) % 0x100
    }

    /// The twenty-three-bit fraction field.
    pub open spec fn fraction_field(self) -> int {
        self.bits as int % HIDDEN_BIT as int
    }

    /// Whether the number is neither an infinity nor a NaN.
    pub open spec fn is_finite(self) -> bool {
        self.exponent_field() != EXPONENT_SPECIAL
    }

    /// The significand as an integer: the fraction field, with the hidden
    /// bit in front of it unless the number is subnormal.
    pub open spec fn significand(self) -> int {
        if self.exponent_field() == 0 {
            self.fraction_field()
        } else {
            HIDDEN_BIT + self.fraction_field()
        }
    }

    /// The power of two by which the significand is multiplied to give the
    /// magnitude in units of 2^-149.
    pub open spec fn scale(self) -> nat {
        if self.exponent_field() == 0 {
            0
        } else {
            (self.exponent_field() - 1) as nat
        }
    }

    /// The absolute value of a finite number, in units of 2^-149.
    pub open spec fn magnitude(self) -> nat {
        (self.significand() * pow2(self.scale())) as nat
    }

    /// The value of a finite number, in units of 2^-149: the number itself
    /// is `numerator() / denominator()`. Both zeros have numerator zero.
    pub open spec fn numerator(self) -> int {
        if self.is_negative() {
            -(self.magnitude() as int)
        } else {
            self.magnitude() as int
        }
    }

    /// The number with the given bit pattern.
    pub fn from_bits(bits: u32) -> (number: Binary32)
        ensures
            number.bits == bits,
    {
        Binary32 { bits }
    }

    /// The bit pattern of the number.
    pub fn to_bits(self) -> (bits: u32)
        ensures
            bits == self.bits,
    {
        self.bits
    }
}

/// The fields of a bit pattern stay within their widths, and the magnitude is
/// the product of a non-negative significand and a positive power of two.
pub proof fn lemma_fields_bounded(x: Binary32)
    ensures
        0 <= x.exponent_field() <= 0xff,
        0 <= x.fraction_field() < HIDDEN_BIT,
        0 <= x.significand() < 2 * HIDDEN_BIT,
        x.scale() <= 254,
        x.magnitude() == x.significand() * pow2(x.scale()),
        x.magnitude() == 0 <==> (x.exponent_field() == 0 && x.fraction_field() == 0),
{
    let s = x.significand();
    let p = pow2(x.scale()) as int;
    lemma_pow2_pos(x.scale());
    lemma_mul_nonnegative(s, p);
    if s > 0 {
        lemma_mul_strictly_positive(s, p);
    } else {
        lemma_mul_basics(p);
    }
}

/// One: sign clear, exponent field 127, fraction zero. Its numerator is the
/// denominator.
pub proof fn lemma_one(x: Binary32)
    requires
        x.bits == ONE,
    ensures
        x.is_finite(),
        !x.is_negative(),
        x.numerator() == denominator(),
{
    assert(x.exponent_field() == 127);
    assert(x.fraction_field() == 0);
    assert(x.scale() == 126);
    lemma_pow2_adds(23, 126);
    lemma2_to64();
    lemma_mul_is_commutative(pow2(23) as int, pow2(126) as int);
}

/// A finite number is at most one exactly when its exponent field is below
/// 127, or is 127 with a fraction field of zero.
pub proof fn lemma_magnitude_at_most_one(x: Binary32)
    requires
        x.is_finite(),
    ensures
        x.magnitude() <= denominator() <==> (x.exponent_field() < EXPONENT_ONE || (
        x.exponent_field() == EXPONENT_ONE && x.fraction_field() == 0)),
{
    lemma_fields_bounded(x);
    lemma2_to64();
    let e = x.exponent_field();
    let f = x.fraction_field();
    let s = x.significand();
    let k = x.scale();
    let p = pow2(k) as int;
    lemma_pow2_pos(k);
    if e == 0 {
        assert(s * p == s) by {
            lemma_mul_basics(s);
        }
        lemma_pow2_strictly_increases(23, 149);
    } else if e < 127 {
        // s < 2^24 and 2^k <= 2^125, so s * 2^k < 2^149
        if k < 125 {
            lemma_pow2_strictly_increases(k, 125);
        }
        lemma_mul_strict_inequality(s, pow2(24) as int, p);
        lemma_mul_inequality(p, pow2(125) as int, pow2(24) as int);
        lemma_mul_is_commutative(p, pow2(24) as int);
        lemma_mul_is_commutative(pow2(125) as int, pow2(24) as int);
        lemma_pow2_adds(24, 125);
    } else if e == 127 {
        // s * 2^126 = 2^149 + f * 2^126
        lemma_pow2_adds(23, 126);
        lemma_mul_is_distributive_add_other_way(p, pow2(23) as int, f);
        if f > 0 {
            lemma_mul_strictly_positive(f, p);
        } else {
            lemma_mul_basics(p);
        }
    } else {
        // s >= 2^23 and 2^k >= 2^127, so s * 2^k >= 2^150 > 2^149
        if k > 127 {
            lemma_pow2_strictly_increases(127, k);
        }
        lemma_mul_inequality(pow2(23) as int, s, p);
        lemma_mul_inequality(pow2(127) as int, p, pow2(23) as int);
        lemma_mul_is_commutative(p, pow2(23) as int);
        lemma_mul_is_commutative(pow2(127) as int, pow2(23) as int);
        lemma_pow2_adds(23, 127);
        lemma_pow2_strictly_increases(149, 150);
    }
}

/// Among the finite numbers that are not negative, a larger bit pattern is a
/// larger number.
pub proof fn lemma_order_by_bits(lower: Binary32, upper: Binary32)
    requires
        lower.bits < upper.bits < INFINITY,
    ensures
        0 <= lower.numerator() < upper.numerator(),
{
    lemma_fields_bounded(lower);
    lemma_fields_bounded(upper);
    lemma2_to64();
    let low = pow2(lower.scale()) as int;
    let high = pow2(upper.scale()) as int;
    lemma_pow2_pos(lower.scale());
    lemma_pow2_pos(upper.scale());
    if lower.scale() == upper.scale() {
        // the same power of two, and the smaller significand
        lemma_mul_strict_inequality(lower.significand(), upper.significand(), high);
    } else {
        // the next power of two is at least twice the lower one, and a
        // significand below 2^24 cannot make up for it
        lemma_pow2_adds(lower.scale(), 1);
        if lower.scale() + 1 < upper.scale() {
            lemma_pow2_strictly_increases(lower.scale() + 1, upper.scale());
        }
        lemma_mul_strict_inequality(lower.significand(), pow2(24) as int, low);
        lemma_mul_is_associative(pow2(23) as int, 2, low);
        lemma_mul_is_commutative(2, low);
        lemma_mul_inequality(2 * low, high, pow2(23) as int);
        lemma_mul_is_commutative(2 * low, pow2(23) as int);
        lemma_mul_is_commutative(high, pow2(23) as int);
        lemma_mul_inequality(pow2(23) as int, upper.significand(), high);
    }
}

} // verus!
