//! IEEE-754 binary64 numbers carried as their 64-bit patterns.
//!
//! Ordering, sign handling, `min` and `max` are defined and verified here on
//! the bit patterns. Rounded arithmetic is delegated to a software
//! floating-point implementation; each operation's result is a named function
//! of the operand bits.

use rustc_apfloat::Float;
use vstd::prelude::*;

verus! {

/// Pattern of the sign bit.
pub const SIGN_BIT: u64 = 0x8000_0000_0000_0000;

/// Pattern of positive infinity; every larger magnitude is a NaN.
pub const INFINITY_BITS: u64 = 0x7ff0_0000_0000_0000;

/// Pattern of `0.0`.
pub const ZERO_BITS: u64 = 0;

/// Pattern of `0.5`.
pub const HALF_BITS: u64 = 0x3fe0_0000_0000_0000;

/// Pattern of `1.0`.
pub const ONE_BITS: u64 = 0x3ff0_0000_0000_0000;

/// Pattern of `2.0`.
pub const TWO_BITS: u64 = 0x4000_0000_0000_0000;

/// Pattern of `3.0`.
pub const THREE_BITS: u64 = 0x4008_0000_0000_0000;

/// Pattern of `4.0`.
pub const FOUR_BITS: u64 = 0x4010_0000_0000_0000;

/// Pattern of the machine epsilon, `2^-52`.
pub const EPSILON_BITS: u64 = 0x3cb0_0000_0000_0000;

/// Pattern of the smallest positive normal number, `2^-1022`. A positive
/// pattern below it, other than zero, is a subnormal number.
pub const MIN_NORMAL_BITS: u64 = 0x0010_0000_0000_0000;

/// Pattern of `2^104`, which scales every positive subnormal number into
/// the normal range.
pub const SCALE_UP_BITS: u64 = 0x4670_0000_0000_0000;

/// Pattern of the square root of the machine epsilon, `2^-26`.
pub const SQRT_EPSILON_BITS: u64 = 0x3e50_0000_0000_0000;

/// Bits of the sum of the doubles with bits `a` and `b`, rounded to nearest.
pub uninterp spec fn sum_bits(a: u64, b: u64) -> u64;

/// Bits of the difference of the doubles with bits `a` and `b`, rounded to
/// nearest.
pub uninterp spec fn difference_bits(a: u64, b: u64) -> u64;

/// Bits of the product of the doubles with bits `a` and `b`, rounded to
/// nearest.
pub uninterp spec fn product_bits(a: u64, b: u64) -> u64;

/// Bits of the quotient of the doubles with bits `a` and `b`, rounded to
/// nearest.
pub uninterp spec fn quotient_bits(a: u64, b: u64) -> u64;

/// Bits of the square root of the double with bits `a`, rounded to nearest,
/// where `a` is not a positive subnormal number.
pub uninterp spec fn root_bits(a: u64) -> u64;

/// Calls `rustc_apfloat::ieee::Double`'s `+`, which rounds to nearest, ties
/// to even.
///
/// Trusted: the result is a function of the two bit patterns alone. The
/// outside function works on integers only and returns for every input.
#[verifier::external_body]
fn add_bits(a: u64, b: u64) -> (r: u64)
    ensures
        r == sum_bits(a, b),
{
    let x = rustc_apfloat::ieee::Double::from_bits(a as u128);
    let y = rustc_apfloat::ieee::Double::from_bits(b as u128);
    (x + y).value.to_bits() as u64
}

/// Calls `rustc_apfloat::ieee::Double`'s `-`, which rounds to nearest, ties
/// to even.
///
/// Trusted: the result is a function of the two bit patterns alone. The
/// outside function works on integers only and returns for every input.
#[verifier::external_body]
fn sub_bits(a: u64, b: u64) -> (r: u64)
    ensures
        r == difference_bits(a, b),
{
    let x = rustc_apfloat::ieee::Double::from_bits(a as u128);
    let y = rustc_apfloat::ieee::Double::from_bits(b as u128);
    (x - y).value.to_bits() as u64
}

/// Calls `rustc_apfloat::ieee::Double`'s `*`, which rounds to nearest, ties
/// to even.
///
/// Trusted: the result is a function of the two bit patterns alone. The
/// outside function works on integers only and returns for every input.
#[verifier::external_body]
fn mul_bits(a: u64, b: u64) -> (r: u64)
    ensures
        r == product_bits(a, b),
{
    let x = rustc_apfloat::ieee::Double::from_bits(a as u128);
    let y = rustc_apfloat::ieee::Double::from_bits(b as u128);
    (x * y).value.to_bits() as u64
}

/// Calls `rustc_apfloat::ieee::Double`'s `/`, which rounds to nearest, ties
/// to even.
///
/// Trusted: the result is a function of the two bit patterns alone. The
/// outside function works on integers only and returns for every input,
/// a zero divisor included.
#[verifier::external_body]
fn div_bits(a: u64, b: u64) -> (r: u64)
    ensures
        r == quotient_bits(a, b),
{
    let x = rustc_apfloat::ieee::Double::from_bits(a as u128);
    let y = rustc_apfloat::ieee::Double::from_bits(b as u128);
    (x / y).value.to_bits() as u64
}

/// Calls `softfloat::F64::sqrt` on the double with bits `a`.
///
/// Trusted: for a zero, a normal number, an infinity, a NaN and every
/// pattern with the sign bit set, the outside function works on integers of
/// fixed width only, returns, and gives a result that is a function of the
/// bit pattern alone. Positive subnormal numbers are left out: for them it
/// shifts a machine word by a count that can reach the width of the word.
#[verifier::external_body]
fn sqrt_bits(a: u64) -> (r: u64)
    requires
        a == 0 || a >= MIN_NORMAL_BITS,
    ensures
        r == root_bits(a),
{
    softfloat::F64::from_bits(a).sqrt().to_bits()
}

/// An IEEE-754 double, held as its bit pattern.
///
/// `==` on this type compares bit patterns; [`Double::same`] compares numbers.
#[derive(Clone, Copy, Debug, PartialEq, Eq)]
pub struct Double {
    pub bits: u64,
}

impl Double {
    /// The bit pattern without the sign bit.
    pub open spec fn magnitude(self) -> int {
        if self.bits >= SIGN_BIT {
            self.bits - SIGN_BIT
        } else {
            self.bits as int
        }
    }

    /// Whether the sign bit is set.
    pub open spec fn sign_bit(self) -> bool {
        self.bits >= SIGN_BIT
    }

    /// Whether the pattern is a NaN.
    pub open spec fn spec_is_nan(self) -> bool {
        self.magnitude() > INFINITY_BITS
    }

    /// Place of a number on the extended number line. For two numbers that
    /// are not NaN the ranks are ordered as the numbers are; both zeros have
    /// rank 0.
    pub open spec fn rank(self) -> int {
        if self.sign_bit() {
            -self.magnitude()
        } else {
            self.magnitude()
        }
    }

    /// `self < other` as IEEE-754 orders them: false if either is NaN.
    pub open spec fn spec_lt(self, other: Double) -> bool {
        !self.spec_is_nan() && !other.spec_is_nan() && self.rank() < other.rank()
    }

    /// `self <= other` as IEEE-754 orders them: false if either is NaN.
    pub open spec fn spec_le(self, other: Double) -> bool {
        !self.spec_is_nan() && !other.spec_is_nan() && self.rank() <= other.rank()
    }

    /// `self > other` as IEEE-754 orders them: false if either is NaN.
    pub open spec fn spec_gt(self, other: Double) -> bool {
        other.spec_lt(self)
    }

    /// `self >= other` as IEEE-754 orders them: false if either is NaN.
    pub open spec fn spec_ge(self, other: Double) -> bool {
        other.spec_le(self)
    }

    /// `self == other` as numbers: false if either is NaN, true for two zeros
    /// of different sign.
    pub open spec fn spec_same(self, other: Double) -> bool {
        !self.spec_is_nan() && !other.spec_is_nan() && self.rank() == other.rank()
    }

    /// The number with the sign bit cleared.
    pub open spec fn spec_abs(self) -> Double {
        Double { bits: self.magnitude() as u64 }
    }

    /// The number with the sign bit flipped.
    pub open spec fn spec_neg(self) -> Double {
        if self.sign_bit() {
            Double { bits: (self.bits - SIGN_BIT) as u64 }
        } else {
            Double { bits: (self.bits + SIGN_BIT) as u64 }
        }
    }

    /// The larger of two numbers; a NaN loses against a number, and `self`
    /// is kept when the two are equal.
    pub open spec fn spec_max(self, other: Double) -> Double {
        if self.spec_is_nan() || self.spec_lt(other) {
            other
        } else {
            self
        }
    }

    /// The smaller of two numbers; a NaN loses against a number, and `other`
    /// is kept when the two are equal.
    pub open spec fn spec_min(self, other: Double) -> Double {
        if other.spec_is_nan() || self.spec_lt(other) {
            self
        } else {
            other
        }
    }

    /// The rounded sum.
    pub open spec fn spec_add(self, rhs: Double) -> Double {
        Double { bits: sum_bits(self.bits, rhs.bits) }
    }

    /// The rounded difference.
    pub open spec fn spec_sub(self, rhs: Double) -> Double {
        Double { bits: difference_bits(self.bits, rhs.bits) }
    }

    /// The rounded product.
    pub open spec fn spec_mul(self, rhs: Double) -> Double {
        Double { bits: product_bits(self.bits, rhs.bits) }
    }

    /// The rounded quotient.
    pub open spec fn spec_div(self, rhs: Double) -> Double {
        Double { bits: quotient_bits(self.bits, rhs.bits) }
    }

    /// Whether the number is positive and subnormal.
    pub open spec fn is_positive_subnormal(self) -> bool {
        0 < self.bits < MIN_NORMAL_BITS
    }

    /// The rounded square root. A positive subnormal number is first
    /// multiplied by `2^104`, which is exact and gives a normal number; the
    /// root of that is multiplied by `2^-52`, which is exact too. Should the
    /// product be subnormal still, the number itself is the result.
    pub open spec fn spec_sqrt(self) -> Double {
        if !self.is_positive_subnormal() {
            Double { bits: root_bits(self.bits) }
        } else {
            let scaled = self.mul(Double::from_bits(SCALE_UP_BITS));
            if !scaled.is_positive_subnormal() {
                (Double { bits: root_bits(scaled.bits) }).mul(Double::from_bits(EPSILON_BITS))
            } else {
                self
            }
        }
    }

    /// The number with the given bit pattern.
    pub open spec fn spec_from_bits(bits: u64) -> Double {
        Double { bits }
    }

    /// The number with the given bit pattern.
    #[verifier::when_used_as_spec(spec_from_bits)]
    pub fn from_bits(bits: u64) -> (r: Double)
        ensures
            r == Double::spec_from_bits(bits),
    {
        Double { bits }
    }

    /// The number `0.0`.
    pub open spec fn spec_zero() -> Double {
        Double { bits: ZERO_BITS }
    }

    /// The number `0.0`.
    #[verifier::when_used_as_spec(spec_zero)]
    pub fn zero() -> (r: Double)
        ensures
            r == Double::spec_zero(),
    {
        Double { bits: ZERO_BITS }
    }

    /// The bit pattern of the number.
    pub fn to_bits(self) -> (r: u64)
        ensures
            r == self.bits,
    {
        self.bits
    }

    #[verifier::when_used_as_spec(spec_is_nan)]
    pub fn is_nan(self) -> (r: bool)
        ensures
            r == self.spec_is_nan(),
    {
        if self.bits >= SIGN_BIT {
            self.bits - SIGN_BIT > INFINITY_BITS
        } else {
            self.bits > INFINITY_BITS
        }
    }

    #[verifier::when_used_as_spec(spec_lt)]
    pub fn lt(self, other: Double) -> (r: bool)
        ensures
            r == self.spec_lt(other),
    {
        if self.is_nan() || other.is_nan() {
            false
        } else if self.bits >= SIGN_BIT {
            let a: u64 = self.bits - SIGN_BIT;
            if other.bits >= SIGN_BIT {
                a > other.bits - SIGN_BIT
            } else {
                a > 0 || other.bits > 0
            }
        } else if other.bits >= SIGN_BIT {
            false
        } else {
            self.bits < other.bits
        }
    }

    #[verifier::when_used_as_spec(spec_le)]
    pub fn le(self, other: Double) -> (r: bool)
        ensures
            r == self.spec_le(other),
    {
        if self.is_nan() || other.is_nan() {
            false
        } else if self.bits >= SIGN_BIT {
            if other.bits >= SIGN_BIT {
                self.bits >= other.bits
            } else {
                true
            }
        } else if other.bits >= SIGN_BIT {
            self.bits == 0 && other.bits == SIGN_BIT
        } else {
            self.bits <= other.bits
        }
    }

    #[verifier::when_used_as_spec(spec_gt)]
    pub fn gt(self, other: Double) -> (r: bool)
        ensures
            r == self.spec_gt(other),
    {
        other.lt(self)
    }

    #[verifier::when_used_as_spec(spec_ge)]
    pub fn ge(self, other: Double) -> (r: bool)
        ensures
            r == self.spec_ge(other),
    {
        other.le(self)
    }

    #[verifier::when_used_as_spec(spec_same)]
    pub fn same(self, other: Double) -> (r: bool)
        ensures
            r == self.spec_same(other),
    {
        self.le(other) && other.le(self)
    }

    #[verifier::when_used_as_spec(spec_abs)]
    pub fn abs(self) -> (r: Double)
        ensures
            r == self.spec_abs(),
    {
        if self.bits >= SIGN_BIT {
            Double { bits: self.bits - SIGN_BIT }
        } else {
            self
        }
    }

    #[verifier::when_used_as_spec(spec_neg)]
    pub fn neg(self) -> (r: Double)
        ensures
            r == self.spec_neg(),
    {
        if self.bits >= SIGN_BIT {
            Double { bits: self.bits - SIGN_BIT }
        } else {
            Double { bits: self.bits + SIGN_BIT }
        }
    }

    #[verifier::when_used_as_spec(spec_max)]
    pub fn max(self, other: Double) -> (r: Double)
        ensures
            r == self.spec_max(other),
    {
        if self.is_nan() || self.lt(other) {
            other
        } else {
            self
        }
    }

    #[verifier::when_used_as_spec(spec_min)]
    pub fn min(self, other: Double) -> (r: Double)
        ensures
            r == self.spec_min(other),
    {
        if other.is_nan() || self.lt(other) {
            self
        } else {
            other
        }
    }

    #[verifier::when_used_as_spec(spec_add)]
    pub fn add(self, rhs: Double) -> (r: Double)
        ensures
            r == self.spec_add(rhs),
    {
        Double { bits: add_bits(self.bits, rhs.bits) }
    }

    #[verifier::when_used_as_spec(spec_sub)]
    pub fn sub(self, rhs: Double) -> (r: Double)
        ensures
            r == self.spec_sub(rhs),
    {
        Double { bits: sub_bits(self.bits, rhs.bits) }
    }

    #[verifier::when_used_as_spec(spec_mul)]
    pub fn mul(self, rhs: Double) -> (r: Double)
        ensures
            r == self.spec_mul(rhs),
    {
        Double { bits: mul_bits(self.bits, rhs.bits) }
    }

    #[verifier::when_used_as_spec(spec_div)]
    pub fn div(self, rhs: Double) -> (r: Double)
        ensures
            r == self.spec_div(rhs),
    {
        Double { bits: div_bits(self.bits, rhs.bits) }
    }

    #[verifier::when_used_as_spec(spec_sqrt)]
    pub fn sqrt(self) -> (r: Double)
        ensures
            r == self.spec_sqrt(),
    {
        if self.bits == 0 || self.bits >= MIN_NORMAL_BITS {
            Double { bits: sqrt_bits(self.bits) }
        } else {
            let scaled = self.mul(Double::from_bits(SCALE_UP_BITS));
            if scaled.bits == 0 || scaled.bits >= MIN_NORMAL_BITS {
                let root = Double { bits: sqrt_bits(scaled.bits) };
                root.mul(Double::from_bits(EPSILON_BITS))
            } else {
                self
            }
        }
    }
}

} // verus!
