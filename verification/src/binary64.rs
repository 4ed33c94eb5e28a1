//! IEEE 754 binary64 values by their bit pattern: classification, sign
//! operations and the comparison predicates of the standard.

use vstd::prelude::*;

verus! {

/// Pattern in which only the sign bit is set.
pub const SIGN_BIT: u64 = 0x8000_0000_0000_0000;

/// Magnitude of the two infinities. Every larger magnitude is a NaN.
pub const INFINITY_MAGNITUDE: u64 = 0x7ff0_0000_0000_0000;

/// Pattern of `1.0`.
pub const ONE_BITS: u64 = 0x3ff0_0000_0000_0000;

/// Pattern of `0.5`.
pub const HALF_BITS: u64 = 0x3fe0_0000_0000_0000;

/// Pattern of the binary64 value closest to the circle constant.
pub const PI_BITS: u64 = 0x4009_21fb_5444_2d18;

/// A binary64 value, held as the 64 bits of its interchange format.
///
/// The derived `==` compares patterns: it tells `+0.0` from `-0.0` and finds a
/// NaN equal to itself. The equality of the standard is [`Binary64::same_value`].
#[derive(Clone, Copy, Debug, PartialEq, Eq, Structural)]
pub struct Binary64 {
    pub bits: u64,
}

impl Binary64 {
    /// The pattern without its sign bit.
    pub open spec fn magnitude(self) -> u64 {
        if self.bits >= SIGN_BIT {
            (self.bits - SIGN_BIT) as u64
        } else {
            self.bits
        }
    }

    /// The sign bit is set. This holds of `-0.0` and of some NaNs too.
    pub open spec fn sign_bit(self) -> bool {
        self.bits >= SIGN_BIT
    }

    pub open spec fn spec_is_nan(self) -> bool {
        self.magnitude() > INFINITY_MAGNITUDE
    }

    pub open spec fn spec_is_finite(self) -> bool {
        self.magnitude() < INFINITY_MAGNITUDE
    }

    pub open spec fn spec_is_zero(self) -> bool {
        self.magnitude() == 0
    }

    /// Position of a value that is no NaN on the extended real line, as an
    /// integer that grows with the value. Both zeros stand at 0.
    pub open spec fn rank(self) -> int {
        if self.sign_bit() {
            -(self.magnitude() as int)
        } else {
            self.magnitude() as int
        }
    }

    /// Neither operand is a NaN.
    pub open spec fn ordered_with(self, other: Binary64) -> bool {
        !self.spec_is_nan() && !other.spec_is_nan()
    }

    pub open spec fn spec_lt(self, other: Binary64) -> bool {
        self.ordered_with(other) && self.rank() < other.rank()
    }

    pub open spec fn spec_le(self, other: Binary64) -> bool {
        self.ordered_with(other) && self.rank() <= other.rank()
    }

    pub open spec fn spec_gt(self, other: Binary64) -> bool {
        other.spec_lt(self)
    }

    pub open spec fn spec_ge(self, other: Binary64) -> bool {
        other.spec_le(self)
    }

    pub open spec fn spec_same_value(self, other: Binary64) -> bool {
        self.ordered_with(other) && self.rank() == other.rank()
    }

    pub open spec fn spec_abs(self) -> Binary64 {
        Binary64 { bits: self.magnitude() }
    }

    pub open spec fn spec_neg(self) -> Binary64 {
        if self.bits >= SIGN_BIT {
            Binary64 { bits: (self.bits - SIGN_BIT) as u64 }
        } else {
            Binary64 { bits: (self.bits + SIGN_BIT) as u64 }
        }
    }

    pub open spec fn spec_from_bits(bits: u64) -> Binary64 {
        Binary64 { bits }
    }

    pub open spec fn spec_zero() -> Binary64 {
        Binary64 { bits: 0 }
    }

    pub open spec fn spec_one() -> Binary64 {
        Binary64 { bits: ONE_BITS }
    }

    pub open spec fn spec_half() -> Binary64 {
        Binary64 { bits: HALF_BITS }
    }

    pub open spec fn spec_pi() -> Binary64 {
        Binary64 { bits: PI_BITS }
    }

    #[verifier::when_used_as_spec(spec_from_bits)]
    pub fn from_bits(bits: u64) -> (r: Binary64)
        ensures
            r == Binary64::spec_from_bits(bits),
    {
        Binary64 { bits }
    }

    pub fn to_bits(self) -> (r: u64)
        ensures
            r == self.bits,
    {
        self.bits
    }

    /// `+0.0`.
    #[verifier::when_used_as_spec(spec_zero)]
    pub fn zero() -> (r: Binary64)
        ensures
            r == Binary64::spec_zero(),
    {
        Binary64 { bits: 0 }
    }

    /// `1.0`.
    #[verifier::when_used_as_spec(spec_one)]
    pub fn one() -> (r: Binary64)
        ensures
            r == Binary64::spec_one(),
    {
        Binary64 { bits: ONE_BITS }
    }

    /// `0.5`.
    #[verifier::when_used_as_spec(spec_half)]
    pub fn half() -> (r: Binary64)
        ensures
            r == Binary64::spec_half(),
    {
        Binary64 { bits: HALF_BITS }
    }

    /// The binary64 value closest to the circle constant.
    #[verifier::when_used_as_spec(spec_pi)]
    pub fn pi() -> (r: Binary64)
        ensures
            r == Binary64::spec_pi(),
    {
        Binary64 { bits: PI_BITS }
    }

    fn magnitude_bits(self) -> (r: u64)
        ensures
            r == self.magnitude(),
    {
        if self.bits >= SIGN_BIT {
            self.bits - SIGN_BIT
        } else {
            self.bits
        }
    }

    #[verifier::when_used_as_spec(spec_is_nan)]
    pub fn is_nan(self) -> (r: bool)
        ensures
            r == self.spec_is_nan(),
    {
        self.magnitude_bits() > INFINITY_MAGNITUDE
    }

    /// Neither a NaN nor an infinity.
    #[verifier::when_used_as_spec(spec_is_finite)]
    pub fn is_finite(self) -> (r: bool)
        ensures
            r == self.spec_is_finite(),
    {
        self.magnitude_bits() < INFINITY_MAGNITUDE
    }

    /// `+0.0` or `-0.0`.
    #[verifier::when_used_as_spec(spec_is_zero)]
    pub fn is_zero(self) -> (r: bool)
        ensures
            r == self.spec_is_zero(),
    {
        self.magnitude_bits() == 0
    }

    /// The value with its sign bit cleared.
    #[verifier::when_used_as_spec(spec_abs)]
    pub fn abs(self) -> (r: Binary64)
        ensures
            r == self.spec_abs(),
    {
        Binary64 { bits: self.magnitude_bits() }
    }

    /// The value with its sign bit flipped.
    #[verifier::when_used_as_spec(spec_neg)]
    pub fn neg(self) -> (r: Binary64)
        ensures
            r == self.spec_neg(),
    {
        if self.bits >= SIGN_BIT {
            Binary64 { bits: self.bits - SIGN_BIT }
        } else {
            Binary64 { bits: self.bits + SIGN_BIT }
        }
    }

    /// `self < other` as the standard defines it: false if either is a NaN.
    #[verifier::when_used_as_spec(spec_lt)]
    pub fn lt(self, other: Binary64) -> (r: bool)
        ensures
            r == self.spec_lt(other),
    {
        if self.is_nan() || other.is_nan() {
            return false;
        }
        let a: u64 = self.magnitude_bits();
        let b: u64 = other.magnitude_bits();
        if self.bits >= SIGN_BIT {
            if other.bits >= SIGN_BIT {
                b < a
            } else {
                a != 0 || b != 0
            }
        } else {
            if other.bits >= SIGN_BIT {
                false
            } else {
                a < b
            }
        }
    }

    /// `self <= other` as the standard defines it: false if either is a NaN.
    #[verifier::when_used_as_spec(spec_le)]
    pub fn le(self, other: Binary64) -> (r: bool)
        ensures
            r == self.spec_le(other),
    {
        if self.is_nan() || other.is_nan() {
            return false;
        }
        let a: u64 = self.magnitude_bits();
        let b: u64 = other.magnitude_bits();
        if self.bits >= SIGN_BIT {
            if other.bits >= SIGN_BIT {
                b <= a
            } else {
                true
            }
        } else {
            if other.bits >= SIGN_BIT {
                a == 0 && b == 0
            } else {
                a <= b
            }
        }
    }

    /// `self > other` as the standard defines it: false if either is a NaN.
    #[verifier::when_used_as_spec(spec_gt)]
    pub fn gt(self, other: Binary64) -> (r: bool)
        ensures
            r == self.spec_gt(other),
    {
        other.lt(self)
    }

    /// `self >= other` as the standard defines it: false if either is a NaN.
    #[verifier::when_used_as_spec(spec_ge)]
    pub fn ge(self, other: Binary64) -> (r: bool)
        ensures
            r == self.spec_ge(other),
    {
        other.le(self)
    }

    /// `self == other` as the standard defines it: the zeros are equal to each
    /// other and a NaN is equal to nothing.
    #[verifier::when_used_as_spec(spec_same_value)]
    pub fn same_value(self, other: Binary64) -> (r: bool)
        ensures
            r == self.spec_same_value(other),
    {
        if self.is_nan() || other.is_nan() {
            return false;
        }
        let a: u64 = self.magnitude_bits();
        let b: u64 = other.magnitude_bits();
        self.bits == other.bits || (a == 0 && b == 0)
    }
}

} // verus!
