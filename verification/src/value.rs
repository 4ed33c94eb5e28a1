//! The exact value behind a bit pattern, and the proof that the comparisons
//! of [`crate::binary64`] order patterns as their values are ordered.
//!
//! A finite binary64 value is an integer multiple of `2^-1074`. The model
//! here is that multiple: the value times `2^1074`.

use vstd::prelude::*;
use vstd::arithmetic::power2::{
    lemma2_to64, lemma2_to64_rest, lemma_pow2_adds, lemma_pow2_pos, lemma_pow2_strictly_increases,
    lemma_pow2_unfold, pow2,
};
use crate::binary64::Binary64;

verus! {

/// `2^52`: the weight of the implicit leading bit of a normal significand, and
/// the number of patterns that share one exponent.
pub const HIDDEN_BIT: u64 = 0x10_0000_0000_0000;

impl Binary64 {
    /// The biased exponent: 0 for zeros and subnormals, 2047 for infinities
    /// and NaNs.
    pub open spec fn exponent_field(self) -> nat {
        (self.magnitude() / HIDDEN_BIT) as nat
    }

    /// The 52 bits below the exponent.
    pub open spec fn fraction_field(self) -> nat {
        (self.magnitude() % HIDDEN_BIT) as nat
    }

    /// The significand as an integer: the fraction, with the implicit leading
    /// bit for a normal value.
    pub open spec fn significand(self) -> nat {
        if self.exponent_field() == 0 {
            self.fraction_field()
        } else {
            HIDDEN_BIT as nat + self.fraction_field()
        }
    }

    /// The power of two that scales the significand, counted from that of
    /// the subnormals.
    pub open spec fn scale(self) -> nat {
        if self.exponent_field() == 0 {
            0
        } else {
            (self.exponent_field() - 1) as nat
        }
    }

    /// The absolute value of a finite pattern, times `2^1074`.
    pub open spec fn scaled_magnitude(self) -> nat {
        self.significand() * pow2(self.scale())
    }

    /// The value of a finite pattern, times `2^1074`.
    pub open spec fn scaled_value(self) -> int {
        if self.sign_bit() {
            -(self.scaled_magnitude() as int)
        } else {
            self.scaled_magnitude() as int
        }
    }
}

/// A larger magnitude pattern stands for a larger absolute value.
pub proof fn lemma_magnitude_orders_value(a: Binary64, b: Binary64)
    requires
        a.magnitude() < b.magnitude(),
    ensures
        a.scaled_magnitude() < b.scaled_magnitude(),
{
    let p = pow2(a.scale());
    let q = pow2(b.scale());
    let sa = a.significand();
    let sb = b.significand();
    lemma_pow2_pos(a.scale());
    lemma_pow2_pos(b.scale());
    if a.exponent_field() == b.exponent_field() {
        assert(sa * p < sb * p) by (nonlinear_arith)
            requires
                sa < sb,
                p > 0,
        ;
    } else if a.exponent_field() == 0 {
        lemma2_to64();
        assert(sa * p == sa) by (nonlinear_arith)
            requires
                p == 1,
        ;
        assert(sb * q >= sb) by (nonlinear_arith)
            requires
                q >= 1,
        ;
    } else {
        let next = a.scale() + 1;
        lemma_pow2_unfold(next);
        if next < b.scale() {
            lemma_pow2_strictly_increases(next, b.scale());
        }
        assert(sa * p < sb * q) by (nonlinear_arith)
            requires
                sa < 2 * HIDDEN_BIT,
                sb >= HIDDEN_BIT,
                2 * p <= q,
                p > 0,
        ;
    }
}

/// Only the zeros have the value zero.
pub proof fn lemma_zero_value(a: Binary64)
    ensures
        a.spec_is_zero() <==> a.scaled_value() == 0,
{
    let zero = Binary64 { bits: 0 };
    lemma2_to64();
    assert(zero.scaled_magnitude() == 0) by (nonlinear_arith)
        requires
            zero.significand() == 0,
            zero.scaled_magnitude() == zero.significand() * pow2(zero.scale()),
    ;
    if a.magnitude() > 0 {
        lemma_magnitude_orders_value(zero, a);
    } else {
        assert(a.scaled_magnitude() == zero.scaled_magnitude());
    }
}

/// The comparisons order two values that are no NaNs as the real numbers
/// they stand for are ordered. (An infinity stands at `±2^1024` in this
/// model, beyond every finite value.)
pub proof fn lemma_order_is_value_order(a: Binary64, b: Binary64)
    requires
        !a.spec_is_nan(),
        !b.spec_is_nan(),
    ensures
        a.spec_lt(b) <==> a.scaled_value() < b.scaled_value(),
        a.spec_le(b) <==> a.scaled_value() <= b.scaled_value(),
        a.spec_gt(b) <==> a.scaled_value() > b.scaled_value(),
        a.spec_ge(b) <==> a.scaled_value() >= b.scaled_value(),
        a.spec_same_value(b) <==> a.scaled_value() == b.scaled_value(),
{
    lemma_zero_value(a);
    lemma_zero_value(b);
    if a.magnitude() < b.magnitude() {
        lemma_magnitude_orders_value(a, b);
    } else if b.magnitude() < a.magnitude() {
        lemma_magnitude_orders_value(b, a);
    } else {
        assert(a.scaled_magnitude() == b.scaled_magnitude());
    }
}

/// Changing the sign negates the value, and the absolute value is the value
/// without its sign.
pub proof fn lemma_sign_operations(a: Binary64)
    ensures
        a.spec_neg().scaled_value() == -a.scaled_value(),
        a.spec_neg().scaled_magnitude() == a.scaled_magnitude(),
        a.spec_neg().sign_bit() == !a.sign_bit(),
        a.spec_abs().scaled_value() == a.scaled_magnitude(),
        a.spec_neg().spec_neg() == a,
        a.spec_abs().spec_abs() == a.spec_abs(),
{
}

/// The patterns of the named constants stand for `0`, `1/2` and `1`.
pub proof fn lemma_constant_values()
    ensures
        Binary64::spec_zero().scaled_value() == 0,
        2 * Binary64::spec_half().scaled_value() == pow2(1074),
        Binary64::spec_one().scaled_value() == pow2(1074),
{
    lemma_zero_value(Binary64::spec_zero());
    lemma2_to64_rest();
    let half = Binary64::spec_half();
    let one = Binary64::spec_one();
    assert(half.exponent_field() == 1022 && half.fraction_field() == 0);
    assert(one.exponent_field() == 1023 && one.fraction_field() == 0);
    lemma_pow2_adds(52, 1021);
    lemma_pow2_adds(52, 1022);
    lemma_pow2_unfold(1074);
}

/// The pattern of the circle constant stands for a value between
/// 3.141592653589793 and 3.141592653589794.
pub proof fn lemma_pi_value()
    ensures
        3141592653589793 * pow2(1074) <= 1000000000000000 * Binary64::spec_pi().scaled_value(),
        1000000000000000 * Binary64::spec_pi().scaled_value() <= 3141592653589794 * pow2(1074),
{
    let pi = Binary64::spec_pi();
    lemma2_to64_rest();
    assert(pi.exponent_field() == 1024 && pi.fraction_field() == 0x9_21fb_5444_2d18);
    assert(pi.significand() == 7074237752028440);
    lemma_pow2_adds(51, 1023);
    lemma_pow2_pos(1023);
    let unit = pow2(1023);
    assert(pow2(1074) == 0x8000000000000 * unit);
    assert(pi.scaled_value() == 7074237752028440 * unit);
    assert(3141592653589793 * (0x8000000000000 * unit) <= 1000000000000000 * (7074237752028440
        * unit) <= 3141592653589794 * (0x8000000000000 * unit)) by (nonlinear_arith)
        requires
            unit > 0,
    ;
}

} // verus!
