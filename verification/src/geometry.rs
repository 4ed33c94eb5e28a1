//! Plane values of the billiard table: points, direction vectors, legs and
//! the ellipse itself. Coordinates are those of the ellipse, centred at the
//! origin with its major axis on the x-axis.

use vstd::prelude::*;
use crate::binary64::Binary64;
use crate::value::{lemma_constant_values, lemma_order_is_value_order};

verus! {

/// A position in the plane of the ellipse.
#[derive(Clone, Copy, Debug, PartialEq, Eq, Structural)]
pub struct Point {
    pub x: Binary64,
    pub y: Binary64,
}

/// A direction in the plane, not necessarily of unit length.
#[derive(Clone, Copy, Debug, PartialEq, Eq, Structural)]
pub struct Vector {
    pub x: Binary64,
    pub y: Binary64,
}

/// One straight leg of the path.
#[derive(Clone, Copy, Debug, PartialEq, Eq, Structural)]
pub struct Segment {
    pub start: Point,
    pub end: Point,
}

/// An axis-aligned ellipse centred at the origin, `x²/a² + y²/b² = 1`.
#[derive(Clone, Copy, Debug, PartialEq, Eq, Structural)]
pub struct Ellipse {
    pub semi_major: Binary64,
    pub semi_minor: Binary64,
}

impl Ellipse {
    /// The ellipse of the billiard table: the given semi-major axis over a
    /// semi-minor axis of one.
    pub open spec fn spec_with_unit_minor(semi_major: Binary64) -> Ellipse {
        Ellipse { semi_major, semi_minor: Binary64::spec_one() }
    }

    /// `a ≥ b > 0`: the semi-axes describe an ellipse, the longer one on x.
    pub open spec fn spec_is_proper(self) -> bool {
        self.semi_minor.spec_gt(Binary64::spec_zero()) && self.semi_major.spec_ge(self.semi_minor)
    }

    #[verifier::when_used_as_spec(spec_with_unit_minor)]
    pub fn with_unit_minor(semi_major: Binary64) -> (r: Ellipse)
        ensures
            r == Ellipse::spec_with_unit_minor(semi_major),
    {
        Ellipse { semi_major, semi_minor: Binary64::one() }
    }

    #[verifier::when_used_as_spec(spec_is_proper)]
    pub fn is_proper(self) -> (r: bool)
        ensures
            r == self.spec_is_proper(),
    {
        self.semi_minor.gt(Binary64::zero()) && self.semi_major.ge(self.semi_minor)
    }
}

/// An ellipse is proper exactly when neither semi-axis is a NaN and their
/// values satisfy `a ≥ b > 0`.
pub proof fn lemma_proper_by_value(ellipse: Ellipse)
    ensures
        ellipse.spec_is_proper() <==> {
            &&& !ellipse.semi_major.spec_is_nan()
            &&& !ellipse.semi_minor.spec_is_nan()
            &&& ellipse.semi_major.scaled_value() >= ellipse.semi_minor.scaled_value()
            &&& ellipse.semi_minor.scaled_value() > 0
        },
        Ellipse::spec_with_unit_minor(ellipse.semi_major).spec_is_proper()
            <==> ellipse.semi_major.spec_ge(Binary64::spec_one()),
{
    lemma_constant_values();
    if !ellipse.semi_minor.spec_is_nan() {
        lemma_order_is_value_order(ellipse.semi_minor, Binary64::spec_zero());
        if !ellipse.semi_major.spec_is_nan() {
            lemma_order_is_value_order(ellipse.semi_major, ellipse.semi_minor);
        }
    }
    lemma_order_is_value_order(Binary64::spec_one(), Binary64::spec_zero());
}

} // verus!
