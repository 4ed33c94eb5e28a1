//! The decisions of a reflection at a boundary point: the rule that gives the
//! tangent, the normal turned from it, its orientation towards the interior,
//! and the test of the outgoing angle.

use vstd::prelude::*;
use crate::binary64::Binary64;
use crate::error::BilliardError;
use crate::geometry::{Point, Vector};

verus! {

/// How the tangent at a boundary point is obtained.
#[derive(Clone, Copy, Debug, PartialEq, Eq, Structural)]
pub enum TangentRule {
    /// The point is a vertex and the tangent is this axis direction.
    Fixed(Vector),
    /// The point lies off both axes and the tangent is `(x0, y0 − b²/y0)`,
    /// from the implicit slope of the ellipse. Its second component takes a
    /// division by `y0` and is left to the arithmetic.
    Implicit,
}

/// `(0, 1)` at a vertex on the x-axis, else `(1, 0)` at a vertex on the
/// y-axis, else the implicit rule.
pub open spec fn spec_tangent_rule(at: Point) -> TangentRule {
    if at.y.spec_is_zero() {
        TangentRule::Fixed(Vector { x: Binary64::spec_zero(), y: Binary64::spec_one() })
    } else if at.x.spec_is_zero() {
        TangentRule::Fixed(Vector { x: Binary64::spec_one(), y: Binary64::spec_zero() })
    } else {
        TangentRule::Implicit
    }
}

/// The tangent of the implicit rule, whose second component is `ordinate`.
pub open spec fn spec_implicit_tangent(at: Point, ordinate: Binary64) -> Vector {
    Vector { x: at.x, y: ordinate }
}

/// The tangent turned by a quarter: `(−ty, tx)`.
pub open spec fn spec_quarter_turn(tangent: Vector) -> Vector {
    Vector { x: tangent.y.spec_neg(), y: tangent.x }
}

/// The unit normal that points to the interior. `outward` is the dot product
/// of the normal with the position of the boundary point: where it is at
/// least zero the normal points away from the centre and is reversed.
pub open spec fn spec_orient_inward(unit: Vector, outward: Binary64) -> Vector {
    if outward.spec_ge(Binary64::spec_zero()) {
        Vector { x: unit.x.spec_neg(), y: unit.y.spec_neg() }
    } else {
        unit
    }
}

/// Selects the tangent rule for a boundary point. The implicit rule, which
/// divides by `at.y`, is selected only where neither coordinate is a zero.
#[verifier::when_used_as_spec(spec_tangent_rule)]
pub fn tangent_rule(at: Point) -> (rule: TangentRule)
    ensures
        rule == spec_tangent_rule(at),
{
    if at.y.is_zero() {
        TangentRule::Fixed(Vector { x: Binary64::zero(), y: Binary64::one() })
    } else if at.x.is_zero() {
        TangentRule::Fixed(Vector { x: Binary64::one(), y: Binary64::zero() })
    } else {
        TangentRule::Implicit
    }
}

#[verifier::when_used_as_spec(spec_implicit_tangent)]
pub fn implicit_tangent(at: Point, ordinate: Binary64) -> (tangent: Vector)
    ensures
        tangent == spec_implicit_tangent(at, ordinate),
{
    Vector { x: at.x, y: ordinate }
}

#[verifier::when_used_as_spec(spec_quarter_turn)]
pub fn quarter_turn(tangent: Vector) -> (normal: Vector)
    ensures
        normal == spec_quarter_turn(tangent),
{
    Vector { x: tangent.y.neg(), y: tangent.x }
}

#[verifier::when_used_as_spec(spec_orient_inward)]
pub fn orient_inward(unit: Vector, outward: Binary64) -> (normal: Vector)
    ensures
        normal == spec_orient_inward(unit, outward),
{
    if outward.ge(Binary64::zero()) {
        Vector { x: unit.x.neg(), y: unit.y.neg() }
    } else {
        unit
    }
}

/// Accepts a finite outgoing angle and reports any other.
pub fn check_angle(angle: Binary64) -> (r: Result<Binary64, BilliardError>)
    ensures
        angle.spec_is_finite() ==> r == Ok::<Binary64, BilliardError>(angle),
        !angle.spec_is_finite() ==> r == Err::<Binary64, BilliardError>(
            BilliardError::NonFiniteAngle,
        ),
{
    if angle.is_finite() {
        Ok(angle)
    } else {
        Err(BilliardError::NonFiniteAngle)
    }
}

/// At a point on the x-axis the tangent is the fixed direction `(0, 1)`: the
/// rule that divides by the ordinate is not selected.
pub proof fn lemma_vertex_tangent(at: Point)
    requires
        at.y.spec_is_zero(),
    ensures
        spec_tangent_rule(at) == TangentRule::Fixed(
            Vector { x: Binary64::spec_zero(), y: Binary64::spec_one() },
        ),
{
}

/// The implicit rule is selected only at points with a nonzero ordinate.
pub proof fn lemma_implicit_rule_divides_by_nonzero(at: Point)
    requires
        spec_tangent_rule(at) == TangentRule::Implicit,
    ensures
        !at.y.spec_is_zero(),
        !at.x.spec_is_zero(),
{
}

/// Turning by a quarter twice reverses a vector.
pub proof fn lemma_two_quarter_turns(v: Vector)
    ensures
        spec_quarter_turn(spec_quarter_turn(v)) == (Vector { x: v.x.spec_neg(), y: v.y.spec_neg() }),
{
}

} // verus!
