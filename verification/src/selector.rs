//! Which of the two algebraic crossings a ray reaches. The launch from the
//! major axis and the flight from one boundary point to the next are decided
//! by two different policies.

use vstd::prelude::*;
use crate::binary64::Binary64;
use crate::geometry::Point;
use crate::value::{lemma_constant_values, lemma_order_is_value_order};

verus! {

/// The crossing that a ray launched from the major axis reaches.
///
/// A ray along the axis (`root_a.y` is a zero) reaches the vertex on the side
/// it points to: the magnitude of `root_a.x` for an angle of zero, its negation
/// for any other angle. Any other ray goes down for an angle beyond π and up
/// otherwise, and the sign of `root_a.y` tells which root lies on that side.
pub open spec fn spec_select_launch(angle: Binary64, root_a: Point, root_b: Point) -> Point {
    if root_a.y.spec_is_zero() {
        if angle.spec_is_zero() {
            Point { x: root_a.x.spec_abs(), y: Binary64::spec_zero() }
        } else {
            Point { x: root_a.x.spec_abs().spec_neg(), y: Binary64::spec_zero() }
        }
    } else if angle.spec_gt(Binary64::spec_pi()) == root_a.y.spec_lt(Binary64::spec_zero()) {
        root_a
    } else {
        root_b
    }
}

/// The crossing that a ray leaving a boundary point reaches: the root whose
/// run along x from that point (`run_a`, `run_b`) is the longer one, `root_b`
/// when neither is longer or a run is a NaN.
pub open spec fn spec_select_bounce(
    run_a: Binary64,
    run_b: Binary64,
    root_a: Point,
    root_b: Point,
) -> Point {
    if run_a.spec_abs().spec_gt(run_b.spec_abs()) {
        root_a
    } else {
        root_b
    }
}

/// Selects the first boundary hit of a ray launched from the major axis at
/// `angle`.
#[verifier::when_used_as_spec(spec_select_launch)]
pub fn select_launch(angle: Binary64, root_a: Point, root_b: Point) -> (hit: Point)
    ensures
        hit == spec_select_launch(angle, root_a, root_b),
{
    let zero = Binary64::zero();
    if root_a.y.is_zero() {
        if angle.is_zero() {
            Point { x: root_a.x.abs(), y: zero }
        } else {
            Point { x: root_a.x.abs().neg(), y: zero }
        }
    } else {
        let goes_down = angle.gt(Binary64::pi());
        let a_is_lower = root_a.y.lt(zero);
        if goes_down == a_is_lower {
            root_a
        } else {
            root_b
        }
    }
}

/// Selects the next boundary hit of a ray that leaves a boundary point, given
/// the runs `root_a.x − x0` and `root_b.x − x0` from that point.
#[verifier::when_used_as_spec(spec_select_bounce)]
pub fn select_bounce(run_a: Binary64, run_b: Binary64, root_a: Point, root_b: Point) -> (hit:
    Point)
    ensures
        hit == spec_select_bounce(run_a, run_b, root_a, root_b),
{
    if run_a.abs().gt(run_b.abs()) {
        root_a
    } else {
        root_b
    }
}

/// A launch along the major axis at angle zero lands on the side of the
/// positive vertex, on the axis: never behind the start.
pub proof fn lemma_axis_launch_goes_forward(angle: Binary64, root_a: Point, root_b: Point)
    requires
        root_a.y.spec_is_zero(),
        angle.spec_is_zero(),
    ensures
        !spec_select_launch(angle, root_a, root_b).x.sign_bit(),
        spec_select_launch(angle, root_a, root_b).x.magnitude() == root_a.x.magnitude(),
        spec_select_launch(angle, root_a, root_b).y == Binary64::spec_zero(),
{
}

/// A launch along the major axis at any other angle lands on the side of the
/// negative vertex, on the axis.
pub proof fn lemma_axis_launch_goes_backward(angle: Binary64, root_a: Point, root_b: Point)
    requires
        root_a.y.spec_is_zero(),
        !angle.spec_is_zero(),
    ensures
        spec_select_launch(angle, root_a, root_b).x.sign_bit(),
        spec_select_launch(angle, root_a, root_b).x.magnitude() == root_a.x.magnitude(),
        spec_select_launch(angle, root_a, root_b).y == Binary64::spec_zero(),
{
}

/// When the two roots lie strictly on opposite sides of the major axis, a
/// launch beyond π lands on the lower one and any other launch on the upper
/// one.
pub proof fn lemma_launch_side(angle: Binary64, root_a: Point, root_b: Point)
    requires
        root_a.y.spec_lt(Binary64::spec_zero()) != root_b.y.spec_lt(Binary64::spec_zero()),
        root_a.y.spec_gt(Binary64::spec_zero()) != root_b.y.spec_gt(Binary64::spec_zero()),
    ensures
        angle.spec_gt(Binary64::spec_pi()) ==> spec_select_launch(angle, root_a, root_b).y.spec_lt(
            Binary64::spec_zero(),
        ),
        !angle.spec_gt(Binary64::spec_pi()) ==> spec_select_launch(angle, root_a, root_b).y.spec_gt(
            Binary64::spec_zero(),
        ),
{
}

/// The hit after a bounce is one of the two roots, and no root with a
/// strictly shorter run is ever preferred.
pub proof fn lemma_bounce_takes_longer_run(
    run_a: Binary64,
    run_b: Binary64,
    root_a: Point,
    root_b: Point,
)
    ensures
        spec_select_bounce(run_a, run_b, root_a, root_b) == root_a || spec_select_bounce(
            run_a,
            run_b,
            root_a,
            root_b,
        ) == root_b,
        run_a.spec_abs().spec_gt(run_b.spec_abs()) ==> spec_select_bounce(
            run_a,
            run_b,
            root_a,
            root_b,
        ) == root_a,
        run_b.spec_abs().spec_gt(run_a.spec_abs()) ==> spec_select_bounce(
            run_a,
            run_b,
            root_a,
            root_b,
        ) == root_b,
{
}

/// Over the values that the patterns stand for: after a bounce the first
/// root is taken exactly when both runs are numbers and the first is longer
/// in absolute value.
pub proof fn lemma_bounce_by_value(run_a: Binary64, run_b: Binary64, root_a: Point, root_b: Point)
    requires
        root_a != root_b,
    ensures
        spec_select_bounce(run_a, run_b, root_a, root_b) == root_a <==> {
            &&& !run_a.spec_is_nan()
            &&& !run_b.spec_is_nan()
            &&& run_a.scaled_magnitude() > run_b.scaled_magnitude()
        },
{
    if !run_a.spec_is_nan() && !run_b.spec_is_nan() {
        lemma_order_is_value_order(run_b.spec_abs(), run_a.spec_abs());
    }
}

/// Over the values that the patterns stand for: a launch off the axis takes
/// the first root exactly when the angle lies beyond π and the ordinate of
/// that root below zero, or neither.
pub proof fn lemma_launch_by_value(angle: Binary64, root_a: Point, root_b: Point)
    requires
        !root_a.y.spec_is_zero(),
        root_a != root_b,
    ensures
        spec_select_launch(angle, root_a, root_b) == root_a <==> ((!angle.spec_is_nan()
            && angle.scaled_value() > Binary64::spec_pi().scaled_value()) <==> (
        !root_a.y.spec_is_nan() && root_a.y.scaled_value() < 0)),
{
    lemma_constant_values();
    if !angle.spec_is_nan() {
        lemma_order_is_value_order(Binary64::spec_pi(), angle);
    }
    if !root_a.y.spec_is_nan() {
        lemma_order_is_value_order(root_a.y, Binary64::spec_zero());
    }
}

} // verus!
