//! The decisions around the intersection quadratic `α·u² + β·u + γ = 0`:
//! which coordinate `u` stands for, and whether its discriminant admits two
//! real roots.

use vstd::prelude::*;
use vstd::arithmetic::power2::pow2;
use crate::binary64::Binary64;
use crate::error::BilliardError;
use crate::geometry::Point;
use crate::value::{lemma_constant_values, lemma_order_is_value_order};

verus! {

/// The coordinate that the quadratic is solved for. The other one follows by
/// substitution into the line.
#[derive(Clone, Copy, Debug, PartialEq, Eq, Structural)]
pub enum Axis {
    /// Solve for x, then `y = x·tan θ + offset`. For rays closer to horizontal.
    X,
    /// Solve for y, then `x = y·(cos θ / sin θ) + offset`. For rays closer to
    /// vertical.
    Y,
}

/// The two algebraic crossings of a line with the ellipse, with the
/// discriminant they were computed from.
#[derive(Clone, Copy, Debug, PartialEq, Eq, Structural)]
pub struct Crossings {
    /// `β² − 4αγ`.
    pub discriminant: Binary64,
    /// The crossing at `(−β + √Δ) / 2α`.
    pub root_a: Point,
    /// The crossing at `(−β − √Δ) / 2α`.
    pub root_b: Point,
}

/// `|sin θ| ≥ 0.5` selects y, anything else (a NaN too) selects x.
pub open spec fn spec_solved_axis(sine: Binary64) -> Axis {
    if sine.spec_abs().spec_ge(Binary64::spec_half()) {
        Axis::Y
    } else {
        Axis::X
    }
}

/// The discriminant is at least zero. A NaN is not.
pub open spec fn spec_has_real_roots(discriminant: Binary64) -> bool {
    discriminant.spec_ge(Binary64::spec_zero())
}

/// Chooses the coordinate to solve for from the sine of the ray's angle, so
/// that the slope that is divided by stays away from zero.
#[verifier::when_used_as_spec(spec_solved_axis)]
pub fn solved_axis(sine: Binary64) -> (axis: Axis)
    ensures
        axis == spec_solved_axis(sine),
{
    if sine.abs().ge(Binary64::half()) {
        Axis::Y
    } else {
        Axis::X
    }
}

#[verifier::when_used_as_spec(spec_has_real_roots)]
pub fn has_real_roots(discriminant: Binary64) -> (r: bool)
    ensures
        r == spec_has_real_roots(discriminant),
{
    discriminant.ge(Binary64::zero())
}

/// Accepts the crossings of a line that meets the ellipse, and reports a
/// negative discriminant otherwise.
pub fn check_crossings(crossings: Crossings) -> (r: Result<Crossings, BilliardError>)
    ensures
        spec_has_real_roots(crossings.discriminant) ==> r == Ok::<Crossings, BilliardError>(crossings),
        !spec_has_real_roots(crossings.discriminant) ==> r == Err::<Crossings, BilliardError>(
            BilliardError::NegativeDiscriminant,
        ),
{
    if has_real_roots(crossings.discriminant) {
        Ok(crossings)
    } else {
        Err(BilliardError::NegativeDiscriminant)
    }
}

/// The quadratic is solved for y exactly when the sine is no NaN and its
/// absolute value is at least one half.
pub proof fn lemma_axis_threshold(sine: Binary64)
    ensures
        spec_solved_axis(sine) == Axis::Y <==> !sine.spec_is_nan() && 2 * sine.scaled_magnitude()
            >= pow2(1074),
{
    lemma_constant_values();
    if !sine.spec_is_nan() {
        lemma_order_is_value_order(sine.spec_abs(), Binary64::spec_half());
    }
}

/// A discriminant admits two real roots exactly when it is no NaN and its
/// value is at least zero.
pub proof fn lemma_real_roots_threshold(discriminant: Binary64)
    ensures
        spec_has_real_roots(discriminant) <==> !discriminant.spec_is_nan()
            && discriminant.scaled_value() >= 0,
{
    lemma_constant_values();
    if !discriminant.spec_is_nan() {
        lemma_order_is_value_order(discriminant, Binary64::spec_zero());
    }
}

} // verus!
