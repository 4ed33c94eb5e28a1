//! The ranges of the two shape inputs. A computation takes any values; a
//! caller that wants a table that is an ellipse, and a launch point strictly
//! inside it, keeps the inputs in these ranges.

use vstd::prelude::*;
use vstd::arithmetic::power2::pow2;
use crate::binary64::Binary64;
use crate::value::{lemma_constant_values, lemma_order_is_value_order, lemma_sign_operations};

verus! {

/// `0 < e < 1`: the eccentricity of an ellipse that is no circle.
pub open spec fn spec_is_eccentricity(eccentricity: Binary64) -> bool {
    Binary64::spec_zero().spec_lt(eccentricity) && eccentricity.spec_lt(Binary64::spec_one())
}

/// `−1 < s < 1`: a launch point strictly between the two vertices.
pub open spec fn spec_is_start_offset(start_offset: Binary64) -> bool {
    Binary64::spec_one().spec_neg().spec_lt(start_offset) && start_offset.spec_lt(
        Binary64::spec_one(),
    )
}

/// Tells whether the value lies strictly between zero and one.
#[verifier::when_used_as_spec(spec_is_eccentricity)]
pub fn is_eccentricity(eccentricity: Binary64) -> (r: bool)
    ensures
        r == spec_is_eccentricity(eccentricity),
{
    Binary64::zero().lt(eccentricity) && eccentricity.lt(Binary64::one())
}

/// Tells whether the value lies strictly between minus one and one.
#[verifier::when_used_as_spec(spec_is_start_offset)]
pub fn is_start_offset(start_offset: Binary64) -> (r: bool)
    ensures
        r == spec_is_start_offset(start_offset),
{
    Binary64::one().neg().lt(start_offset) && start_offset.lt(Binary64::one())
}

/// The two ranges, over the values that the patterns stand for.
pub proof fn lemma_input_ranges(x: Binary64)
    ensures
        spec_is_eccentricity(x) <==> !x.spec_is_nan() && 0 < x.scaled_value() < pow2(1074),
        spec_is_start_offset(x) <==> !x.spec_is_nan() && -pow2(1074) < x.scaled_value() < pow2(
            1074,
        ),
        spec_is_eccentricity(x) ==> spec_is_start_offset(x) && x.spec_is_finite(),
        spec_is_start_offset(x) ==> x.spec_is_finite(),
{
    lemma_constant_values();
    lemma_sign_operations(Binary64::spec_one());
    if !x.spec_is_nan() {
        lemma_order_is_value_order(Binary64::spec_zero(), x);
        lemma_order_is_value_order(x, Binary64::spec_one());
        lemma_order_is_value_order(Binary64::spec_one().spec_neg(), x);
    }
}

} // verus!
