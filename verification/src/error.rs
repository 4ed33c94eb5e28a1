//! The two conditions under which a trajectory cannot be computed.

use vstd::prelude::*;

verus! {

/// Why a trajectory computation stopped without a result.
#[derive(Clone, Copy, Debug, PartialEq, Eq, Structural)]
pub enum BilliardError {
    /// The intersection quadratic has no two real roots: its discriminant is
    /// negative or a NaN.
    NegativeDiscriminant,
    /// The direction after a reflection is a NaN or an infinity.
    NonFiniteAngle,
}

impl BilliardError {
    pub open spec fn spec_message(self) -> Seq<char> {
        match self {
            BilliardError::NegativeDiscriminant => "the line does not cross the ellipse in two real points"@,
            BilliardError::NonFiniteAngle => "the outgoing angle is not a finite number"@,
        }
    }

    /// A sentence for a diagnostic.
    pub fn message(self) -> (r: &'static str)
        ensures
            r@ == self.spec_message(),
    {
        match self {
            BilliardError::NegativeDiscriminant => "the line does not cross the ellipse in two real points",
            BilliardError::NonFiniteAngle => "the outgoing angle is not a finite number",
        }
    }
}

} // verus!
