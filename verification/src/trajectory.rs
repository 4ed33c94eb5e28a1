//! The result of a computation: the launch point, the boundary hits that
//! follow it, and the direction in which the ball leaves the last hit that
//! was computed.

use vstd::prelude::*;
use crate::binary64::Binary64;
use crate::error::BilliardError;
use crate::geometry::{Ellipse, Point, Segment};

verus! {

/// What a [`Trajectory`] holds, as mathematical values.
pub struct TrajectoryView {
    pub ellipse: Ellipse,
    pub points: Seq<Point>,
    pub final_angle: Binary64,
}

/// A finished path. It holds at least the launch point.
pub struct Trajectory {
    ellipse: Ellipse,
    points: Vec<Point>,
    final_angle: Binary64,
}

impl View for Trajectory {
    type V = TrajectoryView;

    closed spec fn view(&self) -> TrajectoryView {
        TrajectoryView { ellipse: self.ellipse, points: self.points@, final_angle: self.final_angle }
    }
}

/// The result of a computation, as mathematical values.
pub open spec fn outcome_view(r: Result<Trajectory, BilliardError>) -> Result<
    TrajectoryView,
    BilliardError,
> {
    match r {
        Ok(path) => Ok(path@),
        Err(error) => Err(error),
    }
}

impl Trajectory {
    #[verifier::type_invariant]
    spec fn holds_launch_point(self) -> bool {
        self.points@.len() >= 1
    }

    /// Puts a path together from its parts.
    pub(crate) fn assemble(ellipse: Ellipse, points: Vec<Point>, final_angle: Binary64) -> (r:
        Trajectory)
        requires
            points@.len() >= 1,
        ensures
            r@ == (TrajectoryView { ellipse, points: points@, final_angle }),
    {
        Trajectory { ellipse, points, final_angle }
    }
}

impl TrajectoryView {
    /// The leg from point `index` to the point after it.
    pub open spec fn segment(self, index: int) -> Segment {
        Segment { start: self.points[index], end: self.points[index + 1] }
    }
}

impl Trajectory {
    /// The table on which the ball moves.
    pub fn ellipse(&self) -> (ellipse: Ellipse)
        ensures
            ellipse == self@.ellipse,
    {
        self.ellipse
    }

    /// The launch point followed by the boundary hits, in the order in which
    /// the ball passes them.
    pub fn points(&self) -> (points: &Vec<Point>)
        ensures
            points@ == self@.points,
            points@.len() >= 1,
    {
        proof {
            use_type_invariant(self);
        }
        &self.points
    }

    /// The number of points, one more than the number of bounces.
    pub fn len(&self) -> (len: usize)
        ensures
            len == self@.points.len(),
            len >= 1,
    {
        proof {
            use_type_invariant(self);
        }
        self.points.len()
    }

    /// The number of bounces that the path was followed for.
    pub fn reflection_count(&self) -> (count: usize)
        ensures
            count == self@.points.len() - 1,
    {
        proof {
            use_type_invariant(self);
        }
        self.points.len() - 1
    }

    /// The point at `index`, if the path has that many.
    pub fn point(&self, index: usize) -> (point: Option<Point>)
        ensures
            point == if index < self@.points.len() {
                Some(self@.points[index as int])
            } else {
                None
            },
    {
        if index < self.points.len() {
            Some(self.points[index])
        } else {
            None
        }
    }

    /// Where the ball was launched.
    pub fn launch_point(&self) -> (point: Point)
        ensures
            point == self@.points[0],
    {
        proof {
            use_type_invariant(self);
        }
        self.points[0]
    }

    /// The leg from the point at `index` to the next one, if the path has
    /// both. The leg at 0 is the launch.
    pub fn segment(&self, index: usize) -> (segment: Option<Segment>)
        ensures
            segment == if index + 1 < self@.points.len() {
                Some(self@.segment(index as int))
            } else {
                None
            },
    {
        let len: usize = self.points.len();
        if index < len && index + 1 < len {
            Some(Segment { start: self.points[index], end: self.points[index + 1] })
        } else {
            None
        }
    }

    /// The path as its legs, in order: the launch first, then the leg after
    /// each bounce but the last.
    pub fn segments(&self) -> (segments: Vec<Segment>)
        ensures
            segments@.len() == self@.points.len() - 1,
            forall|i: int| 0 <= i < segments@.len() ==> segments@[i] == self@.segment(i),
    {
        proof {
            use_type_invariant(self);
        }
        let len: usize = self.points.len();
        let mut segments: Vec<Segment> = Vec::new();
        let mut index: usize = 1;
        while index < len
            invariant
                1 <= index <= len,
                len == self.points@.len(),
                segments@.len() == index - 1,
                forall|i: int|
                    0 <= i < segments@.len() ==> segments@[i] == (Segment {
                        start: self.points@[i],
                        end: self.points@[i + 1],
                    }),
            decreases len - index,
        {
            segments.push(Segment { start: self.points[index - 1], end: self.points[index] });
            index += 1;
        }
        segments
    }

    /// The direction in which the ball leaves the last hit that was computed.
    pub fn final_angle(&self) -> (angle: Binary64)
        ensures
            angle == self@.final_angle,
    {
        self.final_angle
    }
}

} // verus!
