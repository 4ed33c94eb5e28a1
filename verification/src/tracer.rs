//! The sequencing of a trajectory computation as a step machine.
//!
//! A [`Tracer`] holds the state of one computation. While it runs it has one
//! pending [`Request`]: a block of rounding arithmetic whose result it needs
//! next. The driver evaluates the block and hands the result back as a
//! [`Reply`]; the tracer takes every decision of the algorithm on it and moves
//! on. The machine is a function: the same replies lead to the same path.

use vstd::prelude::*;
use crate::binary64::Binary64;
use crate::error::BilliardError;
use crate::geometry::{Ellipse, Point, Vector};
use crate::reflection::{
    spec_implicit_tangent, spec_orient_inward, spec_quarter_turn, spec_tangent_rule, TangentRule,
};
use crate::reflection::{implicit_tangent, orient_inward, quarter_turn, tangent_rule};
use crate::selector::{select_bounce, select_launch, spec_select_bounce, spec_select_launch};
use crate::solver::{has_real_roots, solved_axis, spec_has_real_roots, spec_solved_axis};
use crate::solver::{Axis, Crossings};
use crate::trajectory::{Trajectory, TrajectoryView};

verus! {

/// A block of rounding arithmetic that the tracer needs evaluated. All
/// operations are those of binary64, rounded to nearest, and are carried out
/// in the order in which the formulas are written.
///
/// No block has a precondition: on values for which a formula has no real
/// result the operations give an infinity or a NaN, which the tracer detects
/// where it matters.
#[derive(Clone, Copy, Debug, PartialEq, Eq, Structural)]
pub enum Request {
    /// The semi-major axis of the table of the given eccentricity,
    /// `1 / √(1 − e·e)`. Answered by a [`Reply::Scalar`].
    SemiMajor { eccentricity: Binary64 },
    /// The abscissa of the launch point, `start_offset · semi_major`. Answered
    /// by a [`Reply::Scalar`].
    StartAbscissa { start_offset: Binary64, semi_major: Binary64 },
    /// `sin angle`. Answered by a [`Reply::Scalar`].
    Sine { angle: Binary64 },
    /// The two points in which the line through `origin = (x0, y0)` at
    /// `angle = θ` crosses the ellipse of semi-axes `a` and `b`, as the roots
    /// of the quadratic `α·u² + β·u + γ = 0` in the coordinate `axis`.
    ///
    /// For [`Axis::Y`], with `c = cos θ / sin θ` and `k = x0 − c·y0`:
    /// `α = a² + (b·c)²`, `β = 2·b²·k·c`, `γ = b²·(k² − a²)`, and a root
    /// `y` gives the point `(y·c + k, y)`.
    ///
    /// For [`Axis::X`], with `t = tan θ` and `k = y0 − t·x0`:
    /// `α = b² + (a·t)²`, `β = 2·a²·k·t`, `γ = a²·(k² − b²)`, and a root
    /// `x` gives the point `(x, t·x + k)`.
    ///
    /// Answered by a [`Reply::Crossings`] with `Δ = β² − 4αγ`, the point of
    /// the root `(−β + √Δ) / 2α` first and that of `(−β − √Δ) / 2α` second.
    Quadratic { ellipse: Ellipse, axis: Axis, origin: Point, angle: Binary64 },
    /// The runs along x from `origin` to each root, `root_a.x − origin.x` and
    /// `root_b.x − origin.x`. Answered by a [`Reply::Pair`], in this order.
    Runs { origin: Point, root_a: Point, root_b: Point },
    /// The second component of the implicit tangent at `at = (x0, y0)`,
    /// `y0 − b² / y0`. Answered by a [`Reply::Scalar`].
    ImplicitOrdinate { ellipse: Ellipse, at: Point },
    /// The vector `normal = (nx, ny)` scaled to unit length,
    /// `(nx / r, ny / r)` with `r = √(nx² + ny²)`, and its dot product with
    /// the position `at = (x0, y0)`, `nx·x0 + ny·y0`. Answered by a
    /// [`Reply::Normal`].
    Normalize { normal: Vector, at: Point },
    /// The direction of the ball after the bounce at `at`, on its way from
    /// `origin`: with `v = at − origin`, `n = normal` and `o = v − 2(v·n)n`,
    /// the angle `atan2(oy, ox)`. Answered by a [`Reply::Scalar`].
    Reflect { origin: Point, at: Point, normal: Vector },
    /// The computation is over and nothing is asked.
    Nothing,
}

/// The result of a block of arithmetic.
#[derive(Clone, Copy, Debug, PartialEq, Eq, Structural)]
pub enum Reply {
    /// One value.
    Scalar(Binary64),
    /// Two values, in the order of the request.
    Pair(Binary64, Binary64),
    /// The discriminant of an intersection quadratic and its two roots.
    Crossings(Crossings),
    /// A unit vector and the dot product of the vector it was scaled from
    /// with the position of the hit.
    Normal { unit: Vector, outward: Binary64 },
}

/// The reply has the shape that the request asks for.
pub open spec fn spec_answers(request: Request, reply: Reply) -> bool {
    match request {
        Request::SemiMajor { .. } => reply is Scalar,
        Request::StartAbscissa { .. } => reply is Scalar,
        Request::Sine { .. } => reply is Scalar,
        Request::Quadratic { .. } => reply is Crossings,
        Request::Runs { .. } => reply is Pair,
        Request::ImplicitOrdinate { .. } => reply is Scalar,
        Request::Normalize { .. } => reply is Normal,
        Request::Reflect { .. } => reply is Scalar,
        Request::Nothing => false,
    }
}

/// Tells whether `reply` has the shape that `request` asks for.
#[verifier::when_used_as_spec(spec_answers)]
pub fn answers(request: Request, reply: Reply) -> (r: bool)
    ensures
        r == spec_answers(request, reply),
{
    match request {
        Request::SemiMajor { .. } => matches!(reply, Reply::Scalar(_)),
        Request::StartAbscissa { .. } => matches!(reply, Reply::Scalar(_)),
        Request::Sine { .. } => matches!(reply, Reply::Scalar(_)),
        Request::Quadratic { .. } => matches!(reply, Reply::Crossings(_)),
        Request::Runs { .. } => matches!(reply, Reply::Pair(_, _)),
        Request::ImplicitOrdinate { .. } => matches!(reply, Reply::Scalar(_)),
        Request::Normalize { .. } => matches!(reply, Reply::Normal { .. }),
        Request::Reflect { .. } => matches!(reply, Reply::Scalar(_)),
        Request::Nothing => false,
    }
}

/// Where a computation stands: what was asked last and what is kept for the
/// decision that follows the answer.
#[derive(Clone, Copy, Debug, PartialEq, Eq, Structural)]
pub enum Stage {
    /// Waiting for the semi-major axis.
    SemiMajor,
    /// Waiting for the abscissa of the launch point.
    StartAbscissa,
    /// Waiting for the sine of the current angle.
    Sine,
    /// Waiting for the crossings of the current ray.
    Quadratic { axis: Axis },
    /// Waiting for the runs to the two roots of a bounce.
    Runs { root_a: Point, root_b: Point },
    /// Waiting for the second component of the tangent at `hit`.
    ImplicitOrdinate { hit: Point },
    /// Waiting for the unit normal at `hit`.
    Normal { hit: Point, normal: Vector },
    /// Waiting for the outgoing angle at `hit`.
    Reflection { hit: Point, normal: Vector },
    /// All legs are computed.
    Finished,
    /// The computation was abandoned.
    Failed { error: BilliardError },
}

/// The state of a computation, as mathematical values.
pub struct TracerState {
    pub eccentricity: Binary64,
    pub start_offset: Binary64,
    pub reflection_count: nat,
    /// The table, known once the semi-major axis is answered.
    pub ellipse: Ellipse,
    /// Where the current ray starts.
    pub origin: Point,
    /// The direction of the current ray.
    pub angle: Binary64,
    /// The launch is complete: the first boundary hit and the direction in
    /// which the ball leaves it are known.
    pub launched: bool,
    /// The bounces that are still to be completed once the ball is launched.
    pub bounces_left: nat,
    /// The points of the path so far.
    pub points: Seq<Point>,
    pub stage: Stage,
}

impl TracerState {
    /// The state in which a computation begins.
    pub open spec fn start(
        eccentricity: Binary64,
        launch_angle: Binary64,
        start_offset: Binary64,
        reflection_count: nat,
    ) -> TracerState {
        TracerState {
            eccentricity,
            start_offset,
            reflection_count,
            ellipse: Ellipse::spec_with_unit_minor(Binary64::spec_zero()),
            origin: Point { x: Binary64::spec_zero(), y: Binary64::spec_zero() },
            angle: launch_angle,
            launched: false,
            bounces_left: reflection_count,
            points: Seq::empty(),
            stage: Stage::SemiMajor,
        }
    }

    /// What the computation waits for.
    pub open spec fn pending(self) -> Request {
        match self.stage {
            Stage::SemiMajor => Request::SemiMajor { eccentricity: self.eccentricity },
            Stage::StartAbscissa => Request::StartAbscissa {
                start_offset: self.start_offset,
                semi_major: self.ellipse.semi_major,
            },
            Stage::Sine => Request::Sine { angle: self.angle },
            Stage::Quadratic { axis } => Request::Quadratic {
                ellipse: self.ellipse,
                axis,
                origin: self.origin,
                angle: self.angle,
            },
            Stage::Runs { root_a, root_b } => Request::Runs { origin: self.origin, root_a, root_b },
            Stage::ImplicitOrdinate { hit } => Request::ImplicitOrdinate {
                ellipse: self.ellipse,
                at: hit,
            },
            Stage::Normal { hit, normal } => Request::Normalize { normal, at: hit },
            Stage::Reflection { hit, normal } => Request::Reflect {
                origin: self.origin,
                at: hit,
                normal,
            },
            Stage::Finished => Request::Nothing,
            Stage::Failed { .. } => Request::Nothing,
        }
    }

    /// The reply answers the pending request.
    pub open spec fn expects(self, reply: Reply) -> bool {
        spec_answers(self.pending(), reply)
    }

    /// The computation is over, with a path or with an error.
    pub open spec fn is_over(self) -> bool {
        self.stage is Finished || self.stage is Failed
    }

    /// The computation is abandoned with `error`.
    pub open spec fn fail(self, error: BilliardError) -> TracerState {
        TracerState { stage: Stage::Failed { error }, ..self }
    }

    /// The tangent at `hit` is known: the normal is turned from it and its
    /// unit length is asked for.
    pub open spec fn face(self, hit: Point, tangent: Vector) -> TracerState {
        TracerState { stage: Stage::Normal { hit, normal: spec_quarter_turn(tangent) }, ..self }
    }

    /// The current ray reaches the boundary at `hit`: the tangent rule for
    /// that point is selected.
    pub open spec fn arrive(self, hit: Point) -> TracerState {
        match spec_tangent_rule(hit) {
            TangentRule::Fixed(tangent) => self.face(hit, tangent),
            TangentRule::Implicit => TracerState { stage: Stage::ImplicitOrdinate { hit }, ..self },
        }
    }

    /// The leg from the current origin to `hit` is complete and the ball
    /// leaves `hit` at `angle`: the origin joins the path.
    pub open spec fn settle(self, hit: Point, angle: Binary64) -> TracerState {
        let bounces_left = if self.launched && self.bounces_left > 0 {
            (self.bounces_left - 1) as nat
        } else {
            self.bounces_left
        };
        TracerState {
            origin: hit,
            angle,
            launched: true,
            bounces_left,
            points: self.points.push(self.origin),
            stage: if bounces_left == 0 {
                Stage::Finished
            } else {
                Stage::Sine
            },
            ..self
        }
    }

    /// The state after `reply`. A reply that does not answer the pending
    /// request changes nothing.
    pub open spec fn step(self, reply: Reply) -> TracerState {
        match (self.stage, reply) {
            (Stage::SemiMajor, Reply::Scalar(semi_major)) => TracerState {
                ellipse: Ellipse::spec_with_unit_minor(semi_major),
                stage: Stage::StartAbscissa,
                ..self
            },
            (Stage::StartAbscissa, Reply::Scalar(x)) => TracerState {
                origin: Point { x, y: Binary64::spec_zero() },
                stage: Stage::Sine,
                ..self
            },
            (Stage::Sine, Reply::Scalar(sine)) => TracerState {
                stage: Stage::Quadratic { axis: spec_solved_axis(sine) },
                ..self
            },
            (Stage::Quadratic { .. }, Reply::Crossings(crossings)) => {
                if !spec_has_real_roots(crossings.discriminant) {
                    self.fail(BilliardError::NegativeDiscriminant)
                } else if self.launched {
                    TracerState {
                        stage: Stage::Runs { root_a: crossings.root_a, root_b: crossings.root_b },
                        ..self
                    }
                } else {
                    self.arrive(spec_select_launch(self.angle, crossings.root_a, crossings.root_b))
                }
            },
            (Stage::Runs { root_a, root_b }, Reply::Pair(run_a, run_b)) => self.arrive(
                spec_select_bounce(run_a, run_b, root_a, root_b),
            ),
            (Stage::ImplicitOrdinate { hit }, Reply::Scalar(ordinate)) => self.face(
                hit,
                spec_implicit_tangent(hit, ordinate),
            ),
            (Stage::Normal { hit, .. }, Reply::Normal { unit, outward }) => TracerState {
                stage: Stage::Reflection { hit, normal: spec_orient_inward(unit, outward) },
                ..self
            },
            (Stage::Reflection { hit, .. }, Reply::Scalar(angle)) => {
                if angle.spec_is_finite() {
                    self.settle(hit, angle)
                } else {
                    self.fail(BilliardError::NonFiniteAngle)
                }
            },
            _ => self,
        }
    }

    /// The path of a finished computation, the error of a failed one, nothing
    /// while it runs.
    pub open spec fn outcome(self) -> Option<Result<TrajectoryView, BilliardError>> {
        match self.stage {
            Stage::Finished => Some(
                Ok(
                    TrajectoryView {
                        ellipse: self.ellipse,
                        points: self.points,
                        final_angle: self.angle,
                    },
                ),
            ),
            Stage::Failed { error } => Some(Err(error)),
            _ => None,
        }
    }

    /// The legs that are still to be completed.
    pub open spec fn legs_left(self) -> nat {
        if self.launched {
            self.bounces_left
        } else {
            self.bounces_left + 1
        }
    }

    /// What holds of every state that a computation passes through.
    pub open spec fn inv(self) -> bool {
        &&& self.points.len() + self.legs_left() == self.reflection_count + 1
        &&& self.launched == (self.points.len() >= 1)
        &&& self.points.len() >= 1 ==> self.points[0].y == Binary64::spec_zero()
        &&& match self.stage {
            Stage::SemiMajor => !self.launched,
            Stage::StartAbscissa => !self.launched,
            Stage::Runs { .. } => self.launched && self.bounces_left > 0,
            Stage::ImplicitOrdinate { hit } => {
                &&& self.legs_left() > 0
                &&& !hit.x.spec_is_zero()
                &&& !hit.y.spec_is_zero()
            },
            Stage::Finished => self.launched && self.bounces_left == 0,
            Stage::Failed { .. } => true,
            _ => self.legs_left() > 0,
        }
        &&& self.stage !is SemiMajor ==> self.ellipse.semi_minor == Binary64::spec_one()
        &&& !self.launched && self.stage !is SemiMajor && self.stage !is StartAbscissa
            ==> self.origin.y == Binary64::spec_zero()
    }

    /// An upper bound on the replies that the computation still takes.
    pub open spec fn fuel(self) -> nat {
        if self.is_over() {
            0
        } else {
            (7 * (self.legs_left() - 1) + match self.stage {
                Stage::SemiMajor => 8int,
                Stage::StartAbscissa => 7,
                Stage::Sine => 6,
                Stage::Quadratic { .. } => 5,
                Stage::Runs { .. } => 4,
                Stage::ImplicitOrdinate { .. } => 3,
                Stage::Normal { .. } => 2,
                _ => 1,
            }) as nat
        }
    }
}

/// One trajectory computation in progress.
pub struct Tracer {
    eccentricity: Binary64,
    start_offset: Binary64,
    reflection_count: usize,
    ellipse: Ellipse,
    origin: Point,
    angle: Binary64,
    launched: bool,
    bounces_left: usize,
    points: Vec<Point>,
    stage: Stage,
}

impl View for Tracer {
    type V = TracerState;

    closed spec fn view(&self) -> TracerState {
        TracerState {
            eccentricity: self.eccentricity,
            start_offset: self.start_offset,
            reflection_count: self.reflection_count as nat,
            ellipse: self.ellipse,
            origin: self.origin,
            angle: self.angle,
            launched: self.launched,
            bounces_left: self.bounces_left as nat,
            points: self.points@,
            stage: self.stage,
        }
    }
}

impl Tracer {
    #[verifier::type_invariant]
    spec fn well_formed(self) -> bool {
        self@.inv()
    }

    /// Begins the computation of the path of a ball on the table of the given
    /// eccentricity, launched at `launch_angle` from the point of the major
    /// axis at `start_offset` of the semi-major axis, and followed for
    /// `reflection_count` bounces.
    pub fn new(
        eccentricity: Binary64,
        launch_angle: Binary64,
        start_offset: Binary64,
        reflection_count: usize,
    ) -> (tracer: Tracer)
        ensures
            tracer@ == TracerState::start(
                eccentricity,
                launch_angle,
                start_offset,
                reflection_count as nat,
            ),
    {
        let zero = Binary64::zero();
        Tracer {
            eccentricity,
            start_offset,
            reflection_count,
            ellipse: Ellipse::with_unit_minor(zero),
            origin: Point { x: zero, y: zero },
            angle: launch_angle,
            launched: false,
            bounces_left: reflection_count,
            points: Vec::new(),
            stage: Stage::SemiMajor,
        }
    }

    /// The arithmetic that the computation waits for. The state of every
    /// tracer satisfies the invariant of the machine.
    pub fn pending(&self) -> (request: Request)
        ensures
            request == self@.pending(),
            self@.inv(),
    {
        proof {
            use_type_invariant(self);
        }
        match self.stage {
            Stage::SemiMajor => Request::SemiMajor { eccentricity: self.eccentricity },
            Stage::StartAbscissa => Request::StartAbscissa {
                start_offset: self.start_offset,
                semi_major: self.ellipse.semi_major,
            },
            Stage::Sine => Request::Sine { angle: self.angle },
            Stage::Quadratic { axis } => Request::Quadratic {
                ellipse: self.ellipse,
                axis,
                origin: self.origin,
                angle: self.angle,
            },
            Stage::Runs { root_a, root_b } => Request::Runs { origin: self.origin, root_a, root_b },
            Stage::ImplicitOrdinate { hit } => Request::ImplicitOrdinate {
                ellipse: self.ellipse,
                at: hit,
            },
            Stage::Normal { hit, normal } => Request::Normalize { normal, at: hit },
            Stage::Reflection { hit, normal } => Request::Reflect {
                origin: self.origin,
                at: hit,
                normal,
            },
            Stage::Finished => Request::Nothing,
            Stage::Failed { .. } => Request::Nothing,
        }
    }

    /// Tells whether the computation has ended, with a path or with an error.
    pub fn is_over(&self) -> (over: bool)
        ensures
            over == self@.is_over(),
    {
        match self.stage {
            Stage::Finished => true,
            Stage::Failed { .. } => true,
            _ => false,
        }
    }

    fn fail(self, error: BilliardError) -> (next: Tracer)
        requires
            self@.fail(error).inv(),
        ensures
            next@ == self@.fail(error),
    {
        Tracer { stage: Stage::Failed { error }, ..self }
    }

    fn face(self, hit: Point, tangent: Vector) -> (next: Tracer)
        requires
            self@.face(hit, tangent).inv(),
        ensures
            next@ == self@.face(hit, tangent),
    {
        Tracer { stage: Stage::Normal { hit, normal: quarter_turn(tangent) }, ..self }
    }

    fn arrive(self, hit: Point) -> (next: Tracer)
        requires
            self@.arrive(hit).inv(),
        ensures
            next@ == self@.arrive(hit),
    {
        match tangent_rule(hit) {
            TangentRule::Fixed(tangent) => self.face(hit, tangent),
            TangentRule::Implicit => Tracer { stage: Stage::ImplicitOrdinate { hit }, ..self },
        }
    }

    fn settle(self, hit: Point, angle: Binary64) -> (next: Tracer)
        requires
            self@.settle(hit, angle).inv(),
        ensures
            next@ == self@.settle(hit, angle),
    {
        let Tracer {
            eccentricity,
            start_offset,
            reflection_count,
            ellipse,
            origin,
            angle: _,
            launched,
            bounces_left,
            points,
            stage: _,
        } = self;
        let bounces_left: usize = if launched && bounces_left > 0 {
            bounces_left - 1
        } else {
            bounces_left
        };
        let mut points = points;
        points.push(origin);
        Tracer {
            eccentricity,
            start_offset,
            reflection_count,
            ellipse,
            origin: hit,
            angle,
            launched: true,
            bounces_left,
            points,
            stage: if bounces_left == 0 {
                Stage::Finished
            } else {
                Stage::Sine
            },
        }
    }

    /// Takes the answer to the pending request and every decision that rests
    /// on it. A reply that does not answer the pending request leaves the
    /// computation where it was.
    pub fn advance(self, reply: Reply) -> (next: Tracer)
        ensures
            next@ == self@.step(reply),
    {
        proof {
            use_type_invariant(&self);
            lemma_step_inv(self@, reply);
        }
        match (self.stage, reply) {
            (Stage::SemiMajor, Reply::Scalar(semi_major)) => Tracer {
                ellipse: Ellipse::with_unit_minor(semi_major),
                stage: Stage::StartAbscissa,
                ..self
            },
            (Stage::StartAbscissa, Reply::Scalar(x)) => Tracer {
                origin: Point { x, y: Binary64::zero() },
                stage: Stage::Sine,
                ..self
            },
            (Stage::Sine, Reply::Scalar(sine)) => Tracer {
                stage: Stage::Quadratic { axis: solved_axis(sine) },
                ..self
            },
            (Stage::Quadratic { .. }, Reply::Crossings(crossings)) => {
                if !has_real_roots(crossings.discriminant) {
                    self.fail(BilliardError::NegativeDiscriminant)
                } else if self.launched {
                    Tracer {
                        stage: Stage::Runs { root_a: crossings.root_a, root_b: crossings.root_b },
                        ..self
                    }
                } else {
                    let hit = select_launch(self.angle, crossings.root_a, crossings.root_b);
                    self.arrive(hit)
                }
            },
            (Stage::Runs { root_a, root_b }, Reply::Pair(run_a, run_b)) => {
                let hit = select_bounce(run_a, run_b, root_a, root_b);
                self.arrive(hit)
            },
            (Stage::ImplicitOrdinate { hit }, Reply::Scalar(ordinate)) => {
                let tangent = implicit_tangent(hit, ordinate);
                self.face(hit, tangent)
            },
            (Stage::Normal { hit, .. }, Reply::Normal { unit, outward }) => Tracer {
                stage: Stage::Reflection { hit, normal: orient_inward(unit, outward) },
                ..self
            },
            (Stage::Reflection { hit, .. }, Reply::Scalar(angle)) => {
                if angle.is_finite() {
                    self.settle(hit, angle)
                } else {
                    self.fail(BilliardError::NonFiniteAngle)
                }
            },
            _ => self,
        }
    }

    /// Ends the computation: the path if all legs are computed, the error if
    /// it was abandoned, nothing if it still waits for an answer. A path has
    /// one point more than the bounces that were asked for, and a failed
    /// computation yields no point at all.
    pub fn finish(self) -> (r: Option<Result<Trajectory, BilliardError>>)
        ensures
            match r {
                Some(Ok(path)) => {
                    &&& self@.outcome() == Some(Ok::<TrajectoryView, BilliardError>(path@))
                    &&& path@.points.len() == self@.reflection_count + 1
                },
                Some(Err(error)) => self@.outcome() == Some(
                    Err::<TrajectoryView, BilliardError>(error),
                ),
                None => self@.outcome() is None,
            },
    {
        proof {
            use_type_invariant(&self);
        }
        match self.stage {
            Stage::Finished => Some(Ok(Trajectory::assemble(self.ellipse, self.points, self.angle))),
            Stage::Failed { error } => Some(Err(error)),
            _ => None,
        }
    }
}

/// A computation begins in a state that satisfies the invariant.
pub proof fn lemma_start_inv(
    eccentricity: Binary64,
    launch_angle: Binary64,
    start_offset: Binary64,
    reflection_count: nat,
)
    ensures
        TracerState::start(eccentricity, launch_angle, start_offset, reflection_count).inv(),
        TracerState::start(eccentricity, launch_angle, start_offset, reflection_count).fuel() == 7
            * reflection_count + 8,
{
}

/// Every reply leads from a state that satisfies the invariant to another one.
pub proof fn lemma_step_inv(state: TracerState, reply: Reply)
    requires
        state.inv(),
    ensures
        state.step(reply).inv(),
{
}

/// A reply is taken exactly when it answers the pending request, and each
/// reply that is taken brings the end of the computation nearer.
pub proof fn lemma_step_spends_fuel(state: TracerState, reply: Reply)
    requires
        state.inv(),
    ensures
        !state.expects(reply) ==> state.step(reply) == state,
        state.expects(reply) ==> state.step(reply).fuel() < state.fuel(),
{
}

/// A computation that is over asks nothing, takes nothing and has an
/// outcome; one that runs asks for something and has none.
pub proof fn lemma_over_is_final(state: TracerState, reply: Reply)
    ensures
        state.is_over() <==> state.pending() is Nothing,
        state.is_over() <==> state.outcome() is Some,
        state.is_over() ==> !state.expects(reply) && state.step(reply) == state,
{
}

/// A reply adds at most one point to the path, at its end, and changes none
/// that is on it. A failure keeps the state as it was but for the error.
pub proof fn lemma_path_grows_at_its_end(state: TracerState, reply: Reply)
    ensures
        state.step(reply).points == state.points || state.step(reply).points == state.points.push(
            state.origin,
        ),
        state.step(reply).stage is Failed && !state.is_over() ==> state.step(reply) == state.fail(
            state.step(reply).stage->error,
        ),
{
}

/// The second component of the implicit tangent, which divides by the
/// ordinate of the hit, is asked for only at a hit off both axes.
pub proof fn lemma_no_division_by_zero(state: TracerState)
    requires
        state.inv(),
    ensures
        state.pending() matches Request::ImplicitOrdinate { at, .. } ==> !at.y.spec_is_zero()
            && !at.x.spec_is_zero(),
{
}

/// The launch is solved from a point of the major axis, and the runs of the
/// bounce policy are asked for only after the launch.
pub proof fn lemma_launch_from_major_axis(state: TracerState)
    requires
        state.inv(),
    ensures
        !state.launched ==> (state.pending() matches Request::Quadratic { origin, .. }
            ==> origin.y == Binary64::spec_zero()),
        state.pending() is Runs ==> state.launched,
{
}

} // verus!
