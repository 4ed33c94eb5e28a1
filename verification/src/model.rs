//! The trajectory as a mathematical function of its inputs and of the
//! arithmetic.
//!
//! The arithmetic is a function `f` from requests to replies. Over it, each
//! component of the computation is written as one expression: the crossings
//! of a ray, the hit selected among them, the normal at the hit, the angle
//! after the bounce, a leg, and the path of so many legs. The step machine of
//! [`crate::tracer`] is proved to compute this function.

use vstd::prelude::*;
use crate::binary64::Binary64;
use crate::error::BilliardError;
use crate::geometry::{Ellipse, Point, Vector};
use crate::reflection::{
    spec_implicit_tangent, spec_orient_inward, spec_quarter_turn, spec_tangent_rule, TangentRule,
};
use crate::selector::{spec_select_bounce, spec_select_launch};
use crate::solver::{spec_has_real_roots, spec_solved_axis, Crossings};
use crate::tracer::{Reply, Request, Stage, TracerState};
use crate::trajectory::TrajectoryView;

verus! {

/// The value of a scalar reply.
pub open spec fn scalar_of(reply: Reply) -> Binary64 {
    match reply {
        Reply::Scalar(value) => value,
        _ => Binary64::spec_zero(),
    }
}

/// The two values of a pair reply.
pub open spec fn pair_of(reply: Reply) -> (Binary64, Binary64) {
    match reply {
        Reply::Pair(one, other) => (one, other),
        _ => (Binary64::spec_zero(), Binary64::spec_zero()),
    }
}

/// The crossings of a crossings reply.
pub open spec fn crossings_of(reply: Reply) -> Crossings {
    match reply {
        Reply::Crossings(crossings) => crossings,
        _ => Crossings {
            discriminant: Binary64::spec_zero(),
            root_a: Point { x: Binary64::spec_zero(), y: Binary64::spec_zero() },
            root_b: Point { x: Binary64::spec_zero(), y: Binary64::spec_zero() },
        },
    }
}

/// The normal of a normal reply, turned towards the interior.
pub open spec fn inward_of(reply: Reply) -> Vector {
    match reply {
        Reply::Normal { unit, outward } => spec_orient_inward(unit, outward),
        _ => Vector { x: Binary64::spec_zero(), y: Binary64::spec_zero() },
    }
}

/// The two algebraic crossings of the ray from `origin` at `angle` with the
/// ellipse, solved for the coordinate that the sine of the angle selects.
pub open spec fn intersections(
    f: spec_fn(Request) -> Reply,
    ellipse: Ellipse,
    origin: Point,
    angle: Binary64,
) -> Crossings {
    let axis = spec_solved_axis(scalar_of(f(Request::Sine { angle })));
    crossings_of(f(Request::Quadratic { ellipse, axis, origin, angle }))
}

/// The crossing that the ray reaches, by the policy of the launch or by that
/// of a bounce, unless the discriminant admits no real roots.
pub open spec fn selected(
    f: spec_fn(Request) -> Reply,
    origin: Point,
    angle: Binary64,
    launched: bool,
    found: Crossings,
) -> Result<Point, BilliardError> {
    if !spec_has_real_roots(found.discriminant) {
        Err(BilliardError::NegativeDiscriminant)
    } else if launched {
        let runs = pair_of(f(Request::Runs { origin, root_a: found.root_a, root_b: found.root_b }));
        Ok(spec_select_bounce(runs.0, runs.1, found.root_a, found.root_b))
    } else {
        Ok(spec_select_launch(angle, found.root_a, found.root_b))
    }
}

/// The tangent at a boundary point: fixed at a vertex, implicit elsewhere.
pub open spec fn tangent_vector(f: spec_fn(Request) -> Reply, ellipse: Ellipse, at: Point) -> Vector {
    match spec_tangent_rule(at) {
        TangentRule::Fixed(tangent) => tangent,
        TangentRule::Implicit => spec_implicit_tangent(
            at,
            scalar_of(f(Request::ImplicitOrdinate { ellipse, at })),
        ),
    }
}

/// The unit normal at a boundary point that points to the interior, from the
/// tangent there.
pub open spec fn inward_normal(f: spec_fn(Request) -> Reply, at: Point, tangent: Vector) -> Vector {
    inward_of(f(Request::Normalize { normal: spec_quarter_turn(tangent), at }))
}

/// The angle at which the ball, come from `origin`, leaves `at` after the
/// reflection about `normal`, unless that angle is not finite.
pub open spec fn angle_after(
    f: spec_fn(Request) -> Reply,
    origin: Point,
    at: Point,
    normal: Vector,
) -> Result<Binary64, BilliardError> {
    let angle = scalar_of(f(Request::Reflect { origin, at, normal }));
    if angle.spec_is_finite() {
        Ok(angle)
    } else {
        Err(BilliardError::NonFiniteAngle)
    }
}

/// The unit normal at a boundary point that points to the interior.
pub open spec fn normal_vector(f: spec_fn(Request) -> Reply, ellipse: Ellipse, at: Point) -> Vector {
    inward_normal(f, at, tangent_vector(f, ellipse, at))
}

/// The angle at which the ball, come from `origin`, leaves the boundary point
/// `at`, unless that angle is not finite.
pub open spec fn outgoing_angle(
    f: spec_fn(Request) -> Reply,
    ellipse: Ellipse,
    origin: Point,
    at: Point,
) -> Result<Binary64, BilliardError> {
    angle_after(f, origin, at, normal_vector(f, ellipse, at))
}

/// One leg: the hit of the ray from `origin` at `angle` and the angle at
/// which the ball leaves it.
pub open spec fn leg(
    f: spec_fn(Request) -> Reply,
    ellipse: Ellipse,
    origin: Point,
    angle: Binary64,
    launched: bool,
) -> Result<(Point, Binary64), BilliardError> {
    match selected(f, origin, angle, launched, intersections(f, ellipse, origin, angle)) {
        Err(error) => Err(error),
        Ok(at) => match outgoing_angle(f, ellipse, origin, at) {
            Err(error) => Err(error),
            Ok(leaving) => Ok((at, leaving)),
        },
    }
}

/// The path that continues `points` by `count` legs, the first from `origin`
/// at `angle`: each leg adds its origin to the path, and the first error
/// ends it all.
pub open spec fn legs(
    f: spec_fn(Request) -> Reply,
    ellipse: Ellipse,
    origin: Point,
    angle: Binary64,
    launched: bool,
    count: nat,
    points: Seq<Point>,
) -> Result<TrajectoryView, BilliardError>
    decreases count,
{
    if count == 0 {
        Ok(TrajectoryView { ellipse, points, final_angle: angle })
    } else {
        match leg(f, ellipse, origin, angle, launched) {
            Err(error) => Err(error),
            Ok((at, leaving)) => legs(
                f,
                ellipse,
                at,
                leaving,
                true,
                (count - 1) as nat,
                points.push(origin),
            ),
        }
    }
}

/// The trajectory of a ball on the table of the given eccentricity, launched
/// at `launch_angle` from the major axis at `start_offset` of the semi-major
/// axis: the launch and `reflection_count` bounces.
pub open spec fn trajectory(
    f: spec_fn(Request) -> Reply,
    eccentricity: Binary64,
    launch_angle: Binary64,
    start_offset: Binary64,
    reflection_count: nat,
) -> Result<TrajectoryView, BilliardError> {
    let semi_major = scalar_of(f(Request::SemiMajor { eccentricity }));
    let x = scalar_of(f(Request::StartAbscissa { start_offset, semi_major }));
    legs(
        f,
        Ellipse::spec_with_unit_minor(semi_major),
        Point { x, y: Binary64::spec_zero() },
        launch_angle,
        false,
        reflection_count + 1,
        Seq::empty(),
    )
}

/// A path of `count` more legs has `count` more points: it keeps the points
/// it continues, adds the origin of its first leg next, and is a path on the
/// same table.
pub proof fn lemma_legs_extend(
    f: spec_fn(Request) -> Reply,
    ellipse: Ellipse,
    origin: Point,
    angle: Binary64,
    launched: bool,
    count: nat,
    points: Seq<Point>,
)
    ensures
        legs(f, ellipse, origin, angle, launched, count, points) matches Ok(path) ==> {
            &&& path.ellipse == ellipse
            &&& path.points.len() == points.len() + count
            &&& path.points.subrange(0, points.len() as int) == points
            &&& count > 0 ==> path.points[points.len() as int] == origin
        },
    decreases count,
{
    if count > 0 {
        match leg(f, ellipse, origin, angle, launched) {
            Err(_) => {},
            Ok((at, leaving)) => {
                let longer = points.push(origin);
                lemma_legs_extend(f, ellipse, at, leaving, true, (count - 1) as nat, longer);
                match legs(f, ellipse, at, leaving, true, (count - 1) as nat, longer) {
                    Err(_) => {},
                    Ok(path) => {
                        assert(path.points.subrange(0, longer.len() as int) == longer);
                        assert(path.points[points.len() as int] == longer[points.len() as int]);
                        assert(path.points.subrange(0, points.len() as int) =~= longer.subrange(
                            0,
                            points.len() as int,
                        ));
                    },
                }
            },
        }
    }
}

/// A trajectory for `reflection_count` bounces has `reflection_count + 1`
/// points, whatever the arithmetic. The first is the launch point, on the
/// major axis, and the table has a semi-minor axis of one.
pub proof fn lemma_trajectory_shape(
    f: spec_fn(Request) -> Reply,
    eccentricity: Binary64,
    launch_angle: Binary64,
    start_offset: Binary64,
    reflection_count: nat,
)
    ensures
        trajectory(f, eccentricity, launch_angle, start_offset, reflection_count) matches Ok(
            path,
        ) ==> {
            let semi_major = scalar_of(f(Request::SemiMajor { eccentricity }));
            &&& path.points.len() == reflection_count + 1
            &&& path.points[0] == Point {
                x: scalar_of(f(Request::StartAbscissa { start_offset, semi_major })),
                y: Binary64::spec_zero(),
            }
            &&& path.ellipse == Ellipse::spec_with_unit_minor(semi_major)
        },
{
    let semi_major = scalar_of(f(Request::SemiMajor { eccentricity }));
    let x = scalar_of(f(Request::StartAbscissa { start_offset, semi_major }));
    lemma_legs_extend(
        f,
        Ellipse::spec_with_unit_minor(semi_major),
        Point { x, y: Binary64::spec_zero() },
        launch_angle,
        false,
        reflection_count + 1,
        Seq::empty(),
    );
}

/// A leg fails exactly when its discriminant admits no real roots or the
/// angle after its bounce is not finite, and with the error that says so.
pub proof fn lemma_leg_fails(
    f: spec_fn(Request) -> Reply,
    ellipse: Ellipse,
    origin: Point,
    angle: Binary64,
    launched: bool,
)
    ensures
        leg(f, ellipse, origin, angle, launched) == Err::<(Point, Binary64), BilliardError>(
            BilliardError::NegativeDiscriminant,
        ) <==> !spec_has_real_roots(intersections(f, ellipse, origin, angle).discriminant),
        leg(f, ellipse, origin, angle, launched) == Err::<(Point, Binary64), BilliardError>(
            BilliardError::NonFiniteAngle,
        ) <==> spec_has_real_roots(intersections(f, ellipse, origin, angle).discriminant) && {
            let at = selected(
                f,
                origin,
                angle,
                launched,
                intersections(f, ellipse, origin, angle),
            )->Ok_0;
            !scalar_of(
                f(
                    Request::Reflect {
                        origin,
                        at,
                        normal: normal_vector(f, ellipse, at),
                    },
                ),
            ).spec_is_finite()
        },
{
}

/// Where the ball is, and in which direction it leaves, after `count` legs
/// from `origin` at `angle`. The flag tells that the launch is behind it.
pub open spec fn ray_after(
    f: spec_fn(Request) -> Reply,
    ellipse: Ellipse,
    origin: Point,
    angle: Binary64,
    launched: bool,
    count: nat,
) -> Result<(Point, Binary64, bool), BilliardError>
    decreases count,
{
    if count == 0 {
        Ok((origin, angle, launched))
    } else {
        match ray_after(f, ellipse, origin, angle, launched, (count - 1) as nat) {
            Err(error) => Err(error),
            Ok((from, heading, flown)) => match leg(f, ellipse, from, heading, flown) {
                Err(error) => Err(error),
                Ok((at, leaving)) => Ok((at, leaving, true)),
            },
        }
    }
}

/// The ray after one leg and `count` more is the ray after `count + 1` legs.
pub proof fn lemma_ray_after_first_leg(
    f: spec_fn(Request) -> Reply,
    ellipse: Ellipse,
    origin: Point,
    angle: Binary64,
    launched: bool,
    count: nat,
)
    ensures
        ray_after(f, ellipse, origin, angle, launched, count + 1) == match leg(
            f,
            ellipse,
            origin,
            angle,
            launched,
        ) {
            Err(error) => Err(error),
            Ok((at, leaving)) => ray_after(f, ellipse, at, leaving, true, count),
        },
    decreases count,
{
    reveal_with_fuel(ray_after, 2);
    if count > 0 {
        lemma_ray_after_first_leg(f, ellipse, origin, angle, launched, (count - 1) as nat);
    }
}

/// The points that a path adds are the places of the ball before each of its
/// legs, and its final angle is the direction of the ball after the last.
/// A path fails with the error of the first leg that fails.
pub proof fn lemma_legs_follow_the_ray(
    f: spec_fn(Request) -> Reply,
    ellipse: Ellipse,
    origin: Point,
    angle: Binary64,
    launched: bool,
    count: nat,
    points: Seq<Point>,
)
    ensures
        match legs(f, ellipse, origin, angle, launched, count, points) {
            Ok(path) => {
                &&& ray_after(f, ellipse, origin, angle, launched, count) matches Ok(last)
                &&& path.final_angle == last.1
                &&& path.points.len() == points.len() + count
                &&& forall|i: nat|
                    i < count ==> (#[trigger] ray_after(f, ellipse, origin, angle, launched, i)
                        matches Ok(ray) && path.points[(points.len() + i) as int] == ray.0)
            },
            Err(error) => ray_after(f, ellipse, origin, angle, launched, count) == Err::<
                (Point, Binary64, bool),
                BilliardError,
            >(error),
        },
    decreases count,
{
    if count > 0 {
        let fewer = (count - 1) as nat;
        lemma_ray_after_first_leg(f, ellipse, origin, angle, launched, fewer);
        match leg(f, ellipse, origin, angle, launched) {
            Err(_) => {},
            Ok((at, leaving)) => {
                let longer = points.push(origin);
                lemma_legs_follow_the_ray(f, ellipse, at, leaving, true, fewer, longer);
                lemma_legs_extend(f, ellipse, at, leaving, true, fewer, longer);
                match legs(f, ellipse, at, leaving, true, fewer, longer) {
                    Err(_) => {},
                    Ok(path) => {
                        assert forall|i: nat| i < count implies (#[trigger] ray_after(
                            f,
                            ellipse,
                            origin,
                            angle,
                            launched,
                            i,
                        ) matches Ok(ray) && path.points[(points.len() + i) as int] == ray.0) by {
                            if i == 0 {
                                assert(path.points.subrange(0, longer.len() as int)[points.len() as int]
                                    == longer[points.len() as int]);
                            } else {
                                let before = (i - 1) as nat;
                                lemma_ray_after_first_leg(
                                    f,
                                    ellipse,
                                    origin,
                                    angle,
                                    launched,
                                    before,
                                );
                                assert(ray_after(f, ellipse, at, leaving, true, before) is Ok);
                                assert(path.points[(longer.len() + before) as int] == path.points[(
                                points.len() + i) as int]);
                            }
                        }
                    },
                }
            },
        }
    }
}

/// In a trajectory with a bounce, the second point is the hit of the launch:
/// the crossing that the launch policy selects.
pub proof fn lemma_second_point_is_launch_hit(
    f: spec_fn(Request) -> Reply,
    eccentricity: Binary64,
    launch_angle: Binary64,
    start_offset: Binary64,
    reflection_count: nat,
)
    requires
        reflection_count >= 1,
    ensures
        trajectory(f, eccentricity, launch_angle, start_offset, reflection_count) matches Ok(
            path,
        ) ==> {
            let semi_major = scalar_of(f(Request::SemiMajor { eccentricity }));
            let ellipse = Ellipse::spec_with_unit_minor(semi_major);
            let start = path.points[0];
            let found = intersections(f, ellipse, start, launch_angle);
            &&& spec_has_real_roots(found.discriminant)
            &&& path.points[1] == spec_select_launch(launch_angle, found.root_a, found.root_b)
        },
{
    let semi_major = scalar_of(f(Request::SemiMajor { eccentricity }));
    let x = scalar_of(f(Request::StartAbscissa { start_offset, semi_major }));
    let ellipse = Ellipse::spec_with_unit_minor(semi_major);
    let start = Point { x, y: Binary64::spec_zero() };
    lemma_legs_follow_the_ray(
        f,
        ellipse,
        start,
        launch_angle,
        false,
        reflection_count + 1,
        Seq::empty(),
    );
    reveal_with_fuel(ray_after, 2);
    match trajectory(f, eccentricity, launch_angle, start_offset, reflection_count) {
        Err(_) => {},
        Ok(path) => {
            assert(ray_after(f, ellipse, start, launch_angle, false, 0) is Ok);
            assert(ray_after(f, ellipse, start, launch_angle, false, 1) is Ok);
        },
    }
}

/// A launch along the major axis at angle zero lands ahead of the start, on
/// the side of the positive vertex: where the launch crossings lie on the
/// axis, the second point of the trajectory has no sign and an ordinate of
/// zero.
pub proof fn lemma_axis_launch_lands_ahead(
    f: spec_fn(Request) -> Reply,
    eccentricity: Binary64,
    start_offset: Binary64,
    reflection_count: nat,
)
    requires
        reflection_count >= 1,
    ensures
        trajectory(f, eccentricity, Binary64::spec_zero(), start_offset, reflection_count) matches Ok(
            path,
        ) ==> {
            let semi_major = scalar_of(f(Request::SemiMajor { eccentricity }));
            let ellipse = Ellipse::spec_with_unit_minor(semi_major);
            let found = intersections(f, ellipse, path.points[0], Binary64::spec_zero());
            found.root_a.y.spec_is_zero() ==> !path.points[1].x.sign_bit() && path.points[1].y
                == Binary64::spec_zero() && path.points[1].x.magnitude()
                == found.root_a.x.magnitude()
        },
{
    lemma_second_point_is_launch_hit(
        f,
        eccentricity,
        Binary64::spec_zero(),
        start_offset,
        reflection_count,
    );
}

/// On the major axis the tangent is fixed whatever the arithmetic: the
/// implicit rule, with its division by the ordinate, is not consulted there.
pub proof fn lemma_vertex_needs_no_division(
    f: spec_fn(Request) -> Reply,
    g: spec_fn(Request) -> Reply,
    ellipse: Ellipse,
    at: Point,
)
    requires
        at.y.spec_is_zero(),
    ensures
        tangent_vector(f, ellipse, at) == (Vector { x: Binary64::spec_zero(), y: Binary64::spec_one() }),
        tangent_vector(f, ellipse, at) == tangent_vector(g, ellipse, at),
{
}

/// What is left of the current leg once the ball leaves `at`, and the legs
/// after it.
pub open spec fn rest_after_angle(
    f: spec_fn(Request) -> Reply,
    state: TracerState,
    at: Point,
    leaving: Result<Binary64, BilliardError>,
) -> Result<TrajectoryView, BilliardError> {
    match leaving {
        Err(error) => Err(error),
        Ok(angle) => legs(
            f,
            state.ellipse,
            at,
            angle,
            true,
            (state.legs_left() - 1) as nat,
            state.points.push(state.origin),
        ),
    }
}

/// What is left of the computation once the tangent at the hit is known.
pub open spec fn rest_after_tangent(
    f: spec_fn(Request) -> Reply,
    state: TracerState,
    at: Point,
    tangent: Vector,
) -> Result<TrajectoryView, BilliardError> {
    rest_after_angle(f, state, at, angle_after(f, state.origin, at, inward_normal(f, at, tangent)))
}

/// What is left of the computation once the hit is selected.
pub open spec fn rest_after_hit(
    f: spec_fn(Request) -> Reply,
    state: TracerState,
    hit: Result<Point, BilliardError>,
) -> Result<TrajectoryView, BilliardError> {
    match hit {
        Err(error) => Err(error),
        Ok(at) => rest_after_tangent(f, state, at, tangent_vector(f, state.ellipse, at)),
    }
}

/// The result that a computation in `state` comes to when `f` answers its
/// requests from here on.
pub open spec fn rest(f: spec_fn(Request) -> Reply, state: TracerState) -> Result<
    TrajectoryView,
    BilliardError,
> {
    match state.stage {
        Stage::SemiMajor => trajectory(
            f,
            state.eccentricity,
            state.angle,
            state.start_offset,
            state.bounces_left,
        ),
        Stage::StartAbscissa => legs(
            f,
            state.ellipse,
            Point { x: scalar_of(f(state.pending())), y: Binary64::spec_zero() },
            state.angle,
            false,
            state.legs_left(),
            state.points,
        ),
        Stage::Sine => legs(
            f,
            state.ellipse,
            state.origin,
            state.angle,
            state.launched,
            state.legs_left(),
            state.points,
        ),
        Stage::Quadratic { .. } => rest_after_hit(
            f,
            state,
            selected(
                f,
                state.origin,
                state.angle,
                state.launched,
                crossings_of(f(state.pending())),
            ),
        ),
        Stage::Runs { root_a, root_b } => {
            let runs = pair_of(f(state.pending()));
            rest_after_hit(f, state, Ok(spec_select_bounce(runs.0, runs.1, root_a, root_b)))
        },
        Stage::ImplicitOrdinate { hit } => rest_after_tangent(
            f,
            state,
            hit,
            spec_implicit_tangent(hit, scalar_of(f(state.pending()))),
        ),
        Stage::Normal { hit, .. } => rest_after_angle(
            f,
            state,
            hit,
            angle_after(f, state.origin, hit, inward_of(f(state.pending()))),
        ),
        Stage::Reflection { hit, normal } => rest_after_angle(
            f,
            state,
            hit,
            angle_after(f, state.origin, hit, normal),
        ),
        Stage::Finished => Ok(
            TrajectoryView {
                ellipse: state.ellipse,
                points: state.points,
                final_angle: state.angle,
            },
        ),
        Stage::Failed { error } => Err(error),
    }
}

/// A step on the answer of `f` to the pending request does not change what
/// the computation comes to.
pub proof fn lemma_step_keeps_rest(f: spec_fn(Request) -> Reply, state: TracerState, reply: Reply)
    requires
        state.inv(),
        state.expects(reply),
        reply == f(state.pending()),
    ensures
        rest(f, state.step(reply)) == rest(f, state),
{
    let next = state.step(reply);
    match state.stage {
        Stage::SemiMajor => {
            assert(state.points =~= Seq::empty());
        },
        Stage::StartAbscissa => {},
        Stage::Sine => {},
        Stage::Quadratic { .. } => {},
        Stage::Runs { .. } => {},
        Stage::ImplicitOrdinate { .. } => {},
        Stage::Normal { .. } => {},
        Stage::Reflection { hit, .. } => {
            let angle = scalar_of(reply);
            if angle.spec_is_finite() {
                assert(next == state.settle(hit, angle));
                assert(next.legs_left() == state.legs_left() - 1);
            }
        },
        Stage::Finished => {},
        Stage::Failed { .. } => {},
    }
}

/// The outcome of a computation that is over is what it came to.
pub proof fn lemma_outcome_is_rest(f: spec_fn(Request) -> Reply, state: TracerState)
    requires
        state.is_over(),
    ensures
        state.outcome() == Some(rest(f, state)),
{
}

} // verus!
