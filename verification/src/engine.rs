//! The whole computation in one call: the machine of [`crate::tracer`],
//! driven to its end with the arithmetic that the caller supplies.

use vstd::prelude::*;
use vstd::pervasive::unreached;
use crate::binary64::Binary64;
use crate::error::BilliardError;
use crate::model::{lemma_outcome_is_rest, lemma_step_keeps_rest, rest, trajectory};
use crate::tracer::{lemma_over_is_final, lemma_start_inv, lemma_step_inv, lemma_step_spends_fuel};
use crate::tracer::{spec_answers, Reply, Request, Tracer, TracerState};
use crate::trajectory::{outcome_view, Trajectory, TrajectoryView};

verus! {

/// The state that the machine reaches from `state` on the given replies, in
/// their order.
pub open spec fn run(state: TracerState, replies: Seq<Reply>) -> TracerState
    decreases replies.len(),
{
    if replies.len() == 0 {
        state
    } else {
        run(state, replies.drop_last()).step(replies.last())
    }
}

/// Each reply is an answer that `arithmetic` may give to the request that is
/// pending when the machine, begun in `state`, has taken the replies before it.
pub open spec fn answered_by<F: Fn(Request) -> Reply>(
    arithmetic: F,
    state: TracerState,
    replies: Seq<Reply>,
) -> bool
    decreases replies.len(),
{
    replies.len() > 0 ==> {
        let before = run(state, replies.drop_last());
        &&& answered_by(arithmetic, state, replies.drop_last())
        &&& before.expects(replies.last())
        &&& arithmetic.ensures((before.pending(),), replies.last())
    }
}

/// `result` is what the machine, begun in `state`, ends with on answers that
/// `arithmetic` may give.
pub open spec fn explains<F: Fn(Request) -> Reply>(
    arithmetic: F,
    state: TracerState,
    replies: Seq<Reply>,
    result: Result<TrajectoryView, BilliardError>,
) -> bool {
    answered_by(arithmetic, state, replies) && run(state, replies).outcome() == Some(result)
}

/// `result` is a result of the computation on the given inputs with
/// `arithmetic`: some answers of `arithmetic` lead the machine to it.
pub open spec fn computes<F: Fn(Request) -> Reply>(
    arithmetic: F,
    eccentricity: Binary64,
    launch_angle: Binary64,
    start_offset: Binary64,
    reflection_count: nat,
    result: Result<TrajectoryView, BilliardError>,
) -> bool {
    exists|replies: Seq<Reply>| #[trigger]
        explains(
            arithmetic,
            TracerState::start(eccentricity, launch_angle, start_offset, reflection_count),
            replies,
            result,
        )
}

/// Every answer that `arithmetic` may give to a request is the value of `f`
/// on it.
pub open spec fn evaluates<F: Fn(Request) -> Reply>(
    arithmetic: F,
    f: spec_fn(Request) -> Reply,
) -> bool {
    forall|request: Request, reply: Reply| #[trigger]
        arithmetic.ensures((request,), reply) ==> reply == f(request)
}

/// The arithmetic gives one answer to each request.
pub open spec fn single_valued<F: Fn(Request) -> Reply>(arithmetic: F) -> bool {
    forall|request: Request, one: Reply, other: Reply|
        #[trigger] arithmetic.ensures((request,), one) && #[trigger] arithmetic.ensures(
            (request,),
            other,
        ) ==> one == other
}

/// A run from a state that satisfies the invariant ends in one that does.
pub proof fn lemma_run_inv(state: TracerState, replies: Seq<Reply>)
    requires
        state.inv(),
    ensures
        run(state, replies).inv(),
    decreases replies.len(),
{
    if replies.len() > 0 {
        lemma_run_inv(state, replies.drop_last());
        lemma_step_inv(run(state, replies.drop_last()), replies.last());
    }
}

/// Whatever the arithmetic answers, a computation for `reflection_count`
/// bounces that ends with a path ends with `reflection_count + 1` points, the
/// first of them on the major axis. No run yields a shorter or a longer path.
pub proof fn lemma_point_count(
    eccentricity: Binary64,
    launch_angle: Binary64,
    start_offset: Binary64,
    reflection_count: nat,
    replies: Seq<Reply>,
)
    ensures
        ({
            let end = run(
                TracerState::start(eccentricity, launch_angle, start_offset, reflection_count),
                replies,
            );
            &&& end.points.len() <= reflection_count + 1
            &&& end.outcome() matches Some(Ok(path)) ==> {
                &&& path.points.len() == reflection_count + 1
                &&& path.points[0].y == Binary64::spec_zero()
                &&& path.ellipse.semi_minor == Binary64::spec_one()
            }
        }),
{
    let start = TracerState::start(eccentricity, launch_angle, start_offset, reflection_count);
    lemma_start_inv(eccentricity, launch_angle, start_offset, reflection_count);
    lemma_run_inv(start, replies);
    lemma_run_keeps_inputs(start, replies);
}

/// A run changes none of the inputs of the computation.
pub proof fn lemma_run_keeps_inputs(state: TracerState, replies: Seq<Reply>)
    ensures
        run(state, replies).eccentricity == state.eccentricity,
        run(state, replies).start_offset == state.start_offset,
        run(state, replies).reflection_count == state.reflection_count,
    decreases replies.len(),
{
    if replies.len() > 0 {
        lemma_run_keeps_inputs(state, replies.drop_last());
    }
}

/// A computation for `reflection_count` bounces takes at most
/// `7 · reflection_count + 8` answers.
pub proof fn lemma_answers_bounded<F: Fn(Request) -> Reply>(
    arithmetic: F,
    eccentricity: Binary64,
    launch_angle: Binary64,
    start_offset: Binary64,
    reflection_count: nat,
    replies: Seq<Reply>,
)
    requires
        answered_by(
            arithmetic,
            TracerState::start(eccentricity, launch_angle, start_offset, reflection_count),
            replies,
        ),
    ensures
        replies.len() + run(
            TracerState::start(eccentricity, launch_angle, start_offset, reflection_count),
            replies,
        ).fuel() <= 7 * reflection_count + 8,
    decreases replies.len(),
{
    let start = TracerState::start(eccentricity, launch_angle, start_offset, reflection_count);
    lemma_start_inv(eccentricity, launch_angle, start_offset, reflection_count);
    if replies.len() > 0 {
        lemma_answers_bounded(
            arithmetic,
            eccentricity,
            launch_angle,
            start_offset,
            reflection_count,
            replies.drop_last(),
        );
        lemma_run_inv(start, replies.drop_last());
        lemma_step_spends_fuel(run(start, replies.drop_last()), replies.last());
    }
}

/// In a run that `arithmetic` answers, and that begins in a state that
/// satisfies the invariant, no step changes what the computation comes to
/// under a function that `arithmetic` evaluates.
pub proof fn lemma_run_keeps_rest<F: Fn(Request) -> Reply>(
    arithmetic: F,
    f: spec_fn(Request) -> Reply,
    state: TracerState,
    replies: Seq<Reply>,
)
    requires
        evaluates(arithmetic, f),
        answered_by(arithmetic, state, replies),
        state.inv(),
    ensures
        rest(f, run(state, replies)) == rest(f, state),
    decreases replies.len(),
{
    if replies.len() > 0 {
        lemma_run_keeps_rest(arithmetic, f, state, replies.drop_last());
        lemma_run_inv(state, replies.drop_last());
        lemma_step_keeps_rest(f, run(state, replies.drop_last()), replies.last());
    }
}

/// The machine computes the trajectory: every result of a computation whose
/// arithmetic evaluates `f` is the trajectory over `f` of the inputs.
pub proof fn lemma_computes_the_trajectory<F: Fn(Request) -> Reply>(
    arithmetic: F,
    f: spec_fn(Request) -> Reply,
    eccentricity: Binary64,
    launch_angle: Binary64,
    start_offset: Binary64,
    reflection_count: nat,
    result: Result<TrajectoryView, BilliardError>,
)
    requires
        evaluates(arithmetic, f),
        computes(arithmetic, eccentricity, launch_angle, start_offset, reflection_count, result),
    ensures
        result == trajectory(f, eccentricity, launch_angle, start_offset, reflection_count),
{
    let start = TracerState::start(eccentricity, launch_angle, start_offset, reflection_count);
    let replies = choose|replies: Seq<Reply>| explains(arithmetic, start, replies, result);
    lemma_start_inv(eccentricity, launch_angle, start_offset, reflection_count);
    lemma_run_keeps_rest(arithmetic, f, start, replies);
    lemma_over_is_final(run(start, replies), Reply::Scalar(Binary64::spec_zero()));
    lemma_outcome_is_rest(f, run(start, replies));
}

/// With an arithmetic that gives one answer to each request, the same inputs
/// give the same result: the same points and the same final angle, or the
/// same error.
pub proof fn lemma_same_inputs_same_result<F: Fn(Request) -> Reply>(
    arithmetic: F,
    eccentricity: Binary64,
    launch_angle: Binary64,
    start_offset: Binary64,
    reflection_count: nat,
    one: Result<TrajectoryView, BilliardError>,
    other: Result<TrajectoryView, BilliardError>,
)
    requires
        single_valued(arithmetic),
        computes(arithmetic, eccentricity, launch_angle, start_offset, reflection_count, one),
        computes(arithmetic, eccentricity, launch_angle, start_offset, reflection_count, other),
    ensures
        one == other,
{
    let f = |request: Request| choose|reply: Reply| arithmetic.ensures((request,), reply);
    assert(evaluates(arithmetic, f));
    lemma_computes_the_trajectory(
        arithmetic,
        f,
        eccentricity,
        launch_angle,
        start_offset,
        reflection_count,
        one,
    );
    lemma_computes_the_trajectory(
        arithmetic,
        f,
        eccentricity,
        launch_angle,
        start_offset,
        reflection_count,
        other,
    );
}

/// Every result of a computation for `reflection_count` bounces that is a
/// path has `reflection_count + 1` points, the first of them on the major
/// axis, on a table whose semi-minor axis is one.
pub proof fn lemma_computed_path<F: Fn(Request) -> Reply>(
    arithmetic: F,
    eccentricity: Binary64,
    launch_angle: Binary64,
    start_offset: Binary64,
    reflection_count: nat,
    result: Result<TrajectoryView, BilliardError>,
)
    requires
        computes(arithmetic, eccentricity, launch_angle, start_offset, reflection_count, result),
    ensures
        result matches Ok(path) ==> {
            &&& path.points.len() == reflection_count + 1
            &&& path.points[0].y == Binary64::spec_zero()
            &&& path.ellipse.semi_minor == Binary64::spec_one()
        },
{
    let start = TracerState::start(eccentricity, launch_angle, start_offset, reflection_count);
    let replies = choose|replies: Seq<Reply>| explains(arithmetic, start, replies, result);
    lemma_point_count(eccentricity, launch_angle, start_offset, reflection_count, replies);
}

/// Computes the path of a ball on the elliptic table of the given
/// eccentricity. The ball is launched at `launch_angle` from the point of the
/// major axis at `start_offset` of the semi-major axis and followed for
/// `reflection_count` bounces. `arithmetic` evaluates each block of rounding
/// arithmetic that the computation asks for.
///
/// `arithmetic` is called on every request but [`Request::Nothing`] and has to
/// answer each with a reply of the shape that the request asks for.
///
/// The result is that of the machine on the answers that `arithmetic` gave:
/// the path, of `reflection_count + 1` points, or the first fatal condition
/// met, with no points at all. Where `arithmetic` evaluates a function, the
/// result is the [`trajectory`] over that function.
pub fn compute_trajectory<F: Fn(Request) -> Reply>(
    eccentricity: Binary64,
    launch_angle: Binary64,
    start_offset: Binary64,
    reflection_count: usize,
    arithmetic: F,
) -> (r: Result<Trajectory, BilliardError>)
    requires
        forall|request: Request| request !is Nothing ==> #[trigger] arithmetic.requires((request,)),
        forall|request: Request, reply: Reply|
            request !is Nothing && #[trigger] arithmetic.ensures((request,), reply)
                ==> spec_answers(request, reply),
    ensures
        computes(
            arithmetic,
            eccentricity,
            launch_angle,
            start_offset,
            reflection_count as nat,
            outcome_view(r),
        ),
        forall|f: spec_fn(Request) -> Reply|
            evaluates(arithmetic, f) ==> outcome_view(r) == #[trigger] trajectory(
                f,
                eccentricity,
                launch_angle,
                start_offset,
                reflection_count as nat,
            ),
        r matches Ok(path) ==> path@.points.len() == reflection_count + 1,
{
    let mut tracer = Tracer::new(eccentricity, launch_angle, start_offset, reflection_count);
    let ghost start = tracer@;
    let ghost mut replies: Seq<Reply> = Seq::empty();
    while !tracer.is_over()
        invariant
            start == TracerState::start(
                eccentricity,
                launch_angle,
                start_offset,
                reflection_count as nat,
            ),
            tracer@ == run(start, replies),
            answered_by(arithmetic, start, replies),
            forall|request: Request|
                request !is Nothing ==> #[trigger] arithmetic.requires((request,)),
            forall|request: Request, reply: Reply|
                request !is Nothing && #[trigger] arithmetic.ensures((request,), reply)
                    ==> spec_answers(request, reply),
        decreases tracer@.fuel(),
    {
        let request = tracer.pending();
        let reply = arithmetic(request);
        proof {
            lemma_step_spends_fuel(tracer@, reply);
            assert(replies.push(reply).drop_last() == replies);
            replies = replies.push(reply);
        }
        tracer = tracer.advance(reply);
    }
    proof {
        lemma_run_keeps_inputs(start, replies);
    }
    match tracer.finish() {
        Some(result) => {
            proof {
                assert(explains(arithmetic, start, replies, outcome_view(result)));
                assert forall|f: spec_fn(Request) -> Reply| evaluates(arithmetic, f) implies outcome_view(
                    result,
                ) == #[trigger] trajectory(
                    f,
                    eccentricity,
                    launch_angle,
                    start_offset,
                    reflection_count as nat,
                ) by {
                    lemma_computes_the_trajectory(
                        arithmetic,
                        f,
                        eccentricity,
                        launch_angle,
                        start_offset,
                        reflection_count as nat,
                        outcome_view(result),
                    );
                }
            }
            result
        },
        None => unreached(),
    }
}

} // verus!
