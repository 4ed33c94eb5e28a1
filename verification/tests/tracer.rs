use ellipse_billard::binary64::Binary64;
use ellipse_billard::error::BilliardError;
use ellipse_billard::geometry::{Ellipse, Point, Vector};
use ellipse_billard::solver::{Axis, Crossings};
use ellipse_billard::tracer::{answers, Reply, Request, Tracer};

fn b(x: f64) -> Binary64 {
    Binary64::from_bits(x.to_bits())
}

fn point(x: f64, y: f64) -> Point {
    Point { x: b(x), y: b(y) }
}

fn vector(x: f64, y: f64) -> Vector {
    Vector { x: b(x), y: b(y) }
}

fn scalar(x: f64) -> Reply {
    Reply::Scalar(b(x))
}

fn crossings(discriminant: f64, root_a: Point, root_b: Point) -> Reply {
    Reply::Crossings(Crossings { discriminant: b(discriminant), root_a, root_b })
}

fn table() -> Ellipse {
    Ellipse { semi_major: b(2.), semi_minor: b(1.) }
}

/// A tracer on the table of semi-major axis 2, about to solve the launch
/// from (0.5, 0) at the given angle.
fn at_launch(angle: f64, count: usize) -> Tracer {
    let tracer = Tracer::new(b(0.75), b(angle), b(0.25), count);
    let tracer = tracer.advance(scalar(2.));
    tracer.advance(scalar(0.5))
}

#[test]
fn a_computation_begins_with_the_semi_major_axis() {
    let tracer = Tracer::new(b(0.8), b(1.), b(0.3), 5);
    assert!(!tracer.is_over());
    assert_eq!(tracer.pending(), Request::SemiMajor { eccentricity: b(0.8) });
    let tracer = tracer.advance(scalar(2.));
    assert_eq!(
        tracer.pending(),
        Request::StartAbscissa { start_offset: b(0.3), semi_major: b(2.) }
    );
    let tracer = tracer.advance(scalar(0.6));
    assert_eq!(tracer.pending(), Request::Sine { angle: b(1.) });
    let tracer = tracer.advance(scalar(0.8414709848078965));
    assert_eq!(
        tracer.pending(),
        Request::Quadratic { ellipse: table(), axis: Axis::Y, origin: point(0.6, 0.), angle: b(1.) }
    );
}

#[test]
fn a_flat_ray_is_solved_for_x() {
    let tracer = at_launch(0.25, 1).advance(scalar(0.24740395925452294));
    assert_eq!(
        tracer.pending(),
        Request::Quadratic { ellipse: table(), axis: Axis::X, origin: point(0.5, 0.), angle: b(0.25) }
    );
}

#[test]
fn a_leg_off_the_axes_asks_tangent_normal_and_reflection() {
    let up = point(1.2, 0.8);
    let down = point(-0.4, -0.9);
    let tracer = at_launch(1., 1).advance(scalar(0.84));
    let tracer = tracer.advance(crossings(3., up, down));
    assert_eq!(tracer.pending(), Request::ImplicitOrdinate { ellipse: table(), at: up });
    let tracer = tracer.advance(scalar(-0.45));
    assert_eq!(tracer.pending(), Request::Normalize { normal: vector(0.45, 1.2), at: up });
    let tracer = tracer.advance(Reply::Normal { unit: vector(0.35, 0.94), outward: b(1.5) });
    assert_eq!(
        tracer.pending(),
        Request::Reflect { origin: point(0.5, 0.), at: up, normal: vector(-0.35, -0.94) }
    );
    let tracer = tracer.advance(scalar(-2.));
    assert!(!tracer.is_over());
    assert_eq!(tracer.pending(), Request::Sine { angle: b(-2.) });
    let tracer = tracer.advance(scalar(-0.9));
    assert_eq!(
        tracer.pending(),
        Request::Quadratic { ellipse: table(), axis: Axis::Y, origin: up, angle: b(-2.) }
    );
}

#[test]
fn a_normal_that_points_inward_is_kept() {
    let up = point(1.2, 0.8);
    let tracer = at_launch(1., 1).advance(scalar(0.84));
    let tracer = tracer.advance(crossings(3., up, point(-0.4, -0.9)));
    let tracer = tracer.advance(scalar(-0.45));
    let tracer = tracer.advance(Reply::Normal { unit: vector(-0.35, -0.94), outward: b(-1.5) });
    assert_eq!(
        tracer.pending(),
        Request::Reflect { origin: point(0.5, 0.), at: up, normal: vector(-0.35, -0.94) }
    );
}

#[test]
fn a_hit_on_the_major_axis_takes_the_fixed_tangent() {
    let tracer = at_launch(0., 1).advance(scalar(0.));
    let tracer = tracer.advance(crossings(16., point(2., 0.), point(-2., 0.)));
    assert_eq!(tracer.pending(), Request::Normalize { normal: vector(-1., 0.), at: point(2., 0.) });
}

#[test]
fn a_hit_on_the_minor_axis_takes_the_fixed_tangent() {
    let tracer = at_launch(1.5, 1).advance(scalar(1.));
    let tracer = tracer.advance(crossings(16., point(0., 1.), point(0.9, -0.8)));
    assert_eq!(tracer.pending(), Request::Normalize { normal: vector(-0., 1.), at: point(0., 1.) });
}

#[test]
fn a_bounce_asks_for_the_runs_and_takes_the_longer() {
    let first = point(1.2, 0.8);
    let tracer = at_launch(1., 2).advance(scalar(0.84));
    let tracer = tracer.advance(crossings(3., first, point(-0.4, -0.9)));
    let tracer = tracer.advance(scalar(-0.45));
    let tracer = tracer.advance(Reply::Normal { unit: vector(0.35, 0.94), outward: b(1.5) });
    let tracer = tracer.advance(scalar(-2.));
    let tracer = tracer.advance(scalar(-0.9));
    let behind = point(1.2000000000000002, 0.8);
    let ahead = point(0.3, -0.95);
    let tracer = tracer.advance(crossings(2., behind, ahead));
    assert_eq!(tracer.pending(), Request::Runs { origin: first, root_a: behind, root_b: ahead });
    let tracer = tracer.advance(Reply::Pair(b(2.220446049250313e-16), b(-0.9)));
    assert_eq!(tracer.pending(), Request::ImplicitOrdinate { ellipse: table(), at: ahead });
}

#[test]
fn a_reply_of_another_shape_changes_nothing() {
    let tracer = Tracer::new(b(0.8), b(1.), b(0.3), 5);
    let tracer = tracer.advance(Reply::Pair(b(1.), b(2.)));
    assert_eq!(tracer.pending(), Request::SemiMajor { eccentricity: b(0.8) });
    let tracer = tracer.advance(crossings(1., point(1., 1.), point(2., 2.)));
    assert_eq!(tracer.pending(), Request::SemiMajor { eccentricity: b(0.8) });
    let tracer = at_launch(1., 1).advance(scalar(0.84));
    let before = tracer.pending();
    let tracer = tracer.advance(scalar(1.));
    assert_eq!(tracer.pending(), before);
    let tracer = tracer.advance(Reply::Normal { unit: vector(1., 0.), outward: b(1.) });
    assert_eq!(tracer.pending(), before);
}

#[test]
fn answers_match_requests_by_shape() {
    let normal = Reply::Normal { unit: vector(1., 0.), outward: b(1.) };
    let pair = Reply::Pair(b(1.), b(2.));
    let roots = crossings(1., point(1., 1.), point(2., 2.));
    let requests = [
        (Request::SemiMajor { eccentricity: b(0.8) }, 0),
        (Request::StartAbscissa { start_offset: b(0.3), semi_major: b(2.) }, 0),
        (Request::Sine { angle: b(1.) }, 0),
        (Request::Quadratic { ellipse: table(), axis: Axis::X, origin: point(0., 0.), angle: b(1.) }, 2),
        (Request::Runs { origin: point(0., 0.), root_a: point(1., 1.), root_b: point(2., 2.) }, 1),
        (Request::ImplicitOrdinate { ellipse: table(), at: point(1., 1.) }, 0),
        (Request::Normalize { normal: vector(1., 1.), at: point(1., 1.) }, 3),
        (Request::Reflect { origin: point(0., 0.), at: point(1., 1.), normal: vector(1., 0.) }, 0),
        (Request::Nothing, 4),
    ];
    for &(request, shape) in requests.iter() {
        assert_eq!(answers(request, scalar(1.)), shape == 0);
        assert_eq!(answers(request, pair), shape == 1);
        assert_eq!(answers(request, roots), shape == 2);
        assert_eq!(answers(request, normal), shape == 3);
    }
}

#[test]
fn a_negative_discriminant_ends_the_computation() {
    let tracer = at_launch(1., 3).advance(scalar(0.84));
    assert!(tracer.finish().is_none());
    let tracer = at_launch(1., 3).advance(scalar(0.84));
    let tracer = tracer.advance(crossings(-1e-9, point(1.2, 0.8), point(-0.4, -0.9)));
    assert!(tracer.is_over());
    assert_eq!(tracer.pending(), Request::Nothing);
    let tracer = tracer.advance(scalar(1.));
    assert!(tracer.is_over());
    assert_eq!(tracer.finish().unwrap().err(), Some(BilliardError::NegativeDiscriminant));
}

#[test]
fn an_angle_that_is_not_finite_ends_the_computation() {
    for &angle in [f64::NAN, f64::INFINITY, f64::NEG_INFINITY].iter() {
        let tracer = at_launch(0., 3).advance(scalar(0.));
        let tracer = tracer.advance(crossings(16., point(2., 0.), point(-2., 0.)));
        let tracer = tracer.advance(Reply::Normal { unit: vector(-1., 0.), outward: b(-2.) });
        let tracer = tracer.advance(scalar(angle));
        assert!(tracer.is_over());
        assert_eq!(tracer.pending(), Request::Nothing);
        assert_eq!(tracer.finish().unwrap().err(), Some(BilliardError::NonFiniteAngle));
    }
}

#[test]
fn a_computation_without_bounces_ends_after_the_launch() {
    let tracer = at_launch(0., 0).advance(scalar(0.));
    let tracer = tracer.advance(crossings(16., point(2., 0.), point(-2., 0.)));
    let tracer = tracer.advance(Reply::Normal { unit: vector(-1., 0.), outward: b(-2.) });
    assert!(!tracer.is_over());
    let tracer = tracer.advance(scalar(3.141592653589793));
    assert!(tracer.is_over());
    assert_eq!(tracer.pending(), Request::Nothing);
    let path = tracer.finish().unwrap().unwrap();
    assert_eq!(path.points(), &vec![point(0.5, 0.)]);
    assert_eq!(path.final_angle(), b(3.141592653589793));
    assert_eq!(path.ellipse(), table());
    assert_eq!(path.reflection_count(), 0);
}

#[test]
fn one_bounce_along_the_axis_gives_two_points() {
    let tracer = at_launch(0., 1).advance(scalar(0.));
    let tracer = tracer.advance(crossings(16., point(2., 0.), point(-2., 0.)));
    let tracer = tracer.advance(Reply::Normal { unit: vector(-1., 0.), outward: b(-2.) });
    let tracer = tracer.advance(scalar(3.141592653589793));
    assert_eq!(tracer.pending(), Request::Sine { angle: b(3.141592653589793) });
    let tracer = tracer.advance(scalar(1.2246467991473532e-16));
    let tracer = tracer.advance(crossings(16., point(2., 0.), point(-2., 0.)));
    assert_eq!(
        tracer.pending(),
        Request::Runs { origin: point(2., 0.), root_a: point(2., 0.), root_b: point(-2., 0.) }
    );
    let tracer = tracer.advance(Reply::Pair(b(0.), b(-4.)));
    assert_eq!(tracer.pending(), Request::Normalize { normal: vector(-1., 0.), at: point(-2., 0.) });
    let tracer = tracer.advance(Reply::Normal { unit: vector(-1., 0.), outward: b(2.) });
    assert_eq!(
        tracer.pending(),
        Request::Reflect { origin: point(2., 0.), at: point(-2., 0.), normal: vector(1., -0.) }
    );
    let tracer = tracer.advance(scalar(0.));
    assert!(tracer.is_over());
    let path = tracer.finish().unwrap().unwrap();
    assert_eq!(path.points(), &vec![point(0.5, 0.), point(2., 0.)]);
    assert_eq!(path.final_angle(), b(0.));
}
