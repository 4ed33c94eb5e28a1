use ellipse_billard::binary64::Binary64;
use ellipse_billard::engine::compute_trajectory;
use ellipse_billard::error::BilliardError;
use ellipse_billard::geometry::{Point, Vector};
use ellipse_billard::solver::{Axis, Crossings};
use ellipse_billard::tracer::{Reply, Request};
use ellipse_billard::trajectory::Trajectory;
use std::f64::consts::{FRAC_PI_2, FRAC_PI_4, PI, TAU};

fn b(x: f64) -> Binary64 {
    Binary64::from_bits(x.to_bits())
}

fn f(x: Binary64) -> f64 {
    f64::from_bits(x.to_bits())
}

fn point(x: f64, y: f64) -> Point {
    Point { x: b(x), y: b(y) }
}

/// The rounding arithmetic of the tracer in binary64.
fn arithmetic(request: Request) -> Reply {
    match request {
        Request::SemiMajor { eccentricity } => {
            let e = f(eccentricity);
            Reply::Scalar(b(1. / (1. - e * e).sqrt()))
        }
        Request::StartAbscissa { start_offset, semi_major } => {
            Reply::Scalar(b(f(start_offset) * f(semi_major)))
        }
        Request::Sine { angle } => Reply::Scalar(b(f(angle).sin())),
        Request::Quadratic { ellipse, axis, origin, angle } => {
            let (a, bb) = (f(ellipse.semi_major), f(ellipse.semi_minor));
            let (x0, y0) = (f(origin.x), f(origin.y));
            let angle = f(angle);
            match axis {
                Axis::Y => {
                    let angle_factor = angle.cos() / angle.sin();
                    let offset = x0 - angle_factor * y0;
                    let alpha = a * a + (bb * angle_factor).powi(2);
                    let beta = 2. * bb * bb * offset * angle_factor;
                    let gamma = bb * bb * (offset * offset - a * a);
                    let delta = beta * beta - 4. * alpha * gamma;
                    let iy0 = (-beta + delta.sqrt()) / (2. * alpha);
                    let iy1 = (-beta - delta.sqrt()) / (2. * alpha);
                    Reply::Crossings(Crossings {
                        discriminant: b(delta),
                        root_a: point(iy0 * angle_factor + offset, iy0),
                        root_b: point(iy1 * angle_factor + offset, iy1),
                    })
                }
                Axis::X => {
                    let angle_factor = angle.tan();
                    let offset = y0 - angle_factor * x0;
                    let alpha = bb * bb + (a * angle_factor).powi(2);
                    let beta = 2. * a * a * offset * angle_factor;
                    let gamma = a * a * (offset * offset - bb * bb);
                    let delta = beta * beta - 4. * alpha * gamma;
                    let ix0 = (-beta + delta.sqrt()) / (2. * alpha);
                    let ix1 = (-beta - delta.sqrt()) / (2. * alpha);
                    Reply::Crossings(Crossings {
                        discriminant: b(delta),
                        root_a: point(ix0, angle_factor * ix0 + offset),
                        root_b: point(ix1, angle_factor * ix1 + offset),
                    })
                }
            }
        }
        Request::Runs { origin, root_a, root_b } => {
            Reply::Pair(b(f(root_a.x) - f(origin.x)), b(f(root_b.x) - f(origin.x)))
        }
        Request::ImplicitOrdinate { ellipse, at } => {
            let bb = f(ellipse.semi_minor);
            let y0 = f(at.y);
            Reply::Scalar(b(y0 - (bb * bb / y0)))
        }
        Request::Normalize { normal, at } => {
            let (nx, ny) = (f(normal.x), f(normal.y));
            let norm = (nx * nx + ny * ny).sqrt();
            Reply::Normal {
                unit: Vector { x: b(nx / norm), y: b(ny / norm) },
                outward: b(nx * f(at.x) + ny * f(at.y)),
            }
        }
        Request::Reflect { origin, at, normal } => {
            let (vx, vy) = (f(at.x) - f(origin.x), f(at.y) - f(origin.y));
            let (nx, ny) = (f(normal.x), f(normal.y));
            let dot = vx * nx + vy * ny;
            let (ox, oy) = (vx - 2. * dot * nx, vy - 2. * dot * ny);
            Reply::Scalar(b(oy.atan2(ox)))
        }
        Request::Nothing => unreachable!(),
    }
}

fn trace(e: f64, angle: f64, offset: f64, count: usize) -> Result<Trajectory, BilliardError> {
    compute_trajectory(b(e), b(angle), b(offset), count, arithmetic)
}

fn coordinates(path: &Trajectory) -> Vec<(f64, f64)> {
    path.points().iter().map(|p| (f(p.x), f(p.y))).collect()
}

fn crossings_in_one_piece(a: f64, bb: f64, angle: f64, x0: f64, y0: f64) -> ((f64, f64), (f64, f64)) {
    if angle.sin().abs() >= 0.5 {
        let angle_factor = angle.cos() / angle.sin();
        let offset = x0 - angle_factor * y0;
        let alpha = a * a + (bb * angle_factor).powi(2);
        let beta = 2. * bb * bb * offset * angle_factor;
        let gamma = bb * bb * (offset * offset - a * a);
        let delta = beta * beta - 4. * alpha * gamma;
        assert!(delta >= 0.);
        let iy0 = (-beta + delta.sqrt()) / (2. * alpha);
        let iy1 = (-beta - delta.sqrt()) / (2. * alpha);
        ((iy0 * angle_factor + offset, iy0), (iy1 * angle_factor + offset, iy1))
    } else {
        let angle_factor = angle.tan();
        let offset = y0 - angle_factor * x0;
        let alpha = bb * bb + (a * angle_factor).powi(2);
        let beta = 2. * a * a * offset * angle_factor;
        let gamma = a * a * (offset * offset - bb * bb);
        let delta = beta * beta - 4. * alpha * gamma;
        assert!(delta >= 0.);
        let ix0 = (-beta + delta.sqrt()) / (2. * alpha);
        let ix1 = (-beta - delta.sqrt()) / (2. * alpha);
        ((ix0, angle_factor * ix0 + offset), (ix1, angle_factor * ix1 + offset))
    }
}

fn outgoing_in_one_piece(bb: f64, sx: f64, sy: f64, x0: f64, y0: f64) -> f64 {
    let (tx, ty) = if y0 == 0. {
        (0., 1.)
    } else if x0 == 0. {
        (1., 0.)
    } else {
        (x0, y0 - (bb * bb / y0))
    };
    let (nx, ny) = (-ty, tx);
    let norm = (nx * nx + ny * ny).sqrt();
    let (nx, ny) = if nx * x0 + ny * y0 >= 0. {
        (-nx / norm, -ny / norm)
    } else {
        (nx / norm, ny / norm)
    };
    let (vx, vy) = (x0 - sx, y0 - sy);
    let dot = vx * nx + vy * ny;
    let (ox, oy) = (vx - 2. * dot * nx, vy - 2. * dot * ny);
    oy.atan2(ox)
}

/// The same path computed in one piece, with the decisions taken by the
/// comparisons of the hardware.
fn in_one_piece(e: f64, angle: f64, offset: f64, count: usize) -> (Vec<(f64, f64)>, f64) {
    let a = 1. / (1. - e * e).sqrt();
    let bb = 1.;
    let (sx, sy) = (offset * a, 0.);
    let ((ix0, iy0), (ix1, iy1)) = crossings_in_one_piece(a, bb, angle, sx, sy);
    let (lower, upper) = if iy0 < 0. {
        ((ix0, iy0), (ix1, iy1))
    } else {
        ((ix1, iy1), (ix0, iy0))
    };
    let first = if iy0 == 0. {
        if angle == 0. {
            (ix0.abs(), 0.)
        } else {
            (-ix0.abs(), 0.)
        }
    } else if angle > PI {
        lower
    } else {
        upper
    };
    let mut points = vec![(sx, sy)];
    let mut start = first;
    let mut theta = outgoing_in_one_piece(bb, sx, sy, first.0, first.1);
    for _ in 0..count {
        let (x0, y0) = start;
        let ((ix0, iy0), (ix1, iy1)) = crossings_in_one_piece(a, bb, theta, x0, y0);
        let d0 = (ix0 - x0).abs();
        let d1 = (ix1 - x0).abs();
        let (ix, iy) = if d0 > d1 { (ix0, iy0) } else { (ix1, iy1) };
        start = (ix, iy);
        theta = outgoing_in_one_piece(bb, x0, y0, ix, iy);
        assert!(!theta.is_nan());
        points.push((x0, y0));
    }
    (points, theta)
}

fn assert_on_boundary(a: f64, bb: f64, x: f64, y: f64) {
    let value = x * x / (a * a) + y * y / (bb * bb);
    assert!((value - 1.).abs() <= 1e-9, "({}, {}) gives {}", x, y, value);
}

fn assert_close(actual: f64, expected: f64) {
    assert!(
        (actual - expected).abs() <= 1e-9 * expected.abs().max(1.),
        "{} is not close to {}",
        actual,
        expected
    );
}

#[test]
fn fifty_bounces_from_a_quarter_turn_launch() {
    let path = trace(0.8, FRAC_PI_4, 0.3, 50).unwrap();
    let a = f(path.ellipse().semi_major);
    let bb = f(path.ellipse().semi_minor);
    assert_close(a, 1.6666666666666667);
    assert_eq!(bb, 1.);
    assert_eq!(path.len(), 51);
    assert_eq!(path.reflection_count(), 50);
    let points = coordinates(&path);
    assert_close(points[0].0, 0.5);
    assert_eq!(points[0].1, 0.);
    for &(x, y) in points[1..].iter() {
        assert_on_boundary(a, bb, x, y);
    }
    assert_close(points[1].0, 1.1962814462929887);
    assert_close(points[1].1, 0.6962814462929886);
    assert_close(points[2].0, 0.6565554525615188);
    assert_close(points[2].1, -0.9191390414818785);
    assert_close(points[3].0, -1.134488432252657);
    assert_close(points[3].1, 0.7325687400855752);
    assert_close(points[50].0, -1.0898877923793546);
    assert_close(points[50].1, -0.7565527450271292);
    assert_close(f(path.final_angle()), -1.319709135737171);
    assert!(-PI < f(path.final_angle()) && f(path.final_angle()) <= PI);
}

#[test]
fn every_hit_lies_on_the_boundary() {
    for &e in [0.01, 0.3, 0.8, 0.95, 0.99].iter() {
        for k in 0..16 {
            let angle = TAU * (k as f64) / 16. + 0.05;
            for &offset in [-0.9, -0.3, 0., 0.5].iter() {
                let path = trace(e, angle, offset, 40).unwrap();
                let a = f(path.ellipse().semi_major);
                for &(x, y) in coordinates(&path)[1..].iter() {
                    assert_on_boundary(a, 1., x, y);
                }
            }
        }
    }
}

#[test]
fn incidence_equals_reflection_at_every_bounce() {
    let path = trace(0.8, FRAC_PI_4, 0.3, 50).unwrap();
    let a = f(path.ellipse().semi_major);
    let points = coordinates(&path);
    for i in 1..points.len() - 1 {
        let (px, py) = points[i];
        let incoming = (px - points[i - 1].0, py - points[i - 1].1);
        let outgoing = (points[i + 1].0 - px, points[i + 1].1 - py);
        let length_in = (incoming.0 * incoming.0 + incoming.1 * incoming.1).sqrt();
        let length_out = (outgoing.0 * outgoing.0 + outgoing.1 * outgoing.1).sqrt();
        let gradient = (px / (a * a), py);
        let length = (gradient.0 * gradient.0 + gradient.1 * gradient.1).sqrt();
        let normal = (-gradient.0 / length, -gradient.1 / length);
        let dot_in = (incoming.0 * normal.0 + incoming.1 * normal.1) / length_in;
        let dot_out = (outgoing.0 * normal.0 + outgoing.1 * normal.1) / length_out;
        assert!(dot_in < 0., "the ball arrives from inside at bounce {}", i);
        assert!((dot_in + dot_out).abs() <= 1e-9, "bounce {}: {} and {}", i, dot_in, dot_out);
    }
}

#[test]
fn the_reflected_direction_mirrors_the_incoming_one() {
    let origin = point(0.5, 0.);
    let at = point(1.1962814462929887, 0.6962814462929886);
    let tangent = (f(at.x), f(at.y) - 1. / f(at.y));
    let norm = (tangent.0 * tangent.0 + tangent.1 * tangent.1).sqrt();
    let normal = (tangent.1 / norm, -tangent.0 / norm);
    let reply = arithmetic(Request::Reflect {
        origin,
        at,
        normal: Vector { x: b(normal.0), y: b(normal.1) },
    });
    let theta = match reply {
        Reply::Scalar(theta) => f(theta),
        _ => unreachable!(),
    };
    let v = (f(at.x) - f(origin.x), f(at.y) - f(origin.y));
    let length = (v.0 * v.0 + v.1 * v.1).sqrt();
    let before = v.0 * normal.0 + v.1 * normal.1;
    let after = length * (theta.cos() * normal.0 + theta.sin() * normal.1);
    assert!((before + after).abs() <= 1e-12);
}

#[test]
fn a_launch_along_the_axis_reaches_the_positive_vertex() {
    let path = trace(0.8, 0., 0.3, 3).unwrap();
    let a = f(path.ellipse().semi_major);
    let points = coordinates(&path);
    assert_eq!(points.len(), 4);
    assert_eq!(points[1], (a, 0.));
    assert!(points[1].0 > points[0].0);
    assert_close(points[2].0, -a);
    assert_close(points[3].0, a);
}

#[test]
fn a_launch_against_the_axis_reaches_the_negative_vertex() {
    let path = trace(0.8, PI, 0.3, 1).unwrap();
    let a = f(path.ellipse().semi_major);
    let points = coordinates(&path);
    assert_close(points[1].0, -a);
    assert!(points[1].1.abs() < 1e-12);
}

#[test]
fn a_launch_beyond_a_half_turn_goes_down() {
    let path = trace(0.8, 4., 0.3, 3).unwrap();
    let points = coordinates(&path);
    assert_close(points[1].0, -0.3449859578024478);
    assert_close(points[1].1, -0.9783427252302161);
    let path = trace(0.8, 1., 0.3, 3).unwrap();
    assert!(f(path.points()[1].y) > 0.);
}

#[test]
fn a_launch_from_the_centre_straight_up_reaches_the_co_vertex() {
    let path = trace(0.8, FRAC_PI_2, 0., 3).unwrap();
    let points = coordinates(&path);
    assert_eq!(points[0], (0., 0.));
    assert_close(points[1].1, 1.);
    assert_close(points[2].1, -1.);
    assert_close(points[3].1, 1.);
    assert!(points[1].0.abs() < 1e-12);
}

#[test]
fn the_same_inputs_give_the_same_bits() {
    let first = trace(0.8, FRAC_PI_4, 0.3, 200).unwrap();
    let second = trace(0.8, FRAC_PI_4, 0.3, 200).unwrap();
    assert_eq!(first.points(), second.points());
    assert_eq!(first.final_angle(), second.final_angle());
    assert_eq!(first.ellipse(), second.ellipse());
}

#[test]
fn a_path_has_one_point_more_than_bounces() {
    for &count in [0usize, 1, 2, 10, 50, 1000].iter() {
        let path = trace(0.8, FRAC_PI_4, 0.3, count).unwrap();
        assert_eq!(path.len(), count + 1);
        assert_eq!(path.points().len(), count + 1);
        assert_eq!(path.reflection_count(), count);
    }
}

#[test]
fn a_path_without_bounces_holds_the_launch_point_alone() {
    let path = trace(0.8, FRAC_PI_4, 0.3, 0).unwrap();
    assert_eq!(path.len(), 1);
    assert_eq!(path.launch_point(), point(0.3 * (1. / (1. - 0.8f64 * 0.8).sqrt()), 0.));
    assert_eq!(path.segment(0), None);
    assert_eq!(path.point(1), None);
    assert!(f(path.final_angle()).is_finite());
}

#[test]
fn the_decisions_agree_bit_for_bit_with_the_computation_in_one_piece() {
    for &e in [0.01, 0.5, 0.8, 0.99].iter() {
        for k in 0..=100 {
            let angle = TAU * (k as f64) / 100.;
            for &offset in [-0.99, -0.3, 0., 0.3, 0.99].iter() {
                let path = trace(e, angle, offset, 30).unwrap();
                let (points, theta) = in_one_piece(e, angle, offset, 30);
                let expected: Vec<Point> = points.iter().map(|&(x, y)| point(x, y)).collect();
                assert_eq!(path.points(), &expected, "e {} angle {} offset {}", e, angle, offset);
                assert_eq!(path.final_angle(), b(theta));
            }
        }
    }
}

#[test]
fn segments_join_consecutive_points() {
    let path = trace(0.8, FRAC_PI_4, 0.3, 5).unwrap();
    let points = path.points().clone();
    for i in 0..5 {
        let segment = path.segment(i).unwrap();
        assert_eq!(segment.start, points[i]);
        assert_eq!(segment.end, points[i + 1]);
        assert_eq!(path.point(i), Some(points[i]));
    }
    assert_eq!(path.segment(5), None);
    assert_eq!(path.point(5), Some(points[5]));
    assert_eq!(path.point(6), None);
    assert_eq!(path.launch_point(), points[0]);
}

#[test]
fn the_legs_of_a_path_are_its_segments() {
    let path = trace(0.8, FRAC_PI_4, 0.3, 5).unwrap();
    let segments = path.segments();
    assert_eq!(segments.len(), 5);
    for (i, segment) in segments.iter().enumerate() {
        assert_eq!(Some(*segment), path.segment(i));
    }
    assert_eq!(segments[0].start, path.launch_point());
    assert_eq!(segments[4].end, path.points()[5]);
    let alone = trace(0.8, FRAC_PI_4, 0.3, 0).unwrap();
    assert!(alone.segments().is_empty());
}

#[test]
fn a_computation_asks_a_bounded_number_of_blocks() {
    for &count in [0usize, 1, 7, 50].iter() {
        let asked = std::cell::Cell::new(0usize);
        let counting = |request: Request| {
            asked.set(asked.get() + 1);
            arithmetic(request)
        };
        let path = compute_trajectory(b(0.8), b(FRAC_PI_4), b(0.3), count, counting).unwrap();
        assert_eq!(path.len(), count + 1);
        assert!(asked.get() <= 7 * count + 8);
        assert!(asked.get() >= 5 * count + 6);
    }
}

#[test]
fn a_line_that_misses_the_ellipse_is_a_negative_discriminant() {
    assert_eq!(trace(0.8, FRAC_PI_2, 2., 5).err(), Some(BilliardError::NegativeDiscriminant));
}

#[test]
fn an_angle_that_is_no_number_is_a_negative_discriminant() {
    assert_eq!(trace(0.8, f64::NAN, 0.3, 5).err(), Some(BilliardError::NegativeDiscriminant));
}

#[test]
fn an_eccentricity_of_one_fails_without_a_path() {
    assert!(trace(1., FRAC_PI_4, 0.3, 5).is_err());
}

#[test]
fn a_reflection_without_a_finite_angle_fails_without_a_path() {
    let broken = |request: Request| match request {
        Request::Reflect { .. } => Reply::Scalar(b(f64::NAN)),
        other => arithmetic(other),
    };
    let r = compute_trajectory(b(0.8), b(FRAC_PI_4), b(0.3), 5, broken);
    assert_eq!(r.err(), Some(BilliardError::NonFiniteAngle));
    let unbounded = |request: Request| match request {
        Request::Reflect { .. } => Reply::Scalar(b(f64::INFINITY)),
        other => arithmetic(other),
    };
    let r = compute_trajectory(b(0.8), b(FRAC_PI_4), b(0.3), 5, unbounded);
    assert_eq!(r.err(), Some(BilliardError::NonFiniteAngle));
}

#[test]
fn a_failure_at_a_late_bounce_yields_no_points() {
    let calls = std::cell::Cell::new(0usize);
    let failing = |request: Request| match request {
        Request::Reflect { .. } => {
            calls.set(calls.get() + 1);
            if calls.get() == 4 {
                Reply::Scalar(b(f64::NAN))
            } else {
                arithmetic(request)
            }
        }
        other => arithmetic(other),
    };
    let r = compute_trajectory(b(0.8), b(FRAC_PI_4), b(0.3), 10, failing);
    assert_eq!(r.err(), Some(BilliardError::NonFiniteAngle));
    assert_eq!(calls.get(), 4);
}

#[test]
fn the_tangent_at_a_vertex_never_divides_by_the_ordinate() {
    let asked = std::cell::Cell::new(0usize);
    let watching = |request: Request| {
        if let Request::ImplicitOrdinate { at, .. } = request {
            assert!(f(at.y) != 0.);
            assert!(f(at.x) != 0.);
            asked.set(asked.get() + 1);
        }
        arithmetic(request)
    };
    let path = compute_trajectory(b(0.8), b(0.), b(0.3), 1, watching).unwrap();
    assert_eq!(f(path.points()[1].y), 0.);
    assert_eq!(asked.get(), 1);
    let straight_up = compute_trajectory(b(0.8), b(FRAC_PI_4), b(0.3), 20, watching).unwrap();
    assert_eq!(straight_up.len(), 21);
    assert_eq!(asked.get(), 22);
}

#[test]
fn the_error_messages_name_the_condition() {
    assert_eq!(
        BilliardError::NegativeDiscriminant.message(),
        "the line does not cross the ellipse in two real points"
    );
    assert_eq!(
        BilliardError::NonFiniteAngle.message(),
        "the outgoing angle is not a finite number"
    );
}
