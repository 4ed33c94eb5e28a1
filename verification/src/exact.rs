//! The identities of plane geometry that the requested arithmetic rounds,
//! proved in exact integer arithmetic.
//!
//! Nothing here rounds. Each statement is freed of its divisions by scaling,
//! so that it holds of integers: the ellipse `x²/a² + y²/b² = 1` is written
//! `B·x² + A·y² = A·B` with `A = a²` and `B = b²`.

use vstd::prelude::*;

verus! {

/// The point lies on the ellipse of squared semi-axes `aa` and `bb`.
pub open spec fn on_ellipse(aa: int, bb: int, x: int, y: int) -> bool {
    bb * (x * x) + aa * (y * y) == aa * bb
}

/// The dot product of two plane vectors.
pub open spec fn dot(ax: int, ay: int, bx: int, by: int) -> int {
    ax * bx + ay * by
}

/// The reflection of `v` about the line across `n`, times `n·n`:
/// `(n·n)·v − 2(v·n)·n`. With a unit normal this is `v − 2(v·n)n`.
pub open spec fn reflected(vx: int, vy: int, nx: int, ny: int) -> (int, int) {
    let q = dot(nx, ny, nx, ny);
    let d = dot(vx, vy, nx, ny);
    (q * vx - 2 * d * nx, q * vy - 2 * d * ny)
}

/// The second crossing of the line through `(x, y)` along `(dx, dy)` with the
/// ellipse, times `B·dx² + A·dy²`.
pub open spec fn chord_end(aa: int, bb: int, x: int, y: int, dx: int, dy: int) -> (int, int) {
    let alpha = bb * (dx * dx) + aa * (dy * dy);
    let beta = bb * (x * dx) + aa * (y * dy);
    (alpha * x - 2 * beta * dx, alpha * y - 2 * beta * dy)
}

/// `(s·a − 2·t·b)·c = s·(a·c) − 2·t·(b·c)`.
proof fn lemma_combination_times(s: int, a: int, t: int, b: int, c: int)
    ensures
        (s * a - 2 * t * b) * c == s * (a * c) - 2 * (t * (b * c)),
{
    assert((s * a - 2 * t * b) * c == (s * a) * c - (2 * t * b) * c) by (nonlinear_arith);
    assert((s * a) * c == s * (a * c)) by (nonlinear_arith);
    assert((2 * t * b) * c == 2 * (t * (b * c))) by (nonlinear_arith);
}

/// `(s·a − 2·t·b)² = s²·a² − 4·(s·t)·(a·b) + 4·t²·b²`.
proof fn lemma_combination_squared(s: int, a: int, t: int, b: int)
    ensures
        (s * a - 2 * t * b) * (s * a - 2 * t * b) == (s * s) * (a * a) - 4 * ((s * t) * (a * b)) + 4
            * ((t * t) * (b * b)),
{
    let p = s * a;
    let r = t * b;
    assert(2 * t * b == 2 * r) by (nonlinear_arith)
        requires
            r == t * b,
    ;
    assert((p - 2 * r) * (p - 2 * r) == p * p - 4 * (p * r) + 4 * (r * r)) by (nonlinear_arith);
    assert(p * p == (s * s) * (a * a)) by (nonlinear_arith)
        requires
            p == s * a,
    ;
    assert(r * r == (t * t) * (b * b)) by (nonlinear_arith)
        requires
            r == t * b,
    ;
    assert(p * r == (s * t) * (a * b)) by (nonlinear_arith)
        requires
            p == s * a,
            r == t * b,
    ;
}

/// `w·(S·a2 − 4·(P·ab) + 4·(T·b2)) = S·(w·a2) − 4·(P·(w·ab)) + 4·(T·(w·b2))`.
proof fn lemma_weighted(w: int, ss: int, a2: int, pp: int, ab: int, tt: int, b2: int)
    ensures
        w * (ss * a2 - 4 * (pp * ab) + 4 * (tt * b2)) == ss * (w * a2) - 4 * (pp * (w * ab)) + 4 * (
        tt * (w * b2)),
{
    let u = ss * a2;
    let v = pp * ab;
    let z = tt * b2;
    assert(w * (u - 4 * v + 4 * z) == w * u - 4 * (w * v) + 4 * (w * z)) by (nonlinear_arith);
    assert(w * u == ss * (w * a2)) by (nonlinear_arith)
        requires
            u == ss * a2,
    ;
    assert(w * v == pp * (w * ab)) by (nonlinear_arith)
        requires
            v == pp * ab,
    ;
    assert(w * z == tt * (w * b2)) by (nonlinear_arith)
        requires
            z == tt * b2,
    ;
}

/// `s·a + s·b = s·(a + b)`.
proof fn lemma_factor(s: int, a: int, b: int)
    ensures
        s * a + s * b == s * (a + b),
{
    assert(s * a + s * b == s * (a + b)) by (nonlinear_arith);
}

/// The law of reflection: the reflected vector has the opposite component
/// along the normal, `v'·n = −v·n`, and the same length.
pub proof fn lemma_reflection_law(vx: int, vy: int, nx: int, ny: int)
    ensures
        ({
            let q = dot(nx, ny, nx, ny);
            let (wx, wy) = reflected(vx, vy, nx, ny);
            &&& dot(wx, wy, nx, ny) == -(q * dot(vx, vy, nx, ny))
            &&& dot(wx, wy, wx, wy) == (q * q) * dot(vx, vy, vx, vy)
        }),
{
    let q = nx * nx + ny * ny;
    let d = vx * nx + vy * ny;
    lemma_combination_times(q, vx, d, nx, nx);
    lemma_combination_times(q, vy, d, ny, ny);
    lemma_factor(q, vx * nx, vy * ny);
    lemma_factor(d, nx * nx, ny * ny);
    assert(d * q == q * d) by (nonlinear_arith);
    lemma_combination_squared(q, vx, d, nx);
    lemma_combination_squared(q, vy, d, ny);
    lemma_factor(q * q, vx * vx, vy * vy);
    lemma_factor(q * d, vx * nx, vy * ny);
    lemma_factor(d * d, nx * nx, ny * ny);
    assert((q * d) * d == (d * d) * q) by (nonlinear_arith);
}

/// A tangential component is kept by the reflection: along any `t` with
/// `t·n = 0`, `v'·t = v·t`.
pub proof fn lemma_reflection_keeps_tangential_part(
    vx: int,
    vy: int,
    nx: int,
    ny: int,
    tx: int,
    ty: int,
)
    requires
        dot(nx, ny, tx, ty) == 0,
    ensures
        ({
            let (wx, wy) = reflected(vx, vy, nx, ny);
            dot(wx, wy, tx, ty) == dot(nx, ny, nx, ny) * dot(vx, vy, tx, ty)
        }),
{
    let q = nx * nx + ny * ny;
    let d = vx * nx + vy * ny;
    lemma_combination_times(q, vx, d, nx, tx);
    lemma_combination_times(q, vy, d, ny, ty);
    lemma_factor(q, vx * tx, vy * ty);
    lemma_factor(d, nx * tx, ny * ty);
    assert(d * 0 == 0) by (nonlinear_arith);
}

/// At a boundary point off the x-axis the implicit tangent `(x, y − b²/y)`,
/// here times `y`, is perpendicular to the gradient `(x/a², y/b²)` of the
/// ellipse, here times `a²b²`: it is tangent to the boundary.
pub proof fn lemma_implicit_tangent_is_tangent(aa: int, bb: int, x: int, y: int)
    requires
        on_ellipse(aa, bb, x, y),
    ensures
        dot(x * y, y * y - bb, bb * x, aa * y) == 0,
{
    let xx = x * x;
    let yy = y * y;
    assert((x * y) * (bb * x) == y * (bb * xx)) by (nonlinear_arith)
        requires
            xx == x * x,
    ;
    assert((yy - bb) * (aa * y) == y * (aa * yy) - y * (aa * bb)) by (nonlinear_arith);
    assert(y * (bb * xx) + y * (aa * yy) - y * (aa * bb) == y * (bb * xx + aa * yy - aa * bb))
        by (nonlinear_arith);
    assert(y * 0 == 0) by (nonlinear_arith);
}

/// At the vertices the fixed tangents are tangent too: `(0, 1)` is
/// perpendicular to the gradient where `y = 0`, and `(1, 0)` where `x = 0`.
pub proof fn lemma_fixed_tangents_are_tangent(aa: int, bb: int, x: int, y: int)
    ensures
        y == 0 ==> dot(0, 1, bb * x, aa * y) == 0,
        x == 0 ==> dot(1, 0, bb * x, aa * y) == 0,
{
    assert(y == 0 ==> aa * y == 0) by (nonlinear_arith);
    assert(x == 0 ==> bb * x == 0) by (nonlinear_arith);
}

/// Boundary membership passes from hit to hit: the second crossing of a line
/// through a boundary point lies on the boundary.
pub proof fn lemma_chord_ends_on_boundary(aa: int, bb: int, x: int, y: int, dx: int, dy: int)
    requires
        on_ellipse(aa, bb, x, y),
    ensures
        ({
            let alpha = bb * (dx * dx) + aa * (dy * dy);
            let (ex, ey) = chord_end(aa, bb, x, y, dx, dy);
            bb * (ex * ex) + aa * (ey * ey) == (alpha * alpha) * (aa * bb)
        }),
{
    let alpha = bb * (dx * dx) + aa * (dy * dy);
    let beta = bb * (x * dx) + aa * (y * dy);
    lemma_combination_squared(alpha, x, beta, dx);
    lemma_combination_squared(alpha, y, beta, dy);
    lemma_weighted(bb, alpha * alpha, x * x, alpha * beta, x * dx, beta * beta, dx * dx);
    lemma_weighted(aa, alpha * alpha, y * y, alpha * beta, y * dy, beta * beta, dy * dy);
    lemma_factor(alpha * alpha, bb * (x * x), aa * (y * y));
    lemma_factor(alpha * beta, bb * (x * dx), aa * (y * dy));
    lemma_factor(beta * beta, bb * (dx * dx), aa * (dy * dy));
    assert((alpha * beta) * beta == (beta * beta) * alpha) by (nonlinear_arith);
}

} // verus!
