//! Decision core of a billiard tracer inside an axis-aligned ellipse.
//!
//! A ball launched from the major axis travels in straight legs and is
//! reflected at the boundary. Every number of that computation is an IEEE 754
//! binary64 value, carried here by its bit pattern. This crate performs no
//! rounding arithmetic: it classifies and compares values, selects among the
//! roots of the intersection quadratic, picks the tangent rule, orients the
//! normal, sequences the bounces and reports the two fatal conditions. The
//! rounding arithmetic is asked of the embedding program, one
//! [`tracer::Request`] at a time.
//!
//! - [`binary64`] and [`value`]: bit patterns, their comparisons, and the
//!   exact values that the comparisons are proved to order.
//! - [`geometry`], [`inputs`] and [`error`]: the plane values, the ranges of
//!   the shape inputs, the fatal conditions.
//! - [`solver`], [`selector`] and [`reflection`]: the decisions of one leg.
//! - [`tracer`]: the step machine that sequences a computation.
//! - [`model`]: the trajectory as a function of the inputs and the
//!   arithmetic, which the machine is proved to compute.
//! - [`engine`]: [`engine::compute_trajectory`], the machine driven to its end.
//! - [`trajectory`]: the finished path.
//! - [`exact`]: the identities of plane geometry that the arithmetic rounds.

pub mod binary64;
pub mod engine;
pub mod error;
pub mod exact;
pub mod geometry;
pub mod inputs;
pub mod model;
pub mod reflection;
pub mod selector;
pub mod solver;
pub mod tracer;
pub mod trajectory;
pub mod value;
