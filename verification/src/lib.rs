//! The exact core of a Monte Carlo path tracer.
//!
//! A path tracer computes in floating point and decides in between: which
//! root of a ray/sphere quadratic counts as a hit, which surface of a scene
//! is nearest, how a normal is turned to face the incoming ray, when a
//! material absorbs, reflects or refracts, when a path runs out of bounces,
//! and how a finished colour becomes the three integers of a plain-text
//! image. This crate holds the decisions, and the loops and the recursion
//! that string them together.
//!
//! Scalars are carried as IEEE-754 binary64 bit patterns, with their exact
//! numeric meaning. Comparison, negation and absolute value are decided on
//! the bits. The rounded arithmetic that produces the scalars is the
//! caller's business: it comes in as finished values, or as functions that
//! the crate calls when their answer is needed.
pub mod color;
pub mod dielectric;
pub mod hittable;
pub mod hittable_list;
pub mod integrator;
pub mod lambertian;
pub mod material;
pub mod metal;
pub mod ray;
pub mod sampler;
pub mod scalar;
pub mod sphere;
pub mod util;
pub mod vec3;
