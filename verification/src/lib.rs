//! A Monte Carlo path tracer over fixed-point arithmetic.
//!
//! The renderer casts one ray per pixel sample from a camera through a
//! viewport, finds the closest intersection with the scene's objects,
//! lets the hit object's material scatter or absorb the ray, and
//! accumulates color recursively up to a bounce limit. All arithmetic
//! runs over saturating fixed-point scalars, so a render is a pure
//! function of its configuration and seed, and every function's result
//! is pinned to a spec-level model of the same computation. The laws the
//! renderer obeys — termination at the bounce limit, sky on a miss,
//! closest-hit selection, energy non-explosion, gamma encoding, and
//! row-major pixel emission — are proved in `props`.

pub mod camera;
pub mod color;
pub mod fp;
pub mod hittable;
pub mod material;
pub mod objects;
pub mod props;
pub mod ray;
pub mod sampler;
pub mod scene;
pub mod vec3;
