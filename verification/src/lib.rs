//! An offline path tracer whose core — fixed-point vector geometry, bounding
//! boxes, hittable surfaces, a bounding-volume hierarchy, materials, sampling
//! strategies and the recursive Monte-Carlo integrator — is verified.
//!
//! All scalar quantities are fixed-point numbers: an `i64` holding the value
//! times [`fx::FX_ONE`]. Arithmetic saturates at [`fx::FX_INF`], which plays
//! the role of infinity, so every numeric operation is total and every
//! degenerate input (a zero ray-direction component, a vanishing density)
//! resolves to a well-defined value rather than a crash.

pub mod fx;
pub mod rng;
pub mod vec3;
pub mod ray;
pub mod aabb;
pub mod hittable;
pub mod onb;
pub mod sphere;
pub mod aarec;
pub mod object;
pub mod bvh;
pub mod perlin;
pub mod texture;
pub mod materia;
pub mod pdf;
pub mod camera;
pub mod integrator;

pub use fx::FX_ONE;
pub use fx::FX_INF;
