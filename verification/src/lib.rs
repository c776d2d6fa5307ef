//! The decision core of a Monte Carlo path tracer for scenes of spheres.
//!
//! Every rule of the renderer that is not arithmetic on real numbers lives
//! here, with a contract that pins it down:
//!
//! - [`scalar`]: numbers as IEEE-754 bit patterns, and their order;
//! - [`hittables`]: which root of a ray/sphere quadratic counts as the hit,
//!   and which member of a scene is hit first;
//! - [`materials`]: when a material scatters or absorbs, how much light
//!   survives, and whether glass mirrors or bends a ray;
//! - [`utils`]: which candidates the unit-ball sampler accepts;
//! - [`integrator`]: when a light path goes on and when it ends;
//! - [`generators`]: how the demonstration scene is laid out;
//! - [`config`]: which render parameters are valid;
//! - [`film`]: where a pixel lands in the output buffer, and the loop that
//!   fills it.
//!
//! Numbers are only ever stored, passed on and compared here. Whoever uses
//! the library does the arithmetic (the roots of the quadratic, mirrored
//! and bent directions, products of colours) and hands in the results.
pub mod scalar;
pub mod materials;
pub mod hittables;
pub mod generators;
pub mod utils;
pub mod integrator;
pub mod film;
pub mod config;
