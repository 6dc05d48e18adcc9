//! Verified integer core of a spectral path tracer.
//!
//! The renderer around this library drives camera rays through a scene and
//! shades hit points with floating-point arithmetic; everything it decides
//! with integers and booleans lives here, with contracts: the PCG32
//! pseudo-random generator that every sampler draws from, the stratified
//! sampler's per-pixel bookkeeping, the hash mix behind the stochastic alpha
//! test, bit-level stepping to adjacent floats for interval arithmetic, the
//! Perlin permutation tables and lattice hash, triangle-mesh index topology,
//! and the bounce-by-bounce state machine of the path-tracing loop.

pub mod floatbits;
pub mod hashing;
pub mod mesh;
pub mod noise;
pub mod path;
pub mod rng;
pub mod sampler;
