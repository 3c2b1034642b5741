//! A smoothed-particle-hydrodynamics fluid solver in two dimensions, carried
//! out in saturating fixed-point arithmetic so that every step is a total,
//! deterministic function of the state and the random draws handed to it.

pub mod fixed;
pub mod root;
pub mod vec2;
pub mod params;
pub mod kernel;
pub mod particle;
pub mod rng;
pub mod density;
pub mod forces;
pub mod motion;
pub mod packing;
pub mod stage;
pub mod solver;
pub mod laws;
