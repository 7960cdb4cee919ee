//! A verified two-player bounce simulation: a ball, two paddles and two walls
//! inside a rectangular court, advanced by a fixed time step.
//!
//! All coordinates, velocities and the time step are exact rational numbers
//! (`rational::Frac`), so every tick is reproducible and every contract is
//! stated over exact values. A tick whose exact result would not fit the
//! fraction type's range reports failure and leaves the world unchanged.

pub mod geom;
pub mod laws;
pub mod rational;
pub mod step;
pub mod world;
