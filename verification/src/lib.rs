//! Verified game logic of a set of PlayStation tutorial programs: fixed-point
//! movement, controller-driven state machines, the BIOS random number
//! generator, and the packing of geometry for the geometry transformation
//! engine.

pub mod fixed;
pub mod pad;
pub mod ship;
pub mod geometry;
pub mod sprite;
pub mod gte;
pub mod primdraw;
pub mod rng;
pub mod rotation;
