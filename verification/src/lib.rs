//! A fixed-timestep, source-engine-style kinematic movement core.
//!
//! The crate models the per-tick player-movement pipeline of a first-person
//! controller: pointer-delta aggregation into view angles, derivation of a
//! movement-intent vector from pressed actions, and velocity integration with
//! ground friction, capped ground/air acceleration, a sprint multiplier and a
//! jump override.
//!
//! All quantities are fixed-point numbers: an `i64` counts millionths of a
//! unit (see [`fx::SCALE`]). Rendering, windowing, raw input events and the
//! collision sweep itself are external collaborators; they hand this crate
//! plain values (pointer deltas, pressed actions, the effective translation
//! and grounded flag of the previous tick) and take plain values back.

pub mod controller;
pub mod fx;
pub mod laws;
pub mod player;
pub mod vec3;
