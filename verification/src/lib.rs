//! Core of a 2-D platformer physics and motion-state subsystem: a swept
//! collision resolver that corrects an intended displacement against static
//! line-segment colliders, a fixed-tick physics integrator with a clamped
//! gravity step, and a hierarchical state machine for the player's motion
//! mode. Coordinates are exact signed integers in simulation units, so all
//! geometry is computed and specified exactly.

pub mod collider;
pub mod events;
pub mod physics;
pub mod player;
pub mod vector;
