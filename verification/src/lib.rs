//! Binding layer between a set of game entities (walls, players, bombs) and a
//! 2D rigid-body simulation: identity management for handle-based engine
//! objects, coordinate-frame translation between the engine's Y-up convention
//! and the external Y-down protocol, descriptor validation, and a full-replace
//! snapshot protocol that is leak-free and idempotent.
//!
//! Scalar quantities crossing the boundary are IEEE 754 single-precision
//! values carried by their bit patterns, so that the frame conversion (a sign
//! flip) and the validity checks (finiteness, positivity) are exact.

pub mod frame;
pub mod laws;
pub mod scalar;
pub mod types;
pub mod world;
