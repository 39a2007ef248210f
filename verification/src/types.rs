//! Shared value types of the binding layer: vectors, entity descriptors,
//! snapshots, and the error surface.
//!
//! All scalar fields are external-frame IEEE 754 single-precision values
//! carried by their bit patterns (see [`crate::scalar`]). Descriptor and
//! view types share one shape, as the protocol's payloads do.

use vstd::prelude::*;

use crate::scalar::{spec_is_finite, spec_is_pos, Scalar};

verus! {

/// A 2D vector: an (x, y) pair of single-precision scalars.
#[derive(Clone, Copy, PartialEq, Eq, Structural, Debug)]
pub struct JsVec {
    pub x: Scalar,
    pub y: Scalar,
}

/// A position, rotation and linear velocity, in one frame (either the
/// engine's or the external protocol's).
#[derive(Clone, Copy, PartialEq, Eq, Structural, Debug)]
pub struct Pose {
    pub pos: JsVec,
    pub rot: Scalar,
    pub vel: JsVec,
}

/// Wall descriptor: center position, rotation, width and height. Walls are
/// ephemeral descriptors — the session retains no handle to a created wall.
#[derive(Clone, Copy, PartialEq, Eq, Structural, Debug)]
pub struct JsWall {
    pub pos: JsVec,
    pub rot: Scalar,
    pub w: Scalar,
    pub h: Scalar,
}

/// Player descriptor and view: identity, team, pose, velocity and radius.
/// Position, rotation and velocity are in the external (Y-down) frame.
#[derive(Clone, Debug, PartialEq, Eq)]
pub struct JsPlayer {
    pub id: String,
    pub team: String,
    pub pos: JsVec,
    pub rot: Scalar,
    pub vel: JsVec,
    pub r: Scalar,
}

/// Bomb descriptor and view: same shape as a player's.
#[derive(Clone, Debug, PartialEq, Eq)]
pub struct JsBomb {
    pub id: String,
    pub team: String,
    pub pos: JsVec,
    pub rot: Scalar,
    pub vel: JsVec,
    pub r: Scalar,
}

/// A full snapshot of the dynamic entity population: every player and every
/// bomb (walls are excluded by design).
#[derive(Clone, Debug)]
pub struct JsWorld {
    pub players: Vec<JsPlayer>,
    pub bombs: Vec<JsBomb>,
}

/// The recoverable failures of the binding layer.
#[derive(Clone, Debug, PartialEq, Eq)]
pub enum WorldError {
    /// An operation addressed an id absent from the relevant registry.
    NotFound(String),
    /// An add operation was given an id already present in the same-kind
    /// registry.
    DuplicateId(String),
    /// A descriptor carried a non-finite value or a non-positive radius,
    /// width or height.
    InvalidDescriptor,
}

/// Both components of a vector are finite.
pub open spec fn vec_finite(v: JsVec) -> bool {
    spec_is_finite(v.x.bits) && spec_is_finite(v.y.bits)
}

/// All three parts of a pose are finite.
pub open spec fn pose_finite(p: Pose) -> bool {
    vec_finite(p.pos) && spec_is_finite(p.rot.bits) && vec_finite(p.vel)
}

/// A wall descriptor is valid when its pose is finite and its width and
/// height are finite and strictly positive.
pub open spec fn wall_valid(w: JsWall) -> bool {
    vec_finite(w.pos) && spec_is_finite(w.rot.bits) && spec_is_pos(w.w.bits)
        && spec_is_pos(w.h.bits)
}

/// A player descriptor is valid when its pose and velocity are finite and
/// its radius is finite and strictly positive.
pub open spec fn player_valid(p: JsPlayer) -> bool {
    vec_finite(p.pos) && spec_is_finite(p.rot.bits) && vec_finite(p.vel)
        && spec_is_pos(p.r.bits)
}

/// A bomb descriptor is valid under the same conditions as a player's.
pub open spec fn bomb_valid(b: JsBomb) -> bool {
    vec_finite(b.pos) && spec_is_finite(b.rot.bits) && vec_finite(b.vel)
        && spec_is_pos(b.r.bits)
}

/// Checks both components of a vector for finiteness.
pub fn check_vec_finite(v: JsVec) -> (r: bool)
    ensures
        r == vec_finite(v),
{
    v.x.is_finite() && v.y.is_finite()
}

/// Checks a wall descriptor for validity.
pub fn check_wall_valid(w: &JsWall) -> (r: bool)
    ensures
        r == wall_valid(*w),
{
    check_vec_finite(w.pos) && w.rot.is_finite() && w.w.is_pos() && w.h.is_pos()
}

/// Checks a player descriptor for validity.
pub fn check_player_valid(p: &JsPlayer) -> (r: bool)
    ensures
        r == player_valid(*p),
{
    check_vec_finite(p.pos) && p.rot.is_finite() && check_vec_finite(p.vel) && p.r.is_pos()
}

/// Checks a bomb descriptor for validity.
pub fn check_bomb_valid(b: &JsBomb) -> (r: bool)
    ensures
        r == bomb_valid(*b),
{
    check_vec_finite(b.pos) && b.rot.is_finite() && check_vec_finite(b.vel) && b.r.is_pos()
}

} // verus!
