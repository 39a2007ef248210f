//! Coordinate adapter between the external protocol's frame (Y increases
//! downward, clockwise-positive rotation) and the engine's frame (Y increases
//! upward, counter-clockwise-positive rotation).
//!
//! The conversion negates the Y component of position and velocity and
//! negates the rotation. On IEEE 754 values negation is exactly a sign-bit
//! flip, so the adapter is stateless, exact, and its own inverse.

use vstd::prelude::*;

use crate::scalar::{lemma_neg_involution, lemma_neg_keeps_finite, spec_neg, Scalar};
use crate::types::{vec_finite, JsVec, Pose};

verus! {

/// The frame flip of a vector: X kept, Y negated.
pub open spec fn spec_flip_vec(v: JsVec) -> JsVec {
    JsVec { x: v.x, y: Scalar { bits: spec_neg(v.y.bits) } }
}

/// The frame flip of a rotation: the angle negated.
pub open spec fn spec_flip_rot(r: Scalar) -> Scalar {
    Scalar { bits: spec_neg(r.bits) }
}

/// The frame flip of a whole pose: position Y, rotation, and velocity Y
/// negated.
pub open spec fn spec_flip_pose(p: Pose) -> Pose {
    Pose { pos: spec_flip_vec(p.pos), rot: spec_flip_rot(p.rot), vel: spec_flip_vec(p.vel) }
}

/// Converts a vector into the other frame.
pub fn flip_vec(v: JsVec) -> (r: JsVec)
    ensures
        r == spec_flip_vec(v),
{
    JsVec { x: v.x, y: v.y.neg() }
}

/// Converts a rotation into the other frame.
pub fn flip_rot(r: Scalar) -> (res: Scalar)
    ensures
        res == spec_flip_rot(r),
{
    r.neg()
}

/// Converts an external-frame pose into the engine's frame.
pub fn to_engine(p: Pose) -> (r: Pose)
    ensures
        r == spec_flip_pose(p),
{
    Pose { pos: flip_vec(p.pos), rot: flip_rot(p.rot), vel: flip_vec(p.vel) }
}

/// Converts an engine-frame pose into the external frame.
pub fn to_external(p: Pose) -> (r: Pose)
    ensures
        r == spec_flip_pose(p),
{
    Pose { pos: flip_vec(p.pos), rot: flip_rot(p.rot), vel: flip_vec(p.vel) }
}

/// The frame flip keeps a vector's finiteness either way: only the sign bit
/// moves.
pub proof fn lemma_flip_vec_finite(v: JsVec)
    ensures
        vec_finite(spec_flip_vec(v)) == vec_finite(v),
{
    lemma_neg_keeps_finite(v.y.bits);
}

/// Coordinate round-trip: converting any pose to the engine's frame and back
/// restores it exactly — bit for bit, with no floating-point tolerance
/// needed, since each direction only flips sign bits.
pub proof fn lemma_frame_round_trip(p: Pose)
    ensures
        spec_flip_pose(spec_flip_pose(p)) == p,
{
    lemma_neg_involution(p.pos.y.bits);
    lemma_neg_involution(p.rot.bits);
    lemma_neg_involution(p.vel.y.bits);
}

} // verus!
