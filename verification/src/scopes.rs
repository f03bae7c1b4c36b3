//! Constant-buffer scope layouts.
//!
//! These are the images written into GPU-visible constant memory for a view,
//! a static-instance batch, or an entity model. As everywhere in this crate,
//! 32-bit float quantities are carried as raw bit patterns; affine
//! transforms travel truncated to three rows (see `Mat4Bits::to_3x4`).

use vstd::prelude::*;

use crate::values::{Mat3x4Bits, Mat4Bits, Vec4Bits};

verus! {

/// Per-view scope: projection and camera transforms plus miscellany.
#[derive(Clone, Copy, Debug, PartialEq, Eq, Structural)]
pub struct ScopeView {
    pub world_to_projective: Mat4Bits,
    pub camera_to_world: Mat4Bits,
    pub unk8: Vec4Bits,
    pub unk9: Vec4Bits,
    pub unk10: Vec4Bits,
    pub unk11: Vec4Bits,
    pub unk12: Vec4Bits,
    pub view_miscellaneous: Vec4Bits,
}

/// Per-instance scope for statics: transform and texture-coordinate scale.
#[derive(Clone, Copy, Debug, PartialEq, Eq, Structural)]
pub struct ScopeStaticInstance {
    pub mesh_to_world: Mat3x4Bits,
    pub texcoord_transform: Vec4Bits,
}

/// Per-draw scope for entity models.
#[derive(Clone, Copy, Debug, PartialEq, Eq, Structural)]
pub struct ScopeEntityModel {
    pub mesh_to_world: Mat3x4Bits,
    pub unk3: Vec4Bits,
    pub unk4: Vec4Bits,
    pub unk5: Vec4Bits,
    pub texcoord_transform: Vec4Bits,
    pub unk7: Vec4Bits,
}

} // verus!
