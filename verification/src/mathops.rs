//! Component-wise vector arithmetic, delegated to the vector math crate.
//!
//! The results of single-precision arithmetic cannot be written out here, so
//! each operation's per-lane result is given a name, and the wrappers state
//! that the crate's component-wise operators compute that name lane by lane.
//! Lanes cross the boundary as raw bit patterns.

use vstd::prelude::*;

use crate::values::Vec4Bits;

verus! {

/// The bit pattern of the single-precision sum of two bit patterns.
pub uninterp spec fn f32_add_bits(a: u32, b: u32) -> u32;

/// The bit pattern of the single-precision difference of two bit patterns.
pub uninterp spec fn f32_sub_bits(a: u32, b: u32) -> u32;

/// The bit pattern of the single-precision product of two bit patterns.
pub uninterp spec fn f32_mul_bits(a: u32, b: u32) -> u32;

/// The component-wise sum of two vectors of bit patterns.
pub open spec fn spec_vec4_add(a: Vec4Bits, b: Vec4Bits) -> Vec4Bits {
    Vec4Bits {
        x: f32_add_bits(a.x, b.x),
        y: f32_add_bits(a.y, b.y),
        z: f32_add_bits(a.z, b.z),
        w: f32_add_bits(a.w, b.w),
    }
}

/// The component-wise difference of two vectors of bit patterns.
pub open spec fn spec_vec4_sub(a: Vec4Bits, b: Vec4Bits) -> Vec4Bits {
    Vec4Bits {
        x: f32_sub_bits(a.x, b.x),
        y: f32_sub_bits(a.y, b.y),
        z: f32_sub_bits(a.z, b.z),
        w: f32_sub_bits(a.w, b.w),
    }
}

/// The component-wise product of two vectors of bit patterns.
pub open spec fn spec_vec4_mul(a: Vec4Bits, b: Vec4Bits) -> Vec4Bits {
    Vec4Bits {
        x: f32_mul_bits(a.x, b.x),
        y: f32_mul_bits(a.y, b.y),
        z: f32_mul_bits(a.z, b.z),
        w: f32_mul_bits(a.w, b.w),
    }
}

/// Relies on glam::Vec4's `+` operator: component-wise single-precision
/// addition. Lanes are moved as raw bit patterns via bytemuck casts.
#[verifier::external_body]
pub(crate) fn vec4_add_bits(a: Vec4Bits, b: Vec4Bits) -> (r: Vec4Bits)
    ensures
        r.x == f32_add_bits(a.x, b.x),
        r.y == f32_add_bits(a.y, b.y),
        r.z == f32_add_bits(a.z, b.z),
        r.w == f32_add_bits(a.w, b.w),
{
    let va: glam::Vec4 = bytemuck::cast([a.x, a.y, a.z, a.w]);
    let vb: glam::Vec4 = bytemuck::cast([b.x, b.y, b.z, b.w]);
    let s: [u32; 4] = bytemuck::cast(va + vb);
    Vec4Bits { x: s[0], y: s[1], z: s[2], w: s[3] }
}

/// Relies on glam::Vec4's `-` operator: component-wise single-precision
/// subtraction. Lanes are moved as raw bit patterns via bytemuck casts.
#[verifier::external_body]
pub(crate) fn vec4_sub_bits(a: Vec4Bits, b: Vec4Bits) -> (r: Vec4Bits)
    ensures
        r.x == f32_sub_bits(a.x, b.x),
        r.y == f32_sub_bits(a.y, b.y),
        r.z == f32_sub_bits(a.z, b.z),
        r.w == f32_sub_bits(a.w, b.w),
{
    let va: glam::Vec4 = bytemuck::cast([a.x, a.y, a.z, a.w]);
    let vb: glam::Vec4 = bytemuck::cast([b.x, b.y, b.z, b.w]);
    let s: [u32; 4] = bytemuck::cast(va - vb);
    Vec4Bits { x: s[0], y: s[1], z: s[2], w: s[3] }
}

/// Relies on glam::Vec4's `*` operator: component-wise single-precision
/// multiplication. Lanes are moved as raw bit patterns via bytemuck casts.
#[verifier::external_body]
pub(crate) fn vec4_mul_bits(a: Vec4Bits, b: Vec4Bits) -> (r: Vec4Bits)
    ensures
        r.x == f32_mul_bits(a.x, b.x),
        r.y == f32_mul_bits(a.y, b.y),
        r.z == f32_mul_bits(a.z, b.z),
        r.w == f32_mul_bits(a.w, b.w),
{
    let va: glam::Vec4 = bytemuck::cast([a.x, a.y, a.z, a.w]);
    let vb: glam::Vec4 = bytemuck::cast([b.x, b.y, b.z, b.w]);
    let s: [u32; 4] = bytemuck::cast(va * vb);
    Vec4Bits { x: s[0], y: s[1], z: s[2], w: s[3] }
}

/// The scalar sum, computed in lane x of the vector unit.
pub(crate) fn scalar_add_bits(a: u32, b: u32) -> (r: u32)
    ensures
        r == f32_add_bits(a, b),
{
    vec4_add_bits(Vec4Bits::splat(a), Vec4Bits::splat(b)).x
}

/// The scalar difference, computed in lane x of the vector unit.
pub(crate) fn scalar_sub_bits(a: u32, b: u32) -> (r: u32)
    ensures
        r == f32_sub_bits(a, b),
{
    vec4_sub_bits(Vec4Bits::splat(a), Vec4Bits::splat(b)).x
}

/// The scalar product, computed in lane x of the vector unit.
pub(crate) fn scalar_mul_bits(a: u32, b: u32) -> (r: u32)
    ensures
        r == f32_mul_bits(a, b),
{
    vec4_mul_bits(Vec4Bits::splat(a), Vec4Bits::splat(b)).x
}

} // verus!
