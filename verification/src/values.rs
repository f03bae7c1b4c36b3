//! Value model for Extern fields and expression evaluation.
//!
//! Every 32-bit floating-point quantity of the engine is carried as its raw
//! IEEE-754 bit pattern (`u32`). The library never reinterprets these words;
//! arithmetic on them is delegated to the vector math crate behind trusted
//! wrappers, so lookups and stores are bit-exact by construction.

use vstd::prelude::*;

verus! {

/// A four-component vector of 32-bit float bit patterns.
#[derive(Clone, Copy, Debug, PartialEq, Eq, Structural)]
pub struct Vec4Bits {
    pub x: u32,
    pub y: u32,
    pub z: u32,
    pub w: u32,
}

/// A 4x4 matrix of 32-bit float bit patterns, stored as four row vectors.
#[derive(Clone, Copy, Debug, PartialEq, Eq, Structural)]
pub struct Mat4Bits {
    pub x_axis: Vec4Bits,
    pub y_axis: Vec4Bits,
    pub z_axis: Vec4Bits,
    pub w_axis: Vec4Bits,
}

/// The first three rows of a 4x4 matrix, as uploaded for affine transforms.
#[derive(Clone, Copy, Debug, PartialEq, Eq, Structural)]
pub struct Mat3x4Bits {
    pub x_axis: Vec4Bits,
    pub y_axis: Vec4Bits,
    pub z_axis: Vec4Bits,
}

/// Bit pattern of +1.0f32, the diagonal of an identity matrix.
pub const ONE_BITS: u32 = 0x3f80_0000;

impl Vec4Bits {
    /// The all-zero vector (bit pattern of +0.0 in every lane).
    pub fn zero() -> (r: Vec4Bits)
        ensures
            r == (Vec4Bits { x: 0u32, y: 0u32, z: 0u32, w: 0u32 }),
    {
        Vec4Bits { x: 0, y: 0, z: 0, w: 0 }
    }

    /// The same bit pattern in all four lanes.
    pub fn splat(bits: u32) -> (r: Vec4Bits)
        ensures
            r == (Vec4Bits { x: bits, y: bits, z: bits, w: bits }),
    {
        Vec4Bits { x: bits, y: bits, z: bits, w: bits }
    }
}

impl Mat4Bits {
    /// The identity matrix, as the engine's default for matrix fields.
    pub fn identity() -> (r: Mat4Bits)
        ensures
            r == spec_mat4_identity(),
    {
        Mat4Bits {
            x_axis: Vec4Bits { x: ONE_BITS, y: 0, z: 0, w: 0 },
            y_axis: Vec4Bits { x: 0, y: ONE_BITS, z: 0, w: 0 },
            z_axis: Vec4Bits { x: 0, y: 0, z: ONE_BITS, w: 0 },
            w_axis: Vec4Bits { x: 0, y: 0, z: 0, w: ONE_BITS },
        }
    }

    /// Truncates the matrix to its first three rows.
    pub fn to_3x4(&self) -> (r: Mat3x4Bits)
        ensures
            r.x_axis == self.x_axis,
            r.y_axis == self.y_axis,
            r.z_axis == self.z_axis,
    {
        Mat3x4Bits { x_axis: self.x_axis, y_axis: self.y_axis, z_axis: self.z_axis }
    }
}

pub open spec fn spec_vec4_zero() -> Vec4Bits {
    Vec4Bits { x: 0u32, y: 0u32, z: 0u32, w: 0u32 }
}

pub open spec fn spec_mat4_identity() -> Mat4Bits {
    Mat4Bits {
        x_axis: Vec4Bits { x: ONE_BITS, y: 0u32, z: 0u32, w: 0u32 },
        y_axis: Vec4Bits { x: 0u32, y: ONE_BITS, z: 0u32, w: 0u32 },
        z_axis: Vec4Bits { x: 0u32, y: 0u32, z: ONE_BITS, w: 0u32 },
        w_axis: Vec4Bits { x: 0u32, y: 0u32, z: 0u32, w: ONE_BITS },
    }
}

/// A shader-resource view slot: either absent or a raw handle word.
///
/// Resolving an absent view never yields a handle; callers that need a
/// guaranteed handle word must take the zero sentinel explicitly.
#[derive(Clone, Copy, Debug, PartialEq, Eq, Structural)]
pub enum TextureView {
    Null,
    /// Used for internal textures such as gbuffers.
    RawSRV(u64),
}

impl TextureView {
    /// The raw handle if one is present.
    pub fn view(&self) -> (r: Option<u64>)
        ensures
            r == (match *self {
                TextureView::Null => Option::<u64>::None,
                TextureView::RawSRV(v) => Option::Some(v),
            }),
    {
        match self {
            TextureView::Null => None,
            TextureView::RawSRV(v) => Some(*v),
        }
    }

    /// The raw handle, or the zero sentinel for an absent view.
    pub fn view_unchecked(&self) -> (r: u64)
        ensures
            r == (match *self {
                TextureView::Null => 0u64,
                TextureView::RawSRV(v) => v,
            }),
    {
        match self.view() {
            Some(v) => v,
            None => 0,
        }
    }
}

impl Default for TextureView {
    /// An absent view.
    fn default() -> (r: Self)
        ensures
            r == TextureView::Null,
    {
        TextureView::Null
    }
}

impl From<u64> for TextureView {
    /// Wraps a raw shader-resource-view handle word.
    fn from(v: u64) -> (r: Self)
        ensures
            r == TextureView::RawSRV(v),
    {
        TextureView::RawSRV(v)
    }
}

impl vstd::std_specs::convert::FromSpecImpl<u64> for TextureView {
    open spec fn obeys_from_spec() -> bool {
        true
    }

    open spec fn from_spec(v: u64) -> Self {
        TextureView::RawSRV(v)
    }
}

/// The semantic type registered for an Extern field.
#[derive(Clone, Copy, Debug, PartialEq, Eq, Structural)]
pub enum FieldType {
    Float,
    Vec4,
    Mat4,
    U64,
    Texture,
}

/// A field value carried out of an Extern block, tagged with its type.
#[derive(Clone, Copy, Debug, PartialEq, Eq, Structural)]
pub enum FieldValue {
    Float(u32),
    Vec4(Vec4Bits),
    Mat4(Mat4Bits),
    U64(u64),
    Texture(TextureView),
}

impl FieldValue {
    /// The semantic type this value carries.
    pub fn field_type(&self) -> (r: FieldType)
        ensures
            r == spec_value_type(*self),
    {
        match self {
            FieldValue::Float(_) => FieldType::Float,
            FieldValue::Vec4(_) => FieldType::Vec4,
            FieldValue::Mat4(_) => FieldType::Mat4,
            FieldValue::U64(_) => FieldType::U64,
            FieldValue::Texture(_) => FieldType::Texture,
        }
    }
}

pub open spec fn spec_value_type(v: FieldValue) -> FieldType {
    match v {
        FieldValue::Float(_) => FieldType::Float,
        FieldValue::Vec4(_) => FieldType::Vec4,
        FieldValue::Mat4(_) => FieldType::Mat4,
        FieldValue::U64(_) => FieldType::U64,
        FieldValue::Texture(_) => FieldType::Texture,
    }
}

/// The zero/default value substituted when a lookup of the given type fails.
pub open spec fn spec_default_value(t: FieldType) -> FieldValue {
    match t {
        FieldType::Float => FieldValue::Float(0u32),
        FieldType::Vec4 => FieldValue::Vec4(spec_vec4_zero()),
        FieldType::Mat4 => FieldValue::Mat4(spec_mat4_identity()),
        FieldType::U64 => FieldValue::U64(0u64),
        FieldType::Texture => FieldValue::Texture(TextureView::Null),
    }
}

/// Builds the default value for a field type: zero scalars and vectors, the
/// identity matrix, and an absent texture view.
pub fn default_value(t: FieldType) -> (r: FieldValue)
    ensures
        r == spec_default_value(t),
{
    match t {
        FieldType::Float => FieldValue::Float(0),
        FieldType::Vec4 => FieldValue::Vec4(Vec4Bits::zero()),
        FieldType::Mat4 => FieldValue::Mat4(Mat4Bits::identity()),
        FieldType::U64 => FieldValue::U64(0),
        FieldType::Texture => FieldValue::Texture(TextureView::Null),
    }
}

} // verus!
