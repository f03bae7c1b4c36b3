//! The Extern blocks with registered layouts.
//!
//! Each block is a fixed-layout value type whose fields live at known byte
//! offsets. The engine's layouts are written down as explicit per-offset
//! tables: a layout spec gives the registered type and the unbacked flag for
//! every offset, and `get_field` is proven to classify lookups against it.
//! All 32-bit float quantities are held as raw bit patterns.

use vstd::prelude::*;

use crate::fields::{classify, Extern, ExternValue, FieldSlot};
use crate::values::{
    spec_mat4_identity, spec_value_type, spec_vec4_zero, FieldType, FieldValue, Mat4Bits,
    TextureView, Vec4Bits,
};

verus! {

/// The "frame" block: Per-frame timing and lookup-texture state.
#[derive(Clone, Copy, Debug)]
pub struct Frame {
    pub unk00: u32,
    pub unk04: u32,
    pub unk0c: u32,
    pub unk10: u32,
    pub unk14: u32,
    pub unk1c: u32,
    pub unk20: u32,
    pub unk24: u32,
    pub unk28: u32,
    pub unk2c: u32,
    pub unk40: u32,
    pub unk70: u32,
    pub unk78: u64,
    pub unk80: u64,
    pub unk88: u64,
    pub unk90: u64,
    pub unk98: u64,
    pub unka0: u64,
    pub specular_lobe_lookup: TextureView,
    pub specular_lobe_3d_lookup: TextureView,
    pub specular_tint_lookup: TextureView,
    pub iridescence_lookup: TextureView,
    pub unkd0: Vec4Bits,
    pub unk150: Vec4Bits,
    pub unk160: Vec4Bits,
    pub unk170: Vec4Bits,
    pub unk180: Vec4Bits,
    pub unk190: u32,
    pub unk194: u32,
    pub unk1a0: Vec4Bits,
    pub unk1b0: Vec4Bits,
    pub unk1e0: u64,
    pub unk1e8: u64,
    pub unk1f0: u64,
}

impl Extern for Frame {
    open spec fn name() -> Seq<char> {
        "frame"@
    }

    open spec fn field_name_at(offset: usize) -> Seq<char> {
        if offset == 0x0 {
            "unk00"@
        } else if offset == 0x4 {
            "unk04"@
        } else if offset == 0xc {
            "unk0c"@
        } else if offset == 0x10 {
            "unk10"@
        } else if offset == 0x14 {
            "unk14"@
        } else if offset == 0x1c {
            "unk1c"@
        } else if offset == 0x20 {
            "unk20"@
        } else if offset == 0x24 {
            "unk24"@
        } else if offset == 0x28 {
            "unk28"@
        } else if offset == 0x2c {
            "unk2c"@
        } else if offset == 0x40 {
            "unk40"@
        } else if offset == 0x70 {
            "unk70"@
        } else if offset == 0x78 {
            "unk78"@
        } else if offset == 0x80 {
            "unk80"@
        } else if offset == 0x88 {
            "unk88"@
        } else if offset == 0x90 {
            "unk90"@
        } else if offset == 0x98 {
            "unk98"@
        } else if offset == 0xa0 {
            "unka0"@
        } else if offset == 0xa8 {
            "specular_lobe_lookup"@
        } else if offset == 0xb0 {
            "specular_lobe_3d_lookup"@
        } else if offset == 0xb8 {
            "specular_tint_lookup"@
        } else if offset == 0xc0 {
            "iridescence_lookup"@
        } else if offset == 0xd0 {
            "unkd0"@
        } else if offset == 0x150 {
            "unk150"@
        } else if offset == 0x160 {
            "unk160"@
        } else if offset == 0x170 {
            "unk170"@
        } else if offset == 0x180 {
            "unk180"@
        } else if offset == 0x190 {
            "unk190"@
        } else if offset == 0x194 {
            "unk194"@
        } else if offset == 0x1a0 {
            "unk1a0"@
        } else if offset == 0x1b0 {
            "unk1b0"@
        } else if offset == 0x1e0 {
            "unk1e0"@
        } else if offset == 0x1e8 {
            "unk1e8"@
        } else if offset == 0x1f0 {
            "unk1f0"@
        } else {
            Seq::<char>::empty()
        }
    }

    open spec fn layout(offset: usize) -> Option<FieldSlot> {
        if offset == 0x0 {
            Some(FieldSlot { ftype: FieldType::Float, unimplemented: false })
        } else if offset == 0x4 {
            Some(FieldSlot { ftype: FieldType::Float, unimplemented: false })
        } else if offset == 0xc {
            Some(FieldSlot { ftype: FieldType::Float, unimplemented: true })
        } else if offset == 0x10 {
            Some(FieldSlot { ftype: FieldType::Float, unimplemented: true })
        } else if offset == 0x14 {
            Some(FieldSlot { ftype: FieldType::Float, unimplemented: true })
        } else if offset == 0x1c {
            Some(FieldSlot { ftype: FieldType::Float, unimplemented: false })
        } else if offset == 0x20 {
            Some(FieldSlot { ftype: FieldType::Float, unimplemented: true })
        } else if offset == 0x24 {
            Some(FieldSlot { ftype: FieldType::Float, unimplemented: true })
        } else if offset == 0x28 {
            Some(FieldSlot { ftype: FieldType::Float, unimplemented: true })
        } else if offset == 0x2c {
            Some(FieldSlot { ftype: FieldType::Float, unimplemented: true })
        } else if offset == 0x40 {
            Some(FieldSlot { ftype: FieldType::Float, unimplemented: true })
        } else if offset == 0x70 {
            Some(FieldSlot { ftype: FieldType::Float, unimplemented: true })
        } else if offset == 0x78 {
            Some(FieldSlot { ftype: FieldType::U64, unimplemented: true })
        } else if offset == 0x80 {
            Some(FieldSlot { ftype: FieldType::U64, unimplemented: true })
        } else if offset == 0x88 {
            Some(FieldSlot { ftype: FieldType::U64, unimplemented: true })
        } else if offset == 0x90 {
            Some(FieldSlot { ftype: FieldType::U64, unimplemented: true })
        } else if offset == 0x98 {
            Some(FieldSlot { ftype: FieldType::U64, unimplemented: true })
        } else if offset == 0xa0 {
            Some(FieldSlot { ftype: FieldType::U64, unimplemented: true })
        } else if offset == 0xa8 {
            Some(FieldSlot { ftype: FieldType::Texture, unimplemented: false })
        } else if offset == 0xb0 {
            Some(FieldSlot { ftype: FieldType::Texture, unimplemented: false })
        } else if offset == 0xb8 {
            Some(FieldSlot { ftype: FieldType::Texture, unimplemented: false })
        } else if offset == 0xc0 {
            Some(FieldSlot { ftype: FieldType::Texture, unimplemented: false })
        } else if offset == 0xd0 {
            Some(FieldSlot { ftype: FieldType::Vec4, unimplemented: true })
        } else if offset == 0x150 {
            Some(FieldSlot { ftype: FieldType::Vec4, unimplemented: true })
        } else if offset == 0x160 {
            Some(FieldSlot { ftype: FieldType::Vec4, unimplemented: true })
        } else if offset == 0x170 {
            Some(FieldSlot { ftype: FieldType::Vec4, unimplemented: true })
        } else if offset == 0x180 {
            Some(FieldSlot { ftype: FieldType::Vec4, unimplemented: true })
        } else if offset == 0x190 {
            Some(FieldSlot { ftype: FieldType::Float, unimplemented: true })
        } else if offset == 0x194 {
            Some(FieldSlot { ftype: FieldType::Float, unimplemented: true })
        } else if offset == 0x1a0 {
            Some(FieldSlot { ftype: FieldType::Vec4, unimplemented: false })
        } else if offset == 0x1b0 {
            Some(FieldSlot { ftype: FieldType::Vec4, unimplemented: false })
        } else if offset == 0x1e0 {
            Some(FieldSlot { ftype: FieldType::U64, unimplemented: true })
        } else if offset == 0x1e8 {
            Some(FieldSlot { ftype: FieldType::U64, unimplemented: true })
        } else if offset == 0x1f0 {
            Some(FieldSlot { ftype: FieldType::U64, unimplemented: true })
        } else {
            None
        }
    }

    open spec fn field_at(&self, offset: usize) -> FieldValue {
        if offset == 0x0 {
            FieldValue::Float(self.unk00)
        } else if offset == 0x4 {
            FieldValue::Float(self.unk04)
        } else if offset == 0xc {
            FieldValue::Float(self.unk0c)
        } else if offset == 0x10 {
            FieldValue::Float(self.unk10)
        } else if offset == 0x14 {
            FieldValue::Float(self.unk14)
        } else if offset == 0x1c {
            FieldValue::Float(self.unk1c)
        } else if offset == 0x20 {
            FieldValue::Float(self.unk20)
        } else if offset == 0x24 {
            FieldValue::Float(self.unk24)
        } else if offset == 0x28 {
            FieldValue::Float(self.unk28)
        } else if offset == 0x2c {
            FieldValue::Float(self.unk2c)
        } else if offset == 0x40 {
            FieldValue::Float(self.unk40)
        } else if offset == 0x70 {
            FieldValue::Float(self.unk70)
        } else if offset == 0x78 {
            FieldValue::U64(self.unk78)
        } else if offset == 0x80 {
            FieldValue::U64(self.unk80)
        } else if offset == 0x88 {
            FieldValue::U64(self.unk88)
        } else if offset == 0x90 {
            FieldValue::U64(self.unk90)
        } else if offset == 0x98 {
            FieldValue::U64(self.unk98)
        } else if offset == 0xa0 {
            FieldValue::U64(self.unka0)
        } else if offset == 0xa8 {
            FieldValue::Texture(self.specular_lobe_lookup)
        } else if offset == 0xb0 {
            FieldValue::Texture(self.specular_lobe_3d_lookup)
        } else if offset == 0xb8 {
            FieldValue::Texture(self.specular_tint_lookup)
        } else if offset == 0xc0 {
            FieldValue::Texture(self.iridescence_lookup)
        } else if offset == 0xd0 {
            FieldValue::Vec4(self.unkd0)
        } else if offset == 0x150 {
            FieldValue::Vec4(self.unk150)
        } else if offset == 0x160 {
            FieldValue::Vec4(self.unk160)
        } else if offset == 0x170 {
            FieldValue::Vec4(self.unk170)
        } else if offset == 0x180 {
            FieldValue::Vec4(self.unk180)
        } else if offset == 0x190 {
            FieldValue::Float(self.unk190)
        } else if offset == 0x194 {
            FieldValue::Float(self.unk194)
        } else if offset == 0x1a0 {
            FieldValue::Vec4(self.unk1a0)
        } else if offset == 0x1b0 {
            FieldValue::Vec4(self.unk1b0)
        } else if offset == 0x1e0 {
            FieldValue::U64(self.unk1e0)
        } else if offset == 0x1e8 {
            FieldValue::U64(self.unk1e8)
        } else if offset == 0x1f0 {
            FieldValue::U64(self.unk1f0)
        } else {
            FieldValue::U64(0u64)
        }
    }

    fn get_name() -> (r: &'static str)
        ensures
            r@ == "frame"@,
    {
        "frame"
    }

    fn get_field(&self, offset: usize, want: FieldType) -> (r: ExternValue) {
        match offset {
            0x0 => classify(want, FieldType::Float, FieldValue::Float(self.unk00)),
            0x4 => classify(want, FieldType::Float, FieldValue::Float(self.unk04)),
            0xc => ExternValue::Unimplemented,
            0x10 => ExternValue::Unimplemented,
            0x14 => ExternValue::Unimplemented,
            0x1c => classify(want, FieldType::Float, FieldValue::Float(self.unk1c)),
            0x20 => ExternValue::Unimplemented,
            0x24 => ExternValue::Unimplemented,
            0x28 => ExternValue::Unimplemented,
            0x2c => ExternValue::Unimplemented,
            0x40 => ExternValue::Unimplemented,
            0x70 => ExternValue::Unimplemented,
            0x78 => ExternValue::Unimplemented,
            0x80 => ExternValue::Unimplemented,
            0x88 => ExternValue::Unimplemented,
            0x90 => ExternValue::Unimplemented,
            0x98 => ExternValue::Unimplemented,
            0xa0 => ExternValue::Unimplemented,
            0xa8 => classify(want, FieldType::Texture, FieldValue::Texture(self.specular_lobe_lookup)),
            0xb0 => classify(want, FieldType::Texture, FieldValue::Texture(self.specular_lobe_3d_lookup)),
            0xb8 => classify(want, FieldType::Texture, FieldValue::Texture(self.specular_tint_lookup)),
            0xc0 => classify(want, FieldType::Texture, FieldValue::Texture(self.iridescence_lookup)),
            0xd0 => ExternValue::Unimplemented,
            0x150 => ExternValue::Unimplemented,
            0x160 => ExternValue::Unimplemented,
            0x170 => ExternValue::Unimplemented,
            0x180 => ExternValue::Unimplemented,
            0x190 => ExternValue::Unimplemented,
            0x194 => ExternValue::Unimplemented,
            0x1a0 => classify(want, FieldType::Vec4, FieldValue::Vec4(self.unk1a0)),
            0x1b0 => classify(want, FieldType::Vec4, FieldValue::Vec4(self.unk1b0)),
            0x1e0 => ExternValue::Unimplemented,
            0x1e8 => ExternValue::Unimplemented,
            0x1f0 => ExternValue::Unimplemented,
            _ => ExternValue::FieldNotFound,
        }
    }

    fn get_field_name(offset: usize) -> (r: Option<&'static str>) {
        match offset {
            0x0 => Some("unk00"),
            0x4 => Some("unk04"),
            0xc => Some("unk0c"),
            0x10 => Some("unk10"),
            0x14 => Some("unk14"),
            0x1c => Some("unk1c"),
            0x20 => Some("unk20"),
            0x24 => Some("unk24"),
            0x28 => Some("unk28"),
            0x2c => Some("unk2c"),
            0x40 => Some("unk40"),
            0x70 => Some("unk70"),
            0x78 => Some("unk78"),
            0x80 => Some("unk80"),
            0x88 => Some("unk88"),
            0x90 => Some("unk90"),
            0x98 => Some("unk98"),
            0xa0 => Some("unka0"),
            0xa8 => Some("specular_lobe_lookup"),
            0xb0 => Some("specular_lobe_3d_lookup"),
            0xb8 => Some("specular_tint_lookup"),
            0xc0 => Some("iridescence_lookup"),
            0xd0 => Some("unkd0"),
            0x150 => Some("unk150"),
            0x160 => Some("unk160"),
            0x170 => Some("unk170"),
            0x180 => Some("unk180"),
            0x190 => Some("unk190"),
            0x194 => Some("unk194"),
            0x1a0 => Some("unk1a0"),
            0x1b0 => Some("unk1b0"),
            0x1e0 => Some("unk1e0"),
            0x1e8 => Some("unk1e8"),
            0x1f0 => Some("unk1f0"),
            _ => None,
        }
    }
}

impl Default for Frame {
    /// Zero scalars and vectors, identity matrices, absent texture views.
    fn default() -> (r: Self)
        ensures
            r == (Frame {
                unk00: 0u32,
                unk04: 0u32,
                unk0c: 0u32,
                unk10: 0u32,
                unk14: 0u32,
                unk1c: 0u32,
                unk20: 0u32,
                unk24: 0u32,
                unk28: 0u32,
                unk2c: 0u32,
                unk40: 0u32,
                unk70: 0u32,
                unk78: 0u64,
                unk80: 0u64,
                unk88: 0u64,
                unk90: 0u64,
                unk98: 0u64,
                unka0: 0u64,
                specular_lobe_lookup: TextureView::Null,
                specular_lobe_3d_lookup: TextureView::Null,
                specular_tint_lookup: TextureView::Null,
                iridescence_lookup: TextureView::Null,
                unkd0: spec_vec4_zero(),
                unk150: spec_vec4_zero(),
                unk160: spec_vec4_zero(),
                unk170: spec_vec4_zero(),
                unk180: spec_vec4_zero(),
                unk190: 0u32,
                unk194: 0u32,
                unk1a0: spec_vec4_zero(),
                unk1b0: spec_vec4_zero(),
                unk1e0: 0u64,
                unk1e8: 0u64,
                unk1f0: 0u64,
            }),
    {
        Frame {
            unk00: 0,
            unk04: 0,
            unk0c: 0,
            unk10: 0,
            unk14: 0,
            unk1c: 0,
            unk20: 0,
            unk24: 0,
            unk28: 0,
            unk2c: 0,
            unk40: 0,
            unk70: 0,
            unk78: 0,
            unk80: 0,
            unk88: 0,
            unk90: 0,
            unk98: 0,
            unka0: 0,
            specular_lobe_lookup: TextureView::Null,
            specular_lobe_3d_lookup: TextureView::Null,
            specular_tint_lookup: TextureView::Null,
            iridescence_lookup: TextureView::Null,
            unkd0: Vec4Bits::zero(),
            unk150: Vec4Bits::zero(),
            unk160: Vec4Bits::zero(),
            unk170: Vec4Bits::zero(),
            unk180: Vec4Bits::zero(),
            unk190: 0,
            unk194: 0,
            unk1a0: Vec4Bits::zero(),
            unk1b0: Vec4Bits::zero(),
            unk1e0: 0,
            unk1e8: 0,
            unk1f0: 0,
        }
    }
}

/// The "view" block: Per-view camera, resolution and projection state.
#[derive(Clone, Copy, Debug)]
pub struct ViewExtern {
    pub resolution_width: u32,
    pub resolution_height: u32,
    pub view_miscellaneous: Vec4Bits,
    pub position: Vec4Bits,
    pub unk30: Vec4Bits,
    pub world_to_camera: Mat4Bits,
    pub camera_to_projective: Mat4Bits,
    pub camera_to_world: Mat4Bits,
    pub projective_to_camera: Mat4Bits,
    pub world_to_projective: Mat4Bits,
    pub projective_to_world: Mat4Bits,
    pub target_pixel_to_world: Mat4Bits,
    pub target_pixel_to_camera: Mat4Bits,
    pub unk240: Mat4Bits,
    pub combined_tptoc_wtoc: Mat4Bits,
    pub unk2c0: Mat4Bits,
}

impl Extern for ViewExtern {
    open spec fn name() -> Seq<char> {
        "view"@
    }

    open spec fn field_name_at(offset: usize) -> Seq<char> {
        if offset == 0x0 {
            "resolution_width"@
        } else if offset == 0x4 {
            "resolution_height"@
        } else if offset == 0x10 {
            "view_miscellaneous"@
        } else if offset == 0x20 {
            "position"@
        } else if offset == 0x30 {
            "unk30"@
        } else if offset == 0x40 {
            "world_to_camera"@
        } else if offset == 0x80 {
            "camera_to_projective"@
        } else if offset == 0xc0 {
            "camera_to_world"@
        } else if offset == 0x100 {
            "projective_to_camera"@
        } else if offset == 0x140 {
            "world_to_projective"@
        } else if offset == 0x180 {
            "projective_to_world"@
        } else if offset == 0x1c0 {
            "target_pixel_to_world"@
        } else if offset == 0x200 {
            "target_pixel_to_camera"@
        } else if offset == 0x240 {
            "unk240"@
        } else if offset == 0x280 {
            "combined_tptoc_wtoc"@
        } else if offset == 0x2c0 {
            "unk2c0"@
        } else {
            Seq::<char>::empty()
        }
    }

    open spec fn layout(offset: usize) -> Option<FieldSlot> {
        if offset == 0x0 {
            Some(FieldSlot { ftype: FieldType::Float, unimplemented: false })
        } else if offset == 0x4 {
            Some(FieldSlot { ftype: FieldType::Float, unimplemented: false })
        } else if offset == 0x10 {
            Some(FieldSlot { ftype: FieldType::Vec4, unimplemented: false })
        } else if offset == 0x20 {
            Some(FieldSlot { ftype: FieldType::Vec4, unimplemented: false })
        } else if offset == 0x30 {
            Some(FieldSlot { ftype: FieldType::Vec4, unimplemented: false })
        } else if offset == 0x40 {
            Some(FieldSlot { ftype: FieldType::Mat4, unimplemented: false })
        } else if offset == 0x80 {
            Some(FieldSlot { ftype: FieldType::Mat4, unimplemented: false })
        } else if offset == 0xc0 {
            Some(FieldSlot { ftype: FieldType::Mat4, unimplemented: false })
        } else if offset == 0x100 {
            Some(FieldSlot { ftype: FieldType::Mat4, unimplemented: false })
        } else if offset == 0x140 {
            Some(FieldSlot { ftype: FieldType::Mat4, unimplemented: false })
        } else if offset == 0x180 {
            Some(FieldSlot { ftype: FieldType::Mat4, unimplemented: false })
        } else if offset == 0x1c0 {
            Some(FieldSlot { ftype: FieldType::Mat4, unimplemented: false })
        } else if offset == 0x200 {
            Some(FieldSlot { ftype: FieldType::Mat4, unimplemented: false })
        } else if offset == 0x240 {
            Some(FieldSlot { ftype: FieldType::Mat4, unimplemented: true })
        } else if offset == 0x280 {
            Some(FieldSlot { ftype: FieldType::Mat4, unimplemented: false })
        } else if offset == 0x2c0 {
            Some(FieldSlot { ftype: FieldType::Mat4, unimplemented: true })
        } else {
            None
        }
    }

    open spec fn field_at(&self, offset: usize) -> FieldValue {
        if offset == 0x0 {
            FieldValue::Float(self.resolution_width)
        } else if offset == 0x4 {
            FieldValue::Float(self.resolution_height)
        } else if offset == 0x10 {
            FieldValue::Vec4(self.view_miscellaneous)
        } else if offset == 0x20 {
            FieldValue::Vec4(self.position)
        } else if offset == 0x30 {
            FieldValue::Vec4(self.unk30)
        } else if offset == 0x40 {
            FieldValue::Mat4(self.world_to_camera)
        } else if offset == 0x80 {
            FieldValue::Mat4(self.camera_to_projective)
        } else if offset == 0xc0 {
            FieldValue::Mat4(self.camera_to_world)
        } else if offset == 0x100 {
            FieldValue::Mat4(self.projective_to_camera)
        } else if offset == 0x140 {
            FieldValue::Mat4(self.world_to_projective)
        } else if offset == 0x180 {
            FieldValue::Mat4(self.projective_to_world)
        } else if offset == 0x1c0 {
            FieldValue::Mat4(self.target_pixel_to_world)
        } else if offset == 0x200 {
            FieldValue::Mat4(self.target_pixel_to_camera)
        } else if offset == 0x240 {
            FieldValue::Mat4(self.unk240)
        } else if offset == 0x280 {
            FieldValue::Mat4(self.combined_tptoc_wtoc)
        } else if offset == 0x2c0 {
            FieldValue::Mat4(self.unk2c0)
        } else {
            FieldValue::U64(0u64)
        }
    }

    fn get_name() -> (r: &'static str)
        ensures
            r@ == "view"@,
    {
        "view"
    }

    fn get_field(&self, offset: usize, want: FieldType) -> (r: ExternValue) {
        match offset {
            0x0 => classify(want, FieldType::Float, FieldValue::Float(self.resolution_width)),
            0x4 => classify(want, FieldType::Float, FieldValue::Float(self.resolution_height)),
            0x10 => classify(want, FieldType::Vec4, FieldValue::Vec4(self.view_miscellaneous)),
            0x20 => classify(want, FieldType::Vec4, FieldValue::Vec4(self.position)),
            0x30 => classify(want, FieldType::Vec4, FieldValue::Vec4(self.unk30)),
            0x40 => classify(want, FieldType::Mat4, FieldValue::Mat4(self.world_to_camera)),
            0x80 => classify(want, FieldType::Mat4, FieldValue::Mat4(self.camera_to_projective)),
            0xc0 => classify(want, FieldType::Mat4, FieldValue::Mat4(self.camera_to_world)),
            0x100 => classify(want, FieldType::Mat4, FieldValue::Mat4(self.projective_to_camera)),
            0x140 => classify(want, FieldType::Mat4, FieldValue::Mat4(self.world_to_projective)),
            0x180 => classify(want, FieldType::Mat4, FieldValue::Mat4(self.projective_to_world)),
            0x1c0 => classify(want, FieldType::Mat4, FieldValue::Mat4(self.target_pixel_to_world)),
            0x200 => classify(want, FieldType::Mat4, FieldValue::Mat4(self.target_pixel_to_camera)),
            0x240 => ExternValue::Unimplemented,
            0x280 => classify(want, FieldType::Mat4, FieldValue::Mat4(self.combined_tptoc_wtoc)),
            0x2c0 => ExternValue::Unimplemented,
            _ => ExternValue::FieldNotFound,
        }
    }

    fn get_field_name(offset: usize) -> (r: Option<&'static str>) {
        match offset {
            0x0 => Some("resolution_width"),
            0x4 => Some("resolution_height"),
            0x10 => Some("view_miscellaneous"),
            0x20 => Some("position"),
            0x30 => Some("unk30"),
            0x40 => Some("world_to_camera"),
            0x80 => Some("camera_to_projective"),
            0xc0 => Some("camera_to_world"),
            0x100 => Some("projective_to_camera"),
            0x140 => Some("world_to_projective"),
            0x180 => Some("projective_to_world"),
            0x1c0 => Some("target_pixel_to_world"),
            0x200 => Some("target_pixel_to_camera"),
            0x240 => Some("unk240"),
            0x280 => Some("combined_tptoc_wtoc"),
            0x2c0 => Some("unk2c0"),
            _ => None,
        }
    }
}

impl Default for ViewExtern {
    /// Zero scalars and vectors, identity matrices, absent texture views.
    fn default() -> (r: Self)
        ensures
            r == (ViewExtern {
                resolution_width: 0u32,
                resolution_height: 0u32,
                view_miscellaneous: spec_vec4_zero(),
                position: spec_vec4_zero(),
                unk30: spec_vec4_zero(),
                world_to_camera: spec_mat4_identity(),
                camera_to_projective: spec_mat4_identity(),
                camera_to_world: spec_mat4_identity(),
                projective_to_camera: spec_mat4_identity(),
                world_to_projective: spec_mat4_identity(),
                projective_to_world: spec_mat4_identity(),
                target_pixel_to_world: spec_mat4_identity(),
                target_pixel_to_camera: spec_mat4_identity(),
                unk240: spec_mat4_identity(),
                combined_tptoc_wtoc: spec_mat4_identity(),
                unk2c0: spec_mat4_identity(),
            }),
    {
        ViewExtern {
            resolution_width: 0,
            resolution_height: 0,
            view_miscellaneous: Vec4Bits::zero(),
            position: Vec4Bits::zero(),
            unk30: Vec4Bits::zero(),
            world_to_camera: Mat4Bits::identity(),
            camera_to_projective: Mat4Bits::identity(),
            camera_to_world: Mat4Bits::identity(),
            projective_to_camera: Mat4Bits::identity(),
            world_to_projective: Mat4Bits::identity(),
            projective_to_world: Mat4Bits::identity(),
            target_pixel_to_world: Mat4Bits::identity(),
            target_pixel_to_camera: Mat4Bits::identity(),
            unk240: Mat4Bits::identity(),
            combined_tptoc_wtoc: Mat4Bits::identity(),
            unk2c0: Mat4Bits::identity(),
        }
    }
}

/// The "deferred" block: Deferred-shading render targets and lighting buffers.
#[derive(Clone, Copy, Debug)]
pub struct Deferred {
    pub unk00: Vec4Bits,
    pub unk10: Vec4Bits,
    pub unk20: Vec4Bits,
    pub unk30: u32,
    pub deferred_depth: TextureView,
    pub deferred_rt0: TextureView,
    pub deferred_rt1: TextureView,
    pub deferred_rt2: TextureView,
    pub light_diffuse: TextureView,
    pub light_specular: TextureView,
    pub light_ibl_specular: TextureView,
    pub unk78: TextureView,
    pub unk80: TextureView,
    pub unk88: TextureView,
    pub unk90: TextureView,
    pub unk98: TextureView,
}

impl Extern for Deferred {
    open spec fn name() -> Seq<char> {
        "deferred"@
    }

    open spec fn field_name_at(offset: usize) -> Seq<char> {
        if offset == 0x0 {
            "unk00"@
        } else if offset == 0x10 {
            "unk10"@
        } else if offset == 0x20 {
            "unk20"@
        } else if offset == 0x30 {
            "unk30"@
        } else if offset == 0x38 {
            "deferred_depth"@
        } else if offset == 0x48 {
            "deferred_rt0"@
        } else if offset == 0x50 {
            "deferred_rt1"@
        } else if offset == 0x58 {
            "deferred_rt2"@
        } else if offset == 0x60 {
            "light_diffuse"@
        } else if offset == 0x68 {
            "light_specular"@
        } else if offset == 0x70 {
            "light_ibl_specular"@
        } else if offset == 0x78 {
            "unk78"@
        } else if offset == 0x80 {
            "unk80"@
        } else if offset == 0x88 {
            "unk88"@
        } else if offset == 0x90 {
            "unk90"@
        } else if offset == 0x98 {
            "unk98"@
        } else {
            Seq::<char>::empty()
        }
    }

    open spec fn layout(offset: usize) -> Option<FieldSlot> {
        if offset == 0x0 {
            Some(FieldSlot { ftype: FieldType::Vec4, unimplemented: true })
        } else if offset == 0x10 {
            Some(FieldSlot { ftype: FieldType::Vec4, unimplemented: true })
        } else if offset == 0x20 {
            Some(FieldSlot { ftype: FieldType::Vec4, unimplemented: true })
        } else if offset == 0x30 {
            Some(FieldSlot { ftype: FieldType::Float, unimplemented: true })
        } else if offset == 0x38 {
            Some(FieldSlot { ftype: FieldType::Texture, unimplemented: false })
        } else if offset == 0x48 {
            Some(FieldSlot { ftype: FieldType::Texture, unimplemented: false })
        } else if offset == 0x50 {
            Some(FieldSlot { ftype: FieldType::Texture, unimplemented: false })
        } else if offset == 0x58 {
            Some(FieldSlot { ftype: FieldType::Texture, unimplemented: false })
        } else if offset == 0x60 {
            Some(FieldSlot { ftype: FieldType::Texture, unimplemented: false })
        } else if offset == 0x68 {
            Some(FieldSlot { ftype: FieldType::Texture, unimplemented: false })
        } else if offset == 0x70 {
            Some(FieldSlot { ftype: FieldType::Texture, unimplemented: false })
        } else if offset == 0x78 {
            Some(FieldSlot { ftype: FieldType::Texture, unimplemented: true })
        } else if offset == 0x80 {
            Some(FieldSlot { ftype: FieldType::Texture, unimplemented: true })
        } else if offset == 0x88 {
            Some(FieldSlot { ftype: FieldType::Texture, unimplemented: true })
        } else if offset == 0x90 {
            Some(FieldSlot { ftype: FieldType::Texture, unimplemented: true })
        } else if offset == 0x98 {
            Some(FieldSlot { ftype: FieldType::Texture, unimplemented: true })
        } else {
            None
        }
    }

    open spec fn field_at(&self, offset: usize) -> FieldValue {
        if offset == 0x0 {
            FieldValue::Vec4(self.unk00)
        } else if offset == 0x10 {
            FieldValue::Vec4(self.unk10)
        } else if offset == 0x20 {
            FieldValue::Vec4(self.unk20)
        } else if offset == 0x30 {
            FieldValue::Float(self.unk30)
        } else if offset == 0x38 {
            FieldValue::Texture(self.deferred_depth)
        } else if offset == 0x48 {
            FieldValue::Texture(self.deferred_rt0)
        } else if offset == 0x50 {
            FieldValue::Texture(self.deferred_rt1)
        } else if offset == 0x58 {
            FieldValue::Texture(self.deferred_rt2)
        } else if offset == 0x60 {
            FieldValue::Texture(self.light_diffuse)
        } else if offset == 0x68 {
            FieldValue::Texture(self.light_specular)
        } else if offset == 0x70 {
            FieldValue::Texture(self.light_ibl_specular)
        } else if offset == 0x78 {
            FieldValue::Texture(self.unk78)
        } else if offset == 0x80 {
            FieldValue::Texture(self.unk80)
        } else if offset == 0x88 {
            FieldValue::Texture(self.unk88)
        } else if offset == 0x90 {
            FieldValue::Texture(self.unk90)
        } else if offset == 0x98 {
            FieldValue::Texture(self.unk98)
        } else {
            FieldValue::U64(0u64)
        }
    }

    fn get_name() -> (r: &'static str)
        ensures
            r@ == "deferred"@,
    {
        "deferred"
    }

    fn get_field(&self, offset: usize, want: FieldType) -> (r: ExternValue) {
        match offset {
            0x0 => ExternValue::Unimplemented,
            0x10 => ExternValue::Unimplemented,
            0x20 => ExternValue::Unimplemented,
            0x30 => ExternValue::Unimplemented,
            0x38 => classify(want, FieldType::Texture, FieldValue::Texture(self.deferred_depth)),
            0x48 => classify(want, FieldType::Texture, FieldValue::Texture(self.deferred_rt0)),
            0x50 => classify(want, FieldType::Texture, FieldValue::Texture(self.deferred_rt1)),
            0x58 => classify(want, FieldType::Texture, FieldValue::Texture(self.deferred_rt2)),
            0x60 => classify(want, FieldType::Texture, FieldValue::Texture(self.light_diffuse)),
            0x68 => classify(want, FieldType::Texture, FieldValue::Texture(self.light_specular)),
            0x70 => classify(want, FieldType::Texture, FieldValue::Texture(self.light_ibl_specular)),
            0x78 => ExternValue::Unimplemented,
            0x80 => ExternValue::Unimplemented,
            0x88 => ExternValue::Unimplemented,
            0x90 => ExternValue::Unimplemented,
            0x98 => ExternValue::Unimplemented,
            _ => ExternValue::FieldNotFound,
        }
    }

    fn get_field_name(offset: usize) -> (r: Option<&'static str>) {
        match offset {
            0x0 => Some("unk00"),
            0x10 => Some("unk10"),
            0x20 => Some("unk20"),
            0x30 => Some("unk30"),
            0x38 => Some("deferred_depth"),
            0x48 => Some("deferred_rt0"),
            0x50 => Some("deferred_rt1"),
            0x58 => Some("deferred_rt2"),
            0x60 => Some("light_diffuse"),
            0x68 => Some("light_specular"),
            0x70 => Some("light_ibl_specular"),
            0x78 => Some("unk78"),
            0x80 => Some("unk80"),
            0x88 => Some("unk88"),
            0x90 => Some("unk90"),
            0x98 => Some("unk98"),
            _ => None,
        }
    }
}

impl Default for Deferred {
    /// Zero scalars and vectors, identity matrices, absent texture views.
    fn default() -> (r: Self)
        ensures
            r == (Deferred {
                unk00: spec_vec4_zero(),
                unk10: spec_vec4_zero(),
                unk20: spec_vec4_zero(),
                unk30: 0u32,
                deferred_depth: TextureView::Null,
                deferred_rt0: TextureView::Null,
                deferred_rt1: TextureView::Null,
                deferred_rt2: TextureView::Null,
                light_diffuse: TextureView::Null,
                light_specular: TextureView::Null,
                light_ibl_specular: TextureView::Null,
                unk78: TextureView::Null,
                unk80: TextureView::Null,
                unk88: TextureView::Null,
                unk90: TextureView::Null,
                unk98: TextureView::Null,
            }),
    {
        Deferred {
            unk00: Vec4Bits::zero(),
            unk10: Vec4Bits::zero(),
            unk20: Vec4Bits::zero(),
            unk30: 0,
            deferred_depth: TextureView::Null,
            deferred_rt0: TextureView::Null,
            deferred_rt1: TextureView::Null,
            deferred_rt2: TextureView::Null,
            light_diffuse: TextureView::Null,
            light_specular: TextureView::Null,
            light_ibl_specular: TextureView::Null,
            unk78: TextureView::Null,
            unk80: TextureView::Null,
            unk88: TextureView::Null,
            unk90: TextureView::Null,
            unk98: TextureView::Null,
        }
    }
}

/// The "deferred_light" block: State of the deferred light being drawn.
#[derive(Clone, Copy, Debug)]
pub struct DeferredLight {
    pub unk40: Mat4Bits,
    pub unk80: Mat4Bits,
    pub unkc0: Vec4Bits,
    pub unkd0: Vec4Bits,
    pub unke0: Vec4Bits,
    pub unkf0: Vec4Bits,
    pub unk100: Vec4Bits,
    pub unk110: u32,
    pub unk114: u32,
    pub unk118: u32,
    pub unk11c: u32,
    pub unk120: u32,
}

impl Extern for DeferredLight {
    open spec fn name() -> Seq<char> {
        "deferred_light"@
    }

    open spec fn field_name_at(offset: usize) -> Seq<char> {
        if offset == 0x40 {
            "unk40"@
        } else if offset == 0x80 {
            "unk80"@
        } else if offset == 0xc0 {
            "unkc0"@
        } else if offset == 0xd0 {
            "unkd0"@
        } else if offset == 0xe0 {
            "unke0"@
        } else if offset == 0xf0 {
            "unkf0"@
        } else if offset == 0x100 {
            "unk100"@
        } else if offset == 0x110 {
            "unk110"@
        } else if offset == 0x114 {
            "unk114"@
        } else if offset == 0x118 {
            "unk118"@
        } else if offset == 0x11c {
            "unk11c"@
        } else if offset == 0x120 {
            "unk120"@
        } else {
            Seq::<char>::empty()
        }
    }

    open spec fn layout(offset: usize) -> Option<FieldSlot> {
        if offset == 0x40 {
            Some(FieldSlot { ftype: FieldType::Mat4, unimplemented: false })
        } else if offset == 0x80 {
            Some(FieldSlot { ftype: FieldType::Mat4, unimplemented: false })
        } else if offset == 0xc0 {
            Some(FieldSlot { ftype: FieldType::Vec4, unimplemented: false })
        } else if offset == 0xd0 {
            Some(FieldSlot { ftype: FieldType::Vec4, unimplemented: false })
        } else if offset == 0xe0 {
            Some(FieldSlot { ftype: FieldType::Vec4, unimplemented: false })
        } else if offset == 0xf0 {
            Some(FieldSlot { ftype: FieldType::Vec4, unimplemented: false })
        } else if offset == 0x100 {
            Some(FieldSlot { ftype: FieldType::Vec4, unimplemented: false })
        } else if offset == 0x110 {
            Some(FieldSlot { ftype: FieldType::Float, unimplemented: false })
        } else if offset == 0x114 {
            Some(FieldSlot { ftype: FieldType::Float, unimplemented: false })
        } else if offset == 0x118 {
            Some(FieldSlot { ftype: FieldType::Float, unimplemented: false })
        } else if offset == 0x11c {
            Some(FieldSlot { ftype: FieldType::Float, unimplemented: false })
        } else if offset == 0x120 {
            Some(FieldSlot { ftype: FieldType::Float, unimplemented: false })
        } else {
            None
        }
    }

    open spec fn field_at(&self, offset: usize) -> FieldValue {
        if offset == 0x40 {
            FieldValue::Mat4(self.unk40)
        } else if offset == 0x80 {
            FieldValue::Mat4(self.unk80)
        } else if offset == 0xc0 {
            FieldValue::Vec4(self.unkc0)
        } else if offset == 0xd0 {
            FieldValue::Vec4(self.unkd0)
        } else if offset == 0xe0 {
            FieldValue::Vec4(self.unke0)
        } else if offset == 0xf0 {
            FieldValue::Vec4(self.unkf0)
        } else if offset == 0x100 {
            FieldValue::Vec4(self.unk100)
        } else if offset == 0x110 {
            FieldValue::Float(self.unk110)
        } else if offset == 0x114 {
            FieldValue::Float(self.unk114)
        } else if offset == 0x118 {
            FieldValue::Float(self.unk118)
        } else if offset == 0x11c {
            FieldValue::Float(self.unk11c)
        } else if offset == 0x120 {
            FieldValue::Float(self.unk120)
        } else {
            FieldValue::U64(0u64)
        }
    }

    fn get_name() -> (r: &'static str)
        ensures
            r@ == "deferred_light"@,
    {
        "deferred_light"
    }

    fn get_field(&self, offset: usize, want: FieldType) -> (r: ExternValue) {
        match offset {
            0x40 => classify(want, FieldType::Mat4, FieldValue::Mat4(self.unk40)),
            0x80 => classify(want, FieldType::Mat4, FieldValue::Mat4(self.unk80)),
            0xc0 => classify(want, FieldType::Vec4, FieldValue::Vec4(self.unkc0)),
            0xd0 => classify(want, FieldType::Vec4, FieldValue::Vec4(self.unkd0)),
            0xe0 => classify(want, FieldType::Vec4, FieldValue::Vec4(self.unke0)),
            0xf0 => classify(want, FieldType::Vec4, FieldValue::Vec4(self.unkf0)),
            0x100 => classify(want, FieldType::Vec4, FieldValue::Vec4(self.unk100)),
            0x110 => classify(want, FieldType::Float, FieldValue::Float(self.unk110)),
            0x114 => classify(want, FieldType::Float, FieldValue::Float(self.unk114)),
            0x118 => classify(want, FieldType::Float, FieldValue::Float(self.unk118)),
            0x11c => classify(want, FieldType::Float, FieldValue::Float(self.unk11c)),
            0x120 => classify(want, FieldType::Float, FieldValue::Float(self.unk120)),
            _ => ExternValue::FieldNotFound,
        }
    }

    fn get_field_name(offset: usize) -> (r: Option<&'static str>) {
        match offset {
            0x40 => Some("unk40"),
            0x80 => Some("unk80"),
            0xc0 => Some("unkc0"),
            0xd0 => Some("unkd0"),
            0xe0 => Some("unke0"),
            0xf0 => Some("unkf0"),
            0x100 => Some("unk100"),
            0x110 => Some("unk110"),
            0x114 => Some("unk114"),
            0x118 => Some("unk118"),
            0x11c => Some("unk11c"),
            0x120 => Some("unk120"),
            _ => None,
        }
    }
}

impl Default for DeferredLight {
    /// Zero scalars and vectors, identity matrices, absent texture views.
    fn default() -> (r: Self)
        ensures
            r == (DeferredLight {
                unk40: spec_mat4_identity(),
                unk80: spec_mat4_identity(),
                unkc0: spec_vec4_zero(),
                unkd0: spec_vec4_zero(),
                unke0: spec_vec4_zero(),
                unkf0: spec_vec4_zero(),
                unk100: spec_vec4_zero(),
                unk110: 0u32,
                unk114: 0u32,
                unk118: 0u32,
                unk11c: 0u32,
                unk120: 0u32,
            }),
    {
        DeferredLight {
            unk40: Mat4Bits::identity(),
            unk80: Mat4Bits::identity(),
            unkc0: Vec4Bits::zero(),
            unkd0: Vec4Bits::zero(),
            unke0: Vec4Bits::zero(),
            unkf0: Vec4Bits::zero(),
            unk100: Vec4Bits::zero(),
            unk110: 0,
            unk114: 0,
            unk118: 0,
            unk11c: 0,
            unk120: 0,
        }
    }
}

/// The "transparent" block: Atmosphere and screen-space lookups for transparents.
#[derive(Clone, Copy, Debug)]
pub struct Transparent {
    pub unk00: TextureView,
    pub unk08: TextureView,
    pub unk10: TextureView,
    pub unk18: TextureView,
    pub unk20: TextureView,
    pub unk28: TextureView,
    pub unk30: TextureView,
    pub unk38: TextureView,
    pub unk40: TextureView,
    pub unk48: TextureView,
    pub unk50: TextureView,
    pub unk58: TextureView,
    pub unk60: TextureView,
    pub unk70: Vec4Bits,
    pub unk80: Vec4Bits,
    pub unk90: Vec4Bits,
    pub unka0: Vec4Bits,
    pub unkb0: Vec4Bits,
}

impl Extern for Transparent {
    open spec fn name() -> Seq<char> {
        "transparent"@
    }

    open spec fn field_name_at(offset: usize) -> Seq<char> {
        if offset == 0x0 {
            "unk00"@
        } else if offset == 0x8 {
            "unk08"@
        } else if offset == 0x10 {
            "unk10"@
        } else if offset == 0x18 {
            "unk18"@
        } else if offset == 0x20 {
            "unk20"@
        } else if offset == 0x28 {
            "unk28"@
        } else if offset == 0x30 {
            "unk30"@
        } else if offset == 0x38 {
            "unk38"@
        } else if offset == 0x40 {
            "unk40"@
        } else if offset == 0x48 {
            "unk48"@
        } else if offset == 0x50 {
            "unk50"@
        } else if offset == 0x58 {
            "unk58"@
        } else if offset == 0x60 {
            "unk60"@
        } else if offset == 0x70 {
            "unk70"@
        } else if offset == 0x80 {
            "unk80"@
        } else if offset == 0x90 {
            "unk90"@
        } else if offset == 0xa0 {
            "unka0"@
        } else if offset == 0xb0 {
            "unkb0"@
        } else {
            Seq::<char>::empty()
        }
    }

    open spec fn layout(offset: usize) -> Option<FieldSlot> {
        if offset == 0x0 {
            Some(FieldSlot { ftype: FieldType::Texture, unimplemented: false })
        } else if offset == 0x8 {
            Some(FieldSlot { ftype: FieldType::Texture, unimplemented: false })
        } else if offset == 0x10 {
            Some(FieldSlot { ftype: FieldType::Texture, unimplemented: false })
        } else if offset == 0x18 {
            Some(FieldSlot { ftype: FieldType::Texture, unimplemented: false })
        } else if offset == 0x20 {
            Some(FieldSlot { ftype: FieldType::Texture, unimplemented: false })
        } else if offset == 0x28 {
            Some(FieldSlot { ftype: FieldType::Texture, unimplemented: false })
        } else if offset == 0x30 {
            Some(FieldSlot { ftype: FieldType::Texture, unimplemented: false })
        } else if offset == 0x38 {
            Some(FieldSlot { ftype: FieldType::Texture, unimplemented: false })
        } else if offset == 0x40 {
            Some(FieldSlot { ftype: FieldType::Texture, unimplemented: false })
        } else if offset == 0x48 {
            Some(FieldSlot { ftype: FieldType::Texture, unimplemented: false })
        } else if offset == 0x50 {
            Some(FieldSlot { ftype: FieldType::Texture, unimplemented: false })
        } else if offset == 0x58 {
            Some(FieldSlot { ftype: FieldType::Texture, unimplemented: false })
        } else if offset == 0x60 {
            Some(FieldSlot { ftype: FieldType::Texture, unimplemented: false })
        } else if offset == 0x70 {
            Some(FieldSlot { ftype: FieldType::Vec4, unimplemented: true })
        } else if offset == 0x80 {
            Some(FieldSlot { ftype: FieldType::Vec4, unimplemented: true })
        } else if offset == 0x90 {
            Some(FieldSlot { ftype: FieldType::Vec4, unimplemented: true })
        } else if offset == 0xa0 {
            Some(FieldSlot { ftype: FieldType::Vec4, unimplemented: true })
        } else if offset == 0xb0 {
            Some(FieldSlot { ftype: FieldType::Vec4, unimplemented: true })
        } else {
            None
        }
    }

    open spec fn field_at(&self, offset: usize) -> FieldValue {
        if offset == 0x0 {
            FieldValue::Texture(self.unk00)
        } else if offset == 0x8 {
            FieldValue::Texture(self.unk08)
        } else if offset == 0x10 {
            FieldValue::Texture(self.unk10)
        } else if offset == 0x18 {
            FieldValue::Texture(self.unk18)
        } else if offset == 0x20 {
            FieldValue::Texture(self.unk20)
        } else if offset == 0x28 {
            FieldValue::Texture(self.unk28)
        } else if offset == 0x30 {
            FieldValue::Texture(self.unk30)
        } else if offset == 0x38 {
            FieldValue::Texture(self.unk38)
        } else if offset == 0x40 {
            FieldValue::Texture(self.unk40)
        } else if offset == 0x48 {
            FieldValue::Texture(self.unk48)
        } else if offset == 0x50 {
            FieldValue::Texture(self.unk50)
        } else if offset == 0x58 {
            FieldValue::Texture(self.unk58)
        } else if offset == 0x60 {
            FieldValue::Texture(self.unk60)
        } else if offset == 0x70 {
            FieldValue::Vec4(self.unk70)
        } else if offset == 0x80 {
            FieldValue::Vec4(self.unk80)
        } else if offset == 0x90 {
            FieldValue::Vec4(self.unk90)
        } else if offset == 0xa0 {
            FieldValue::Vec4(self.unka0)
        } else if offset == 0xb0 {
            FieldValue::Vec4(self.unkb0)
        } else {
            FieldValue::U64(0u64)
        }
    }

    fn get_name() -> (r: &'static str)
        ensures
            r@ == "transparent"@,
    {
        "transparent"
    }

    fn get_field(&self, offset: usize, want: FieldType) -> (r: ExternValue) {
        match offset {
            0x0 => classify(want, FieldType::Texture, FieldValue::Texture(self.unk00)),
            0x8 => classify(want, FieldType::Texture, FieldValue::Texture(self.unk08)),
            0x10 => classify(want, FieldType::Texture, FieldValue::Texture(self.unk10)),
            0x18 => classify(want, FieldType::Texture, FieldValue::Texture(self.unk18)),
            0x20 => classify(want, FieldType::Texture, FieldValue::Texture(self.unk20)),
            0x28 => classify(want, FieldType::Texture, FieldValue::Texture(self.unk28)),
            0x30 => classify(want, FieldType::Texture, FieldValue::Texture(self.unk30)),
            0x38 => classify(want, FieldType::Texture, FieldValue::Texture(self.unk38)),
            0x40 => classify(want, FieldType::Texture, FieldValue::Texture(self.unk40)),
            0x48 => classify(want, FieldType::Texture, FieldValue::Texture(self.unk48)),
            0x50 => classify(want, FieldType::Texture, FieldValue::Texture(self.unk50)),
            0x58 => classify(want, FieldType::Texture, FieldValue::Texture(self.unk58)),
            0x60 => classify(want, FieldType::Texture, FieldValue::Texture(self.unk60)),
            0x70 => ExternValue::Unimplemented,
            0x80 => ExternValue::Unimplemented,
            0x90 => ExternValue::Unimplemented,
            0xa0 => ExternValue::Unimplemented,
            0xb0 => ExternValue::Unimplemented,
            _ => ExternValue::FieldNotFound,
        }
    }

    fn get_field_name(offset: usize) -> (r: Option<&'static str>) {
        match offset {
            0x0 => Some("unk00"),
            0x8 => Some("unk08"),
            0x10 => Some("unk10"),
            0x18 => Some("unk18"),
            0x20 => Some("unk20"),
            0x28 => Some("unk28"),
            0x30 => Some("unk30"),
            0x38 => Some("unk38"),
            0x40 => Some("unk40"),
            0x48 => Some("unk48"),
            0x50 => Some("unk50"),
            0x58 => Some("unk58"),
            0x60 => Some("unk60"),
            0x70 => Some("unk70"),
            0x80 => Some("unk80"),
            0x90 => Some("unk90"),
            0xa0 => Some("unka0"),
            0xb0 => Some("unkb0"),
            _ => None,
        }
    }
}

impl Default for Transparent {
    /// Zero scalars and vectors, identity matrices, absent texture views.
    fn default() -> (r: Self)
        ensures
            r == (Transparent {
                unk00: TextureView::Null,
                unk08: TextureView::Null,
                unk10: TextureView::Null,
                unk18: TextureView::Null,
                unk20: TextureView::Null,
                unk28: TextureView::Null,
                unk30: TextureView::Null,
                unk38: TextureView::Null,
                unk40: TextureView::Null,
                unk48: TextureView::Null,
                unk50: TextureView::Null,
                unk58: TextureView::Null,
                unk60: TextureView::Null,
                unk70: spec_vec4_zero(),
                unk80: spec_vec4_zero(),
                unk90: spec_vec4_zero(),
                unka0: spec_vec4_zero(),
                unkb0: spec_vec4_zero(),
            }),
    {
        Transparent {
            unk00: TextureView::Null,
            unk08: TextureView::Null,
            unk10: TextureView::Null,
            unk18: TextureView::Null,
            unk20: TextureView::Null,
            unk28: TextureView::Null,
            unk30: TextureView::Null,
            unk38: TextureView::Null,
            unk40: TextureView::Null,
            unk48: TextureView::Null,
            unk50: TextureView::Null,
            unk58: TextureView::Null,
            unk60: TextureView::Null,
            unk70: Vec4Bits::zero(),
            unk80: Vec4Bits::zero(),
            unk90: Vec4Bits::zero(),
            unka0: Vec4Bits::zero(),
            unkb0: Vec4Bits::zero(),
        }
    }
}

/// The "simple_geometry" block: Transform for simple geometry draws.
#[derive(Clone, Copy, Debug)]
pub struct SimpleGeometry {
    pub transform: Mat4Bits,
}

impl Extern for SimpleGeometry {
    open spec fn name() -> Seq<char> {
        "simple_geometry"@
    }

    open spec fn field_name_at(offset: usize) -> Seq<char> {
        if offset == 0x0 {
            "transform"@
        } else {
            Seq::<char>::empty()
        }
    }

    open spec fn layout(offset: usize) -> Option<FieldSlot> {
        if offset == 0x0 {
            Some(FieldSlot { ftype: FieldType::Mat4, unimplemented: false })
        } else {
            None
        }
    }

    open spec fn field_at(&self, offset: usize) -> FieldValue {
        if offset == 0x0 {
            FieldValue::Mat4(self.transform)
        } else {
            FieldValue::U64(0u64)
        }
    }

    fn get_name() -> (r: &'static str)
        ensures
            r@ == "simple_geometry"@,
    {
        "simple_geometry"
    }

    fn get_field(&self, offset: usize, want: FieldType) -> (r: ExternValue) {
        match offset {
            0x0 => classify(want, FieldType::Mat4, FieldValue::Mat4(self.transform)),
            _ => ExternValue::FieldNotFound,
        }
    }

    fn get_field_name(offset: usize) -> (r: Option<&'static str>) {
        match offset {
            0x0 => Some("transform"),
            _ => None,
        }
    }
}

impl Default for SimpleGeometry {
    /// Zero scalars and vectors, identity matrices, absent texture views.
    fn default() -> (r: Self)
        ensures
            r == (SimpleGeometry {
                transform: spec_mat4_identity(),
            }),
    {
        SimpleGeometry {
            transform: Mat4Bits::identity(),
        }
    }
}

/// The "decal" block: Render-target copy and parameters for decal draws.
#[derive(Clone, Copy, Debug)]
pub struct Decal {
    pub unk00: TextureView,
    pub unk08: TextureView,
    pub unk10: Vec4Bits,
    pub unk20: Vec4Bits,
}

impl Extern for Decal {
    open spec fn name() -> Seq<char> {
        "decal"@
    }

    open spec fn field_name_at(offset: usize) -> Seq<char> {
        if offset == 0x0 {
            "unk00"@
        } else if offset == 0x8 {
            "unk08"@
        } else if offset == 0x10 {
            "unk10"@
        } else if offset == 0x20 {
            "unk20"@
        } else {
            Seq::<char>::empty()
        }
    }

    open spec fn layout(offset: usize) -> Option<FieldSlot> {
        if offset == 0x0 {
            Some(FieldSlot { ftype: FieldType::Texture, unimplemented: true })
        } else if offset == 0x8 {
            Some(FieldSlot { ftype: FieldType::Texture, unimplemented: false })
        } else if offset == 0x10 {
            Some(FieldSlot { ftype: FieldType::Vec4, unimplemented: true })
        } else if offset == 0x20 {
            Some(FieldSlot { ftype: FieldType::Vec4, unimplemented: true })
        } else {
            None
        }
    }

    open spec fn field_at(&self, offset: usize) -> FieldValue {
        if offset == 0x0 {
            FieldValue::Texture(self.unk00)
        } else if offset == 0x8 {
            FieldValue::Texture(self.unk08)
        } else if offset == 0x10 {
            FieldValue::Vec4(self.unk10)
        } else if offset == 0x20 {
            FieldValue::Vec4(self.unk20)
        } else {
            FieldValue::U64(0u64)
        }
    }

    fn get_name() -> (r: &'static str)
        ensures
            r@ == "decal"@,
    {
        "decal"
    }

    fn get_field(&self, offset: usize, want: FieldType) -> (r: ExternValue) {
        match offset {
            0x0 => ExternValue::Unimplemented,
            0x8 => classify(want, FieldType::Texture, FieldValue::Texture(self.unk08)),
            0x10 => ExternValue::Unimplemented,
            0x20 => ExternValue::Unimplemented,
            _ => ExternValue::FieldNotFound,
        }
    }

    fn get_field_name(offset: usize) -> (r: Option<&'static str>) {
        match offset {
            0x0 => Some("unk00"),
            0x8 => Some("unk08"),
            0x10 => Some("unk10"),
            0x20 => Some("unk20"),
            _ => None,
        }
    }
}

impl Default for Decal {
    /// Zero scalars and vectors, identity matrices, absent texture views.
    fn default() -> (r: Self)
        ensures
            r == (Decal {
                unk00: TextureView::Null,
                unk08: TextureView::Null,
                unk10: spec_vec4_zero(),
                unk20: spec_vec4_zero(),
            }),
    {
        Decal {
            unk00: TextureView::Null,
            unk08: TextureView::Null,
            unk10: Vec4Bits::zero(),
            unk20: Vec4Bits::zero(),
        }
    }
}

/// The "rigid_model" block: Per-instance transform and unpacking scales for rigid models.
#[derive(Clone, Copy, Debug)]
pub struct RigidModel {
    pub mesh_to_world: Mat4Bits,
    pub position_scale: Vec4Bits,
    pub position_offset: Vec4Bits,
    pub texcoord0_scale_offset: Vec4Bits,
    pub dynamic_sh_ao_values: Vec4Bits,
}

impl Extern for RigidModel {
    open spec fn name() -> Seq<char> {
        "rigid_model"@
    }

    open spec fn field_name_at(offset: usize) -> Seq<char> {
        if offset == 0x0 {
            "mesh_to_world"@
        } else if offset == 0x40 {
            "position_scale"@
        } else if offset == 0x50 {
            "position_offset"@
        } else if offset == 0x60 {
            "texcoord0_scale_offset"@
        } else if offset == 0x70 {
            "dynamic_sh_ao_values"@
        } else {
            Seq::<char>::empty()
        }
    }

    open spec fn layout(offset: usize) -> Option<FieldSlot> {
        if offset == 0x0 {
            Some(FieldSlot { ftype: FieldType::Mat4, unimplemented: false })
        } else if offset == 0x40 {
            Some(FieldSlot { ftype: FieldType::Vec4, unimplemented: false })
        } else if offset == 0x50 {
            Some(FieldSlot { ftype: FieldType::Vec4, unimplemented: false })
        } else if offset == 0x60 {
            Some(FieldSlot { ftype: FieldType::Vec4, unimplemented: false })
        } else if offset == 0x70 {
            Some(FieldSlot { ftype: FieldType::Vec4, unimplemented: false })
        } else {
            None
        }
    }

    open spec fn field_at(&self, offset: usize) -> FieldValue {
        if offset == 0x0 {
            FieldValue::Mat4(self.mesh_to_world)
        } else if offset == 0x40 {
            FieldValue::Vec4(self.position_scale)
        } else if offset == 0x50 {
            FieldValue::Vec4(self.position_offset)
        } else if offset == 0x60 {
            FieldValue::Vec4(self.texcoord0_scale_offset)
        } else if offset == 0x70 {
            FieldValue::Vec4(self.dynamic_sh_ao_values)
        } else {
            FieldValue::U64(0u64)
        }
    }

    fn get_name() -> (r: &'static str)
        ensures
            r@ == "rigid_model"@,
    {
        "rigid_model"
    }

    fn get_field(&self, offset: usize, want: FieldType) -> (r: ExternValue) {
        match offset {
            0x0 => classify(want, FieldType::Mat4, FieldValue::Mat4(self.mesh_to_world)),
            0x40 => classify(want, FieldType::Vec4, FieldValue::Vec4(self.position_scale)),
            0x50 => classify(want, FieldType::Vec4, FieldValue::Vec4(self.position_offset)),
            0x60 => classify(want, FieldType::Vec4, FieldValue::Vec4(self.texcoord0_scale_offset)),
            0x70 => classify(want, FieldType::Vec4, FieldValue::Vec4(self.dynamic_sh_ao_values)),
            _ => ExternValue::FieldNotFound,
        }
    }

    fn get_field_name(offset: usize) -> (r: Option<&'static str>) {
        match offset {
            0x0 => Some("mesh_to_world"),
            0x40 => Some("position_scale"),
            0x50 => Some("position_offset"),
            0x60 => Some("texcoord0_scale_offset"),
            0x70 => Some("dynamic_sh_ao_values"),
            _ => None,
        }
    }
}

impl Default for RigidModel {
    /// Zero scalars and vectors, identity matrices, absent texture views.
    fn default() -> (r: Self)
        ensures
            r == (RigidModel {
                mesh_to_world: spec_mat4_identity(),
                position_scale: spec_vec4_zero(),
                position_offset: spec_vec4_zero(),
                texcoord0_scale_offset: spec_vec4_zero(),
                dynamic_sh_ao_values: spec_vec4_zero(),
            }),
    {
        RigidModel {
            mesh_to_world: Mat4Bits::identity(),
            position_scale: Vec4Bits::zero(),
            position_offset: Vec4Bits::zero(),
            texcoord0_scale_offset: Vec4Bits::zero(),
            dynamic_sh_ao_values: Vec4Bits::zero(),
        }
    }
}


/// Every backed slot of the "frame" block stores a value of its
/// registered type.
pub proof fn lemma_frame_fields_typed(b: Frame, offset: usize)
    ensures
        Frame::layout(offset) matches Some(slot) ==> spec_value_type(b.field_at(offset))
            == slot.ftype,
{
}

/// Every backed slot of the "view" block stores a value of its
/// registered type.
pub proof fn lemma_view_fields_typed(b: ViewExtern, offset: usize)
    ensures
        ViewExtern::layout(offset) matches Some(slot) ==> spec_value_type(b.field_at(offset))
            == slot.ftype,
{
}

/// Every backed slot of the "deferred" block stores a value of its
/// registered type.
pub proof fn lemma_deferred_fields_typed(b: Deferred, offset: usize)
    ensures
        Deferred::layout(offset) matches Some(slot) ==> spec_value_type(b.field_at(offset))
            == slot.ftype,
{
}

/// Every backed slot of the "deferred_light" block stores a value of its
/// registered type.
pub proof fn lemma_deferred_light_fields_typed(b: DeferredLight, offset: usize)
    ensures
        DeferredLight::layout(offset) matches Some(slot) ==> spec_value_type(b.field_at(offset))
            == slot.ftype,
{
}

/// Every backed slot of the "transparent" block stores a value of its
/// registered type.
pub proof fn lemma_transparent_fields_typed(b: Transparent, offset: usize)
    ensures
        Transparent::layout(offset) matches Some(slot) ==> spec_value_type(b.field_at(offset))
            == slot.ftype,
{
}

/// Every backed slot of the "simple_geometry" block stores a value of its
/// registered type.
pub proof fn lemma_simple_geometry_fields_typed(b: SimpleGeometry, offset: usize)
    ensures
        SimpleGeometry::layout(offset) matches Some(slot) ==> spec_value_type(b.field_at(offset))
            == slot.ftype,
{
}

/// Every backed slot of the "decal" block stores a value of its
/// registered type.
pub proof fn lemma_decal_fields_typed(b: Decal, offset: usize)
    ensures
        Decal::layout(offset) matches Some(slot) ==> spec_value_type(b.field_at(offset))
            == slot.ftype,
{
}

/// Every backed slot of the "rigid_model" block stores a value of its
/// registered type.
pub proof fn lemma_rigid_model_fields_typed(b: RigidModel, offset: usize)
    ensures
        RigidModel::layout(offset) matches Some(slot) ==> spec_value_type(b.field_at(offset))
            == slot.ftype,
{
}

} // verus!
