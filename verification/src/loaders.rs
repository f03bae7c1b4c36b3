//! Loading decisions for techniques and index buffers.
//!
//! The package store and the GPU are outside collaborators: they hand in raw
//! bytes and flags and take back creation requests. What is decided here —
//! which stages exist, where a stage's constant buffer comes from, whether a
//! stage keeps its bytecode, which index format a buffer uses — is total:
//! a malformed bytecode stream degrades its own stage to "no bytecode" and
//! never fails the technique as a whole.

use vstd::prelude::*;

use crate::interpreter::TfxBytecodeInterpreter;
use crate::opcodes::{spec_decode, TfxBytecodeOp};

verus! {

/// The shader stages a technique bundles.
#[derive(Clone, Copy, Debug, PartialEq, Eq, Structural)]
pub enum TfxShaderStage {
    Vertex,
    Geometry,
    Pixel,
    Compute,
}

/// Where a stage's constant buffer is initialized from.
#[derive(Clone, Copy, Debug, PartialEq, Eq, Structural)]
pub enum CbufferSource {
    /// Read through the package store from the shader header's reference.
    HeaderRef,
    /// The inline constant words carried by the shader header itself.
    Inline,
    /// The stage has no constant buffer.
    Absent,
}

/// A header reference wins over inline data; inline data is used only when
/// present; otherwise the stage has no constant buffer.
pub open spec fn spec_cbuffer_source(has_buffer_tag: bool, inline_len: usize) -> CbufferSource {
    if has_buffer_tag {
        CbufferSource::HeaderRef
    } else if inline_len > 0 {
        CbufferSource::Inline
    } else {
        CbufferSource::Absent
    }
}

/// Chooses where a stage's constant buffer comes from.
pub fn choose_cbuffer_source(has_buffer_tag: bool, inline_len: usize) -> (r: CbufferSource)
    ensures
        r == spec_cbuffer_source(has_buffer_tag, inline_len),
{
    if has_buffer_tag {
        CbufferSource::HeaderRef
    } else if inline_len > 0 {
        CbufferSource::Inline
    } else {
        CbufferSource::Absent
    }
}

/// One loaded stage: its stage tag, its constant-buffer source, and its
/// decoded bytecode — absent when the stream was malformed.
pub struct TechniqueStage {
    pub stage: TfxShaderStage,
    pub cbuffer: CbufferSource,
    pub bytecode: Option<TfxBytecodeInterpreter>,
}

/// The raw inputs one stage is loaded from, as read from the package store.
pub struct StageInput {
    /// The header names a shader module for this stage.
    pub has_shader: bool,
    /// The header references a constant buffer in the package store.
    pub has_buffer_tag: bool,
    /// How many inline constant words the header carries.
    pub inline_len: usize,
    /// The stage's raw bytecode stream.
    pub bytecode: Vec<u8>,
}

/// What loading one stage promises: no stage without a shader; otherwise the
/// stage tag and constant-buffer choice are as given, and the bytecode is
/// exactly the stream's decoding — or absent when decoding faults, leaving
/// the rest of the technique untouched.
pub open spec fn stage_plan_matches(
    r: Option<TechniqueStage>,
    stage: TfxShaderStage,
    has_shader: bool,
    has_buffer_tag: bool,
    inline_len: usize,
    bytecode: Seq<u8>,
) -> bool {
    if !has_shader {
        r is None
    } else {
        &&& r matches Some(p)
        &&& r matches Some(p) ==> {
            &&& p.stage == stage
            &&& p.cbuffer == spec_cbuffer_source(has_buffer_tag, inline_len)
            &&& match spec_decode(bytecode) {
                Some(ops) => p.bytecode matches Some(i) && i.opcodes@ == ops,
                None => p.bytecode is None,
            }
        }
    }
}

/// Loads one technique stage from its raw inputs.
pub fn load_technique_stage(
    stage: TfxShaderStage,
    input: &StageInput,
) -> (r: Option<TechniqueStage>)
    ensures
        stage_plan_matches(
            r,
            stage,
            input.has_shader,
            input.has_buffer_tag,
            input.inline_len,
            input.bytecode@,
        ),
{
    if !input.has_shader {
        return None;
    }
    let bytecode = match TfxBytecodeOp::parse_all(input.bytecode.as_slice()) {
        Ok(ops) => Some(TfxBytecodeInterpreter::new(ops)),
        Err(_) => None,
    };
    Some(
        TechniqueStage {
            stage,
            cbuffer: choose_cbuffer_source(input.has_buffer_tag, input.inline_len),
            bytecode,
        },
    )
}

/// A shader program bundle: up to four loaded stages.
pub struct Technique {
    pub stage_vertex: Option<TechniqueStage>,
    pub stage_geometry: Option<TechniqueStage>,
    pub stage_pixel: Option<TechniqueStage>,
    pub stage_compute: Option<TechniqueStage>,
}

/// Loads a technique from its four stages' raw inputs. Every stage is loaded
/// independently: a corrupt bytecode stream for one stage leaves that stage
/// without bytecode and has no effect on its siblings or on the technique.
pub fn load_technique(
    vertex: &StageInput,
    geometry: &StageInput,
    pixel: &StageInput,
    compute: &StageInput,
) -> (r: Technique)
    ensures
        stage_plan_matches(
            r.stage_vertex,
            TfxShaderStage::Vertex,
            vertex.has_shader,
            vertex.has_buffer_tag,
            vertex.inline_len,
            vertex.bytecode@,
        ),
        stage_plan_matches(
            r.stage_geometry,
            TfxShaderStage::Geometry,
            geometry.has_shader,
            geometry.has_buffer_tag,
            geometry.inline_len,
            geometry.bytecode@,
        ),
        stage_plan_matches(
            r.stage_pixel,
            TfxShaderStage::Pixel,
            pixel.has_shader,
            pixel.has_buffer_tag,
            pixel.inline_len,
            pixel.bytecode@,
        ),
        stage_plan_matches(
            r.stage_compute,
            TfxShaderStage::Compute,
            compute.has_shader,
            compute.has_buffer_tag,
            compute.inline_len,
            compute.bytecode@,
        ),
{
    Technique {
        stage_vertex: load_technique_stage(TfxShaderStage::Vertex, vertex),
        stage_geometry: load_technique_stage(TfxShaderStage::Geometry, geometry),
        stage_pixel: load_technique_stage(TfxShaderStage::Pixel, pixel),
        stage_compute: load_technique_stage(TfxShaderStage::Compute, compute),
    }
}

/// Validates a package entry as a sampler header: the store files samplers
/// under entry type 34, subtype 1; anything else is rejected before its
/// bytes reach sampler creation.
pub fn sampler_entry_matches(file_type: u8, file_subtype: u8) -> (r: bool)
    ensures
        r == (file_type == 34 && file_subtype == 1),
{
    file_type == 34 && file_subtype == 1
}

/// The element format of an index buffer.
#[derive(Clone, Copy, Debug, PartialEq, Eq, Structural)]
pub enum IndexBufferFormat {
    R16Uint,
    R32Uint,
}

/// An index buffer's creation parameters, as decided from its header.
pub struct IndexBuffer {
    pub size: u64,
    pub format: IndexBufferFormat,
}

/// Decides an index buffer's size and element format from its header: the
/// 32-bit flag selects the wide format, anything else the narrow one.
pub fn load_index_buffer(data_size: u64, is_32bit: bool) -> (r: IndexBuffer)
    ensures
        r.size == data_size,
        r.format == (if is_32bit {
            IndexBufferFormat::R32Uint
        } else {
            IndexBufferFormat::R16Uint
        }),
{
    IndexBuffer {
        size: data_size,
        format: if is_32bit {
            IndexBufferFormat::R32Uint
        } else {
            IndexBufferFormat::R16Uint
        },
    }
}

} // verus!
