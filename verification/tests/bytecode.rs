use tfx::blocks::{Frame, ViewExtern};
use tfx::diag::{ErrorKey, StorageFailure, TfxEvalError};
use tfx::interpreter::TfxBytecodeInterpreter;
use tfx::kinds::TfxExtern;
use tfx::loaders::{
    load_index_buffer, load_technique, CbufferSource, IndexBufferFormat, StageInput,
    TfxShaderStage,
};
use tfx::opcodes::TfxBytecodeOp;
use tfx::storage::ExternStorage;
use tfx::values::Vec4Bits;

fn vec4_bits(x: f32, y: f32, z: f32, w: f32) -> Vec4Bits {
    Vec4Bits { x: x.to_bits(), y: y.to_bits(), z: z.to_bits(), w: w.to_bits() }
}

fn vec4_floats(v: Vec4Bits) -> [f32; 4] {
    [
        f32::from_bits(v.x),
        f32::from_bits(v.y),
        f32::from_bits(v.z),
        f32::from_bits(v.w),
    ]
}

#[test]
fn codec_round_trips_every_opcode() {
    let ops = vec![
        TfxBytecodeOp::PushConstVec4 { constant_index: 3 },
        TfxBytecodeOp::PushFloatImm { bits: 1.25f32.to_bits() },
        TfxBytecodeOp::PushVec4Imm { value: vec4_bits(1.0, -2.0, 3.5, 0.0) },
        TfxBytecodeOp::PushExternFloat { kind: TfxExtern::View, offset: 0x04 },
        TfxBytecodeOp::PushExternVec4 { kind: TfxExtern::RigidModel, offset: 0x140 },
        TfxBytecodeOp::Add,
        TfxBytecodeOp::Subtract,
        TfxBytecodeOp::Multiply,
        TfxBytecodeOp::Splat,
        TfxBytecodeOp::SkipIfAllZero { count: 2 },
        TfxBytecodeOp::StoreOutput { slot: 7 },
    ];
    let bytes = TfxBytecodeOp::encode_all(&ops);
    let decoded = TfxBytecodeOp::parse_all(&bytes).expect("well-formed stream");
    assert_eq!(decoded, ops);
}

#[test]
fn truncated_and_unknown_streams_are_faults() {
    let ops = vec![TfxBytecodeOp::PushFloatImm { bits: 1.0f32.to_bits() }];
    let mut bytes = TfxBytecodeOp::encode_all(&ops);
    bytes.pop();
    assert!(TfxBytecodeOp::parse_all(&bytes).is_err());

    // An unknown opcode byte.
    assert!(TfxBytecodeOp::parse_all(&[0xff]).is_err());
    // A tag code beyond the enumeration.
    assert!(TfxBytecodeOp::parse_all(&[0x04, 200, 0x00, 0x00]).is_err());
    // A fault anywhere rejects the whole stream, not a prefix of it.
    let mut bytes = TfxBytecodeOp::encode_all(&ops);
    bytes.push(0xff);
    assert!(TfxBytecodeOp::parse_all(&bytes).is_err());
    // The empty stream is a valid empty sequence.
    assert_eq!(TfxBytecodeOp::parse_all(&[]).expect("empty"), vec![]);
}

fn stage_input(has_shader: bool, bytecode: Vec<u8>) -> StageInput {
    StageInput { has_shader, has_buffer_tag: false, inline_len: 0, bytecode }
}

#[test]
fn corrupt_stage_degrades_only_itself() {
    let good = TfxBytecodeOp::encode_all(&vec![
        TfxBytecodeOp::PushVec4Imm { value: vec4_bits(1.0, 2.0, 3.0, 4.0) },
        TfxBytecodeOp::StoreOutput { slot: 0 },
    ]);

    let vertex = stage_input(true, good.clone());
    let geometry = stage_input(false, vec![]);
    let pixel = stage_input(true, vec![0xff, 0x01, 0x02]);
    let compute = stage_input(false, vec![]);

    let technique = load_technique(&vertex, &geometry, &pixel, &compute);

    // The corrupt pixel stream leaves the pixel stage without bytecode...
    let pixel_stage = technique.stage_pixel.expect("stage loads despite corrupt bytecode");
    assert!(pixel_stage.bytecode.is_none());
    assert_eq!(pixel_stage.stage, TfxShaderStage::Pixel);
    // ...while its siblings keep theirs.
    let vertex_stage = technique.stage_vertex.expect("vertex stage loads");
    assert_eq!(vertex_stage.bytecode.expect("vertex bytecode decodes").opcodes.len(), 2);
    assert!(technique.stage_geometry.is_none());
    assert!(technique.stage_compute.is_none());
}

#[test]
fn cbuffer_source_prefers_header_reference() {
    let header = StageInput {
        has_shader: true,
        has_buffer_tag: true,
        inline_len: 4,
        bytecode: vec![],
    };
    let inline = StageInput {
        has_shader: true,
        has_buffer_tag: false,
        inline_len: 4,
        bytecode: vec![],
    };
    let bare = stage_input(true, vec![]);
    let technique = load_technique(&header, &inline, &bare, &stage_input(false, vec![]));
    assert_eq!(technique.stage_vertex.unwrap().cbuffer, CbufferSource::HeaderRef);
    assert_eq!(technique.stage_geometry.unwrap().cbuffer, CbufferSource::Inline);
    assert_eq!(technique.stage_pixel.unwrap().cbuffer, CbufferSource::Absent);
}

#[test]
fn index_buffer_format_follows_header_flag() {
    let wide = load_index_buffer(1024, true);
    assert_eq!(wide.size, 1024);
    assert_eq!(wide.format, IndexBufferFormat::R32Uint);
    let narrow = load_index_buffer(64, false);
    assert_eq!(narrow.format, IndexBufferFormat::R16Uint);
}

fn run(
    ops: Vec<TfxBytecodeOp>,
    storage: &mut ExternStorage,
    constants: &Vec<Vec4Bits>,
    buffer: &mut Vec<Vec4Bits>,
) -> Result<(), TfxEvalError> {
    TfxBytecodeInterpreter::new(ops).evaluate_into(storage, constants, buffer)
}

#[test]
fn scalar_arithmetic_matches_ieee_sums() {
    let mut storage = ExternStorage::default();
    let consts = vec![];
    let mut buffer = vec![Vec4Bits { x: 0, y: 0, z: 0, w: 0 }];

    let ops = vec![
        TfxBytecodeOp::PushFloatImm { bits: 1.5f32.to_bits() },
        TfxBytecodeOp::PushFloatImm { bits: 2.25f32.to_bits() },
        TfxBytecodeOp::Add,
        TfxBytecodeOp::Splat,
        TfxBytecodeOp::StoreOutput { slot: 0 },
    ];
    run(ops, &mut storage, &consts, &mut buffer).expect("evaluation halts normally");
    assert_eq!(buffer[0], vec4_bits(3.75, 3.75, 3.75, 3.75));

    let ops = vec![
        TfxBytecodeOp::PushFloatImm { bits: 10.0f32.to_bits() },
        TfxBytecodeOp::PushFloatImm { bits: 0.125f32.to_bits() },
        TfxBytecodeOp::Subtract,
        TfxBytecodeOp::Splat,
        TfxBytecodeOp::StoreOutput { slot: 0 },
    ];
    run(ops, &mut storage, &consts, &mut buffer).expect("evaluation halts normally");
    assert_eq!(vec4_floats(buffer[0]), [9.875; 4]);
}

#[test]
fn vector_arithmetic_matches_glam() {
    let mut storage = ExternStorage::default();
    let consts = vec![];
    let mut buffer = vec![Vec4Bits { x: 0, y: 0, z: 0, w: 0 }];

    let a = [1.5f32, -2.0, 3.25, 1.0e20];
    let b = [0.5f32, 7.0, -1.25, 3.0];
    let ops = vec![
        TfxBytecodeOp::PushVec4Imm { value: vec4_bits(a[0], a[1], a[2], a[3]) },
        TfxBytecodeOp::PushVec4Imm { value: vec4_bits(b[0], b[1], b[2], b[3]) },
        TfxBytecodeOp::Multiply,
        TfxBytecodeOp::StoreOutput { slot: 0 },
    ];
    run(ops, &mut storage, &consts, &mut buffer).expect("evaluation halts normally");
    let expected = glam::Vec4::from_array(a) * glam::Vec4::from_array(b);
    assert_eq!(vec4_floats(buffer[0]), expected.to_array());
}

#[test]
fn constant_pool_indexing() {
    let mut storage = ExternStorage::default();
    let consts = vec![vec4_bits(9.0, 8.0, 7.0, 6.0)];
    let mut buffer = vec![Vec4Bits { x: 0, y: 0, z: 0, w: 0 }];

    let ops = vec![
        TfxBytecodeOp::PushConstVec4 { constant_index: 0 },
        TfxBytecodeOp::StoreOutput { slot: 0 },
    ];
    run(ops, &mut storage, &consts, &mut buffer).expect("evaluation halts normally");
    assert_eq!(buffer[0], vec4_bits(9.0, 8.0, 7.0, 6.0));

    let ops = vec![TfxBytecodeOp::PushConstVec4 { constant_index: 1 }];
    assert_eq!(
        run(ops, &mut storage, &consts, &mut buffer),
        Err(TfxEvalError::ConstantOutOfBounds)
    );
}

#[test]
fn extern_fetch_reads_live_blocks() {
    let mut storage = ExternStorage::default();
    storage.view = Some(ViewExtern {
        resolution_width: 1920.0f32.to_bits(),
        ..Default::default()
    });
    let consts = vec![];
    let mut buffer = vec![Vec4Bits { x: 0, y: 0, z: 0, w: 0 }];

    let ops = vec![
        TfxBytecodeOp::PushExternFloat { kind: TfxExtern::View, offset: 0x00 },
        TfxBytecodeOp::Splat,
        TfxBytecodeOp::StoreOutput { slot: 0 },
    ];
    run(ops, &mut storage, &consts, &mut buffer).expect("evaluation halts normally");
    assert_eq!(vec4_floats(buffer[0]), [1920.0; 4]);
    assert_eq!(storage.errors.len(), 0);
}

#[test]
fn failed_fetch_substitutes_default_and_continues() {
    let mut storage = ExternStorage::default();
    let consts = vec![];
    let mut buffer = vec![vec4_bits(5.0, 5.0, 5.0, 5.0)];

    // The frame block is not populated: the fetch yields 0.0 and evaluation
    // carries on to a normal halt.
    let ops = vec![
        TfxBytecodeOp::PushExternFloat { kind: TfxExtern::Frame, offset: 0x00 },
        TfxBytecodeOp::PushFloatImm { bits: 2.0f32.to_bits() },
        TfxBytecodeOp::Add,
        TfxBytecodeOp::Splat,
        TfxBytecodeOp::StoreOutput { slot: 0 },
    ];
    run(ops, &mut storage, &consts, &mut buffer).expect("evaluation halts normally");
    assert_eq!(vec4_floats(buffer[0]), [2.0; 4]);

    // The failure is aggregated in the diagnostics under the full key.
    let record = storage
        .errors
        .get(ErrorKey::Storage {
            kind: TfxExtern::Frame,
            offset: 0x00,
            requested: tfx::values::FieldType::Float,
            failure: StorageFailure::NotSet,
        })
        .expect("fetch failure recorded");
    assert_eq!(record.repeat_count, 1);
}

#[test]
fn skip_branches_forward_only() {
    let mut storage = ExternStorage::default();
    let consts = vec![];
    let a = vec4_bits(1.0, 1.0, 1.0, 1.0);
    let b = vec4_bits(2.0, 2.0, 2.0, 2.0);

    let program = |cond: f32| {
        vec![
            TfxBytecodeOp::PushFloatImm { bits: cond.to_bits() },
            TfxBytecodeOp::SkipIfAllZero { count: 2 },
            TfxBytecodeOp::PushVec4Imm { value: a },
            TfxBytecodeOp::StoreOutput { slot: 0 },
            TfxBytecodeOp::PushVec4Imm { value: b },
            TfxBytecodeOp::StoreOutput { slot: 1 },
        ]
    };

    let zero = Vec4Bits { x: 0, y: 0, z: 0, w: 0 };
    let mut buffer = vec![zero, zero];
    run(program(0.0), &mut storage, &consts, &mut buffer).expect("evaluation halts normally");
    // A zero condition skips the first store; negative zero counts as zero.
    assert_eq!(buffer[0], zero);
    assert_eq!(buffer[1], b);

    let mut buffer = vec![zero, zero];
    run(program(-0.0), &mut storage, &consts, &mut buffer).expect("evaluation halts normally");
    assert_eq!(buffer[0], zero);

    let mut buffer = vec![zero, zero];
    run(program(3.0), &mut storage, &consts, &mut buffer).expect("evaluation halts normally");
    assert_eq!(buffer[0], a);
    assert_eq!(buffer[1], b);

    // A skip beyond the end simply ends the evaluation.
    let mut buffer = vec![zero, zero];
    let ops = vec![
        TfxBytecodeOp::PushFloatImm { bits: 0.0f32.to_bits() },
        TfxBytecodeOp::SkipIfAllZero { count: 200 },
        TfxBytecodeOp::PushVec4Imm { value: a },
        TfxBytecodeOp::StoreOutput { slot: 0 },
    ];
    run(ops, &mut storage, &consts, &mut buffer).expect("evaluation halts normally");
    assert_eq!(buffer[0], zero);
}

#[test]
fn faulted_evaluation_discards_partial_output() {
    let mut storage = ExternStorage::default();
    let consts = vec![];
    let prior0 = vec4_bits(10.0, 11.0, 12.0, 13.0);
    let prior1 = vec4_bits(20.0, 21.0, 22.0, 23.0);
    let mut buffer = vec![prior0, prior1];

    // The first write is fine; the second pops a scalar where a vector is
    // required and faults.
    let ops = vec![
        TfxBytecodeOp::PushVec4Imm { value: vec4_bits(1.0, 2.0, 3.0, 4.0) },
        TfxBytecodeOp::StoreOutput { slot: 0 },
        TfxBytecodeOp::PushFloatImm { bits: 1.0f32.to_bits() },
        TfxBytecodeOp::StoreOutput { slot: 1 },
    ];
    assert_eq!(
        run(ops, &mut storage, &consts, &mut buffer),
        Err(TfxEvalError::TypeMismatch)
    );

    // No output slot shows a value from the faulted evaluation.
    assert_eq!(buffer[0], prior0);
    assert_eq!(buffer[1], prior1);

    // The fault is reported once through the diagnostics.
    let record = storage
        .errors
        .get(ErrorKey::Eval { fault: TfxEvalError::TypeMismatch })
        .expect("fault recorded");
    assert_eq!(record.repeat_count, 1);
    assert_eq!(storage.errors.len(), 1);
}

#[test]
fn operand_faults_halt_the_evaluation() {
    let mut storage = ExternStorage::default();
    let consts = vec![];
    let mut buffer = vec![Vec4Bits { x: 0, y: 0, z: 0, w: 0 }];

    let ops = vec![TfxBytecodeOp::Add];
    assert_eq!(
        run(ops, &mut storage, &consts, &mut buffer),
        Err(TfxEvalError::StackUnderflow)
    );

    // Mixing a scalar and a vector in arithmetic is a type mismatch.
    let ops = vec![
        TfxBytecodeOp::PushFloatImm { bits: 1.0f32.to_bits() },
        TfxBytecodeOp::PushVec4Imm { value: vec4_bits(1.0, 2.0, 3.0, 4.0) },
        TfxBytecodeOp::Add,
    ];
    assert_eq!(
        run(ops, &mut storage, &consts, &mut buffer),
        Err(TfxEvalError::TypeMismatch)
    );

    let ops = vec![
        TfxBytecodeOp::PushVec4Imm { value: vec4_bits(1.0, 2.0, 3.0, 4.0) },
        TfxBytecodeOp::StoreOutput { slot: 9 },
    ];
    assert_eq!(
        run(ops, &mut storage, &consts, &mut buffer),
        Err(TfxEvalError::OutputOutOfBounds)
    );

    // Frame's 0x78 field is a 64-bit integer slot flagged unbacked; fetching
    // it as a float substitutes 0.0, and the sum with 2.0 shows the fetch
    // did not hand the argument through untouched.
    let mut storage = ExternStorage::default();
    storage.frame = Some(Frame::default());
    let ops = vec![
        TfxBytecodeOp::PushExternFloat { kind: TfxExtern::Frame, offset: 0x78 },
        TfxBytecodeOp::Splat,
        TfxBytecodeOp::StoreOutput { slot: 0 },
    ];
    run(ops, &mut storage, &consts, &mut buffer).expect("evaluation halts normally");
    assert_eq!(buffer[0], vec4_bits(0.0, 0.0, 0.0, 0.0));
    assert_eq!(storage.errors.len(), 1);
}
