//! The stack machine that evaluates a decoded instruction sequence.
//!
//! One evaluation walks the sequence with a value stack and a scratch copy of
//! the destination image. Extern fetches that fail substitute the type's
//! default and keep going; a runtime fault (type or operand mismatch) halts
//! just this evaluation, discards its partial output, and is reported once
//! through the diagnostics. Branches only skip forward, so every evaluation
//! terminates.
//!
//! The whole machine is specified by a step function over a ghost state; the
//! executable loop is proven to follow it step for step.

use vstd::prelude::*;

use crate::diag::{
    spec_apply_diags, DiagEvent, ErrorKey, TfxEvalError, TfxExpressionErrorType,
};
use crate::fields::ExternValue;
use crate::mathops::{
    scalar_add_bits, scalar_mul_bits, scalar_sub_bits, spec_vec4_add, spec_vec4_mul,
    spec_vec4_sub, vec4_add_bits, vec4_mul_bits, vec4_sub_bits,
};
use crate::opcodes::TfxBytecodeOp;
use crate::storage::{blocks_eq, spec_failure_detail, spec_failure_key, ExternStorage};
use crate::values::{spec_vec4_zero, FieldType, FieldValue, Vec4Bits};

verus! {

/// A value on the evaluation stack: a scalar or a four-lane vector, both as
/// raw bit patterns.
#[derive(Clone, Copy, Debug, PartialEq, Eq, Structural)]
pub enum StackValue {
    Float(u32),
    Vector(Vec4Bits),
}

/// The ghost state of one evaluation: instruction pointer, value stack,
/// scratch output image, the fault that halted it (if any), and the
/// diagnostic emissions so far, in order.
pub struct EvalState {
    pub ip: int,
    pub stack: Seq<StackValue>,
    pub out: Seq<Vec4Bits>,
    pub fault: Option<TfxEvalError>,
    pub diags: Seq<DiagEvent>,
}

/// An exact IEEE zero in either sign.
pub open spec fn spec_is_zero_bits(b: u32) -> bool {
    b & 0x7fff_ffff == 0
}

/// Every lane of the value is an exact zero.
pub open spec fn spec_all_zero(v: StackValue) -> bool {
    match v {
        StackValue::Float(b) => spec_is_zero_bits(b),
        StackValue::Vector(q) => spec_is_zero_bits(q.x) && spec_is_zero_bits(q.y)
            && spec_is_zero_bits(q.z) && spec_is_zero_bits(q.w),
    }
}

/// Halting on a fault: the fault is latched and reported once through the
/// diagnostics.
pub open spec fn spec_fault(st: EvalState, e: TfxEvalError) -> EvalState {
    EvalState {
        ip: st.ip + 1,
        stack: st.stack,
        out: st.out,
        fault: Some(e),
        diags: st.diags.push(
            DiagEvent {
                key: ErrorKey::Eval { fault: e },
                detail: TfxExpressionErrorType::EvalFault(e),
            },
        ),
    }
}

/// A pure push of one value.
pub open spec fn spec_push(st: EvalState, v: StackValue) -> EvalState {
    EvalState {
        ip: st.ip + 1,
        stack: st.stack.push(v),
        out: st.out,
        fault: st.fault,
        diags: st.diags,
    }
}

/// A two-operand arithmetic step: scalars pair with scalars and vectors with
/// vectors, lane by lane; anything else is a type-mismatch fault.
pub open spec fn spec_binop(
    st: EvalState,
    op: TfxBytecodeOp,
    a: StackValue,
    b: StackValue,
) -> EvalState {
    let popped = st.stack.drop_last().drop_last();
    match (a, b) {
        (StackValue::Float(x), StackValue::Float(y)) => {
            let r = match op {
                TfxBytecodeOp::Add => crate::mathops::f32_add_bits(x, y),
                TfxBytecodeOp::Subtract => crate::mathops::f32_sub_bits(x, y),
                _ => crate::mathops::f32_mul_bits(x, y),
            };
            EvalState {
                ip: st.ip + 1,
                stack: popped.push(StackValue::Float(r)),
                out: st.out,
                fault: st.fault,
                diags: st.diags,
            }
        },
        (StackValue::Vector(p), StackValue::Vector(q)) => {
            let r = match op {
                TfxBytecodeOp::Add => spec_vec4_add(p, q),
                TfxBytecodeOp::Subtract => spec_vec4_sub(p, q),
                _ => spec_vec4_mul(p, q),
            };
            EvalState {
                ip: st.ip + 1,
                stack: popped.push(StackValue::Vector(r)),
                out: st.out,
                fault: st.fault,
                diags: st.diags,
            }
        },
        _ => spec_fault(st, TfxEvalError::TypeMismatch),
    }
}

/// The scalar an Extern fetch leaves on the stack: the stored bits on a typed
/// match, the zero default on any failure.
pub open spec fn spec_fetched_float(outcome: ExternValue) -> u32 {
    match outcome {
        ExternValue::Value(FieldValue::Float(b)) => b,
        _ => 0u32,
    }
}

/// The vector an Extern fetch leaves on the stack: the stored bits on a typed
/// match, the zero default on any failure.
pub open spec fn spec_fetched_vec4(outcome: ExternValue) -> Vec4Bits {
    match outcome {
        ExternValue::Value(FieldValue::Vec4(v)) => v,
        _ => spec_vec4_zero(),
    }
}

/// The diagnostics after an Extern fetch: unchanged on success, one emission
/// under the resolution's key on failure.
pub open spec fn spec_fetch_diags(
    diags: Seq<DiagEvent>,
    kind: crate::kinds::TfxExtern,
    offset: usize,
    want: FieldType,
    outcome: ExternValue,
) -> Seq<DiagEvent> {
    match outcome {
        ExternValue::Value(_) => diags,
        _ => diags.push(
            DiagEvent {
                key: spec_failure_key(kind, offset, want, outcome),
                detail: spec_failure_detail(offset, outcome),
            },
        ),
    }
}

/// One machine step at `st.ip`.
pub open spec fn spec_step(
    ops: Seq<TfxBytecodeOp>,
    consts: Seq<Vec4Bits>,
    env: ExternStorage,
    st: EvalState,
) -> EvalState
    recommends
        st.fault is None,
        0 <= st.ip < ops.len(),
{
    match ops[st.ip] {
        TfxBytecodeOp::PushConstVec4 { constant_index } => {
            if (constant_index as int) < consts.len() {
                spec_push(st, StackValue::Vector(consts[constant_index as int]))
            } else {
                spec_fault(st, TfxEvalError::ConstantOutOfBounds)
            }
        },
        TfxBytecodeOp::PushFloatImm { bits } => spec_push(st, StackValue::Float(bits)),
        TfxBytecodeOp::PushVec4Imm { value } => spec_push(st, StackValue::Vector(value)),
        TfxBytecodeOp::PushExternFloat { kind, offset } => {
            let outcome = env.resolve_spec(kind, offset as usize, FieldType::Float);
            EvalState {
                ip: st.ip + 1,
                stack: st.stack.push(StackValue::Float(spec_fetched_float(outcome))),
                out: st.out,
                fault: st.fault,
                diags: spec_fetch_diags(
                    st.diags,
                    kind,
                    offset as usize,
                    FieldType::Float,
                    outcome,
                ),
            }
        },
        TfxBytecodeOp::PushExternVec4 { kind, offset } => {
            let outcome = env.resolve_spec(kind, offset as usize, FieldType::Vec4);
            EvalState {
                ip: st.ip + 1,
                stack: st.stack.push(StackValue::Vector(spec_fetched_vec4(outcome))),
                out: st.out,
                fault: st.fault,
                diags: spec_fetch_diags(
                    st.diags,
                    kind,
                    offset as usize,
                    FieldType::Vec4,
                    outcome,
                ),
            }
        },
        TfxBytecodeOp::Add | TfxBytecodeOp::Subtract | TfxBytecodeOp::Multiply => {
            if st.stack.len() < 2 {
                spec_fault(st, TfxEvalError::StackUnderflow)
            } else {
                spec_binop(st, ops[st.ip], st.stack[st.stack.len() - 2], st.stack.last())
            }
        },
        TfxBytecodeOp::Splat => {
            if st.stack.len() < 1 {
                spec_fault(st, TfxEvalError::StackUnderflow)
            } else {
                match st.stack.last() {
                    StackValue::Float(b) => EvalState {
                        ip: st.ip + 1,
                        stack: st.stack.drop_last().push(
                            StackValue::Vector(Vec4Bits { x: b, y: b, z: b, w: b }),
                        ),
                        out: st.out,
                        fault: st.fault,
                        diags: st.diags,
                    },
                    StackValue::Vector(_) => spec_fault(st, TfxEvalError::TypeMismatch),
                }
            }
        },
        TfxBytecodeOp::SkipIfAllZero { count } => {
            if st.stack.len() < 1 {
                spec_fault(st, TfxEvalError::StackUnderflow)
            } else {
                let cond = st.stack.last();
                let fallthrough = st.ip + 1;
                let target = if spec_all_zero(cond) {
                    if fallthrough + count <= ops.len() {
                        fallthrough + count
                    } else {
                        ops.len() as int
                    }
                } else {
                    fallthrough
                };
                EvalState {
                    ip: target,
                    stack: st.stack.drop_last(),
                    out: st.out,
                    fault: st.fault,
                    diags: st.diags,
                }
            }
        },
        TfxBytecodeOp::StoreOutput { slot } => {
            if st.stack.len() < 1 {
                spec_fault(st, TfxEvalError::StackUnderflow)
            } else {
                match st.stack.last() {
                    StackValue::Vector(v) => {
                        if (slot as int) < st.out.len() {
                            EvalState {
                                ip: st.ip + 1,
                                stack: st.stack.drop_last(),
                                out: st.out.update(slot as int, v),
                                fault: st.fault,
                                diags: st.diags,
                            }
                        } else {
                            spec_fault(st, TfxEvalError::OutputOutOfBounds)
                        }
                    },
                    StackValue::Float(_) => spec_fault(st, TfxEvalError::TypeMismatch),
                }
            }
        },
    }
}

proof fn lemma_step_bounds(
    ops: Seq<TfxBytecodeOp>,
    consts: Seq<Vec4Bits>,
    env: ExternStorage,
    st: EvalState,
)
    requires
        st.fault is None,
        0 <= st.ip < ops.len(),
    ensures
        st.ip < spec_step(ops, consts, env, st).ip <= ops.len(),
{
}

/// Running the machine to completion: stepping until a fault is latched or
/// the instruction pointer leaves the sequence.
pub open spec fn spec_run(
    ops: Seq<TfxBytecodeOp>,
    consts: Seq<Vec4Bits>,
    env: ExternStorage,
    st: EvalState,
) -> EvalState
    decreases ops.len() - st.ip
        when 0 <= st.ip <= ops.len()
        via spec_run_decreases
{
    if st.fault is Some || st.ip >= ops.len() {
        st
    } else {
        spec_run(ops, consts, env, spec_step(ops, consts, env, st))
    }
}

#[via_fn]
proof fn spec_run_decreases(
    ops: Seq<TfxBytecodeOp>,
    consts: Seq<Vec4Bits>,
    env: ExternStorage,
    st: EvalState,
) {
    if !(st.fault is Some || st.ip >= ops.len()) {
        lemma_step_bounds(ops, consts, env, st);
    }
}

/// Every run halts: branches only move the instruction pointer forward, so
/// the machine always ends with a latched fault or past the last
/// instruction.
pub proof fn lemma_run_halts(
    ops: Seq<TfxBytecodeOp>,
    consts: Seq<Vec4Bits>,
    env: ExternStorage,
    st: EvalState,
)
    requires
        0 <= st.ip <= ops.len(),
    ensures
        spec_run(ops, consts, env, st).fault is Some || spec_run(ops, consts, env, st).ip
            >= ops.len(),
    decreases ops.len() - st.ip,
{
    if !(st.fault is Some || st.ip >= ops.len()) {
        lemma_step_bounds(ops, consts, env, st);
        lemma_run_halts(ops, consts, env, spec_step(ops, consts, env, st));
    }
}

/// The machine state an evaluation starts from: nothing on the stack, the
/// destination image as scratch output, nothing emitted.
pub open spec fn spec_init_state(buffer: Seq<Vec4Bits>) -> EvalState {
    EvalState {
        ip: 0,
        stack: Seq::empty(),
        out: buffer,
        fault: None,
        diags: Seq::empty(),
    }
}

/// The final machine state of one evaluation.
pub open spec fn spec_eval(
    ops: Seq<TfxBytecodeOp>,
    consts: Seq<Vec4Bits>,
    env: ExternStorage,
    buffer: Seq<Vec4Bits>,
) -> EvalState {
    spec_run(ops, consts, env, spec_init_state(buffer))
}

/// What one evaluation produces: the full output image on a normal halt, the
/// halting fault otherwise.
pub open spec fn spec_eval_result(
    ops: Seq<TfxBytecodeOp>,
    consts: Seq<Vec4Bits>,
    env: ExternStorage,
    buffer: Seq<Vec4Bits>,
) -> Result<Seq<Vec4Bits>, TfxEvalError> {
    let fin = spec_eval(ops, consts, env, buffer);
    match fin.fault {
        Some(e) => Err(e),
        None => Ok(fin.out),
    }
}

/// The diagnostic emissions of one evaluation, in order.
pub open spec fn spec_eval_diags(
    ops: Seq<TfxBytecodeOp>,
    consts: Seq<Vec4Bits>,
    env: ExternStorage,
    buffer: Seq<Vec4Bits>,
) -> Seq<DiagEvent> {
    spec_eval(ops, consts, env, buffer).diags
}

/// Resolution reads only the block instances, never the diagnostics.
proof fn lemma_resolve_blocks_only(
    a: ExternStorage,
    b: ExternStorage,
    kind: crate::kinds::TfxExtern,
    offset: usize,
    want: FieldType,
)
    requires
        blocks_eq(a, b),
    ensures
        a.resolve_spec(kind, offset, want) == b.resolve_spec(kind, offset, want),
{
}

/// Tells whether every lane of the value is an exact IEEE zero.
fn all_zero(v: &StackValue) -> (r: bool)
    ensures
        r == spec_all_zero(*v),
{
    match v {
        StackValue::Float(b) => *b & 0x7fff_ffff == 0,
        StackValue::Vector(q) => (q.x & 0x7fff_ffff == 0) && (q.y & 0x7fff_ffff == 0) && (q.z
            & 0x7fff_ffff == 0) && (q.w & 0x7fff_ffff == 0),
    }
}

/// A decoded instruction sequence, cached for a technique stage's lifetime
/// and evaluated once per draw.
pub struct TfxBytecodeInterpreter {
    pub opcodes: Vec<TfxBytecodeOp>,
}

impl TfxBytecodeInterpreter {
    /// Wraps a decoded instruction sequence.
    pub fn new(opcodes: Vec<TfxBytecodeOp>) -> (r: Self)
        ensures
            r.opcodes == opcodes,
    {
        TfxBytecodeInterpreter { opcodes }
    }

    /// Evaluates the sequence against the storage's live blocks: hands back
    /// the destination image with this evaluation's writes applied, or the
    /// fault that halted it. Every Extern-fetch failure and every fault is
    /// counted in the storage's diagnostics, in order; the blocks themselves
    /// are never touched.
    pub fn evaluate(
        &self,
        storage: &mut ExternStorage,
        constants: &Vec<Vec4Bits>,
        buffer: &Vec<Vec4Bits>,
    ) -> (r: Result<Vec<Vec4Bits>, TfxEvalError>)
        ensures
            blocks_eq(*old(storage), *final(storage)),
            ({
                let outcome = spec_eval_result(self.opcodes@, constants@, *old(storage), buffer@);
                match outcome {
                    Ok(image) => r matches Ok(v) && v@ == image,
                    Err(e) => r == Err::<Vec<Vec4Bits>, TfxEvalError>(e),
                }
            }),
            final(storage).errors@ == spec_apply_diags(
                old(storage).errors@,
                spec_eval_diags(self.opcodes@, constants@, *old(storage), buffer@),
            ),
    {
        let ghost ops = self.opcodes@;
        let ghost consts = constants@;
        let ghost env = *old(storage);
        let ghost init = spec_init_state(buffer@);

        let mut out: Vec<Vec4Bits> = Vec::new();
        let m = buffer.len();
        let mut k: usize = 0;
        while k < m
            invariant
                m == buffer@.len(),
                0 <= k <= m,
                out@ == buffer@.take(k as int),
            decreases m - k,
        {
            out.push(buffer[k]);
            proof {
                assert(buffer@.take(k as int).push(buffer@[k as int]) =~= buffer@.take(
                    k + 1,
                ));
            }
            k += 1;
        }
        proof {
            assert(buffer@.take(m as int) =~= buffer@);
        }

        let mut stack: Vec<StackValue> = Vec::new();
        let n = self.opcodes.len();
        let mut ip: usize = 0;
        let ghost mut st = init;
        proof {
            assert(spec_apply_diags(old(storage).errors@, Seq::<DiagEvent>::empty())
                == old(storage).errors@);
        }
        while ip < n
            invariant
                n == ops.len(),
                ops == self.opcodes@,
                consts == constants@,
                env == *old(storage),
                blocks_eq(env, *storage),
                st.fault is None,
                st.ip == ip as int,
                0 <= ip <= n,
                st.stack == stack@,
                st.out == out@,
                init == spec_init_state(buffer@),
                spec_run(ops, consts, env, init) == spec_run(ops, consts, env, st),
                storage.errors@ == spec_apply_diags(env.errors@, st.diags),
            decreases n - ip,
        {
            let ghost pre = st;
            proof {
                lemma_step_bounds(ops, consts, env, pre);
                assert(spec_run(ops, consts, env, pre) == spec_run(
                    ops,
                    consts,
                    env,
                    spec_step(ops, consts, env, pre),
                ));
                st = spec_step(ops, consts, env, pre);
            }
            let op = self.opcodes[ip];
            match op {
                TfxBytecodeOp::PushConstVec4 { constant_index } => {
                    if (constant_index as usize) < constants.len() {
                        stack.push(StackValue::Vector(constants[constant_index as usize]));
                        ip += 1;
                    } else {
                        storage.errors.record(
                            ErrorKey::Eval { fault: TfxEvalError::ConstantOutOfBounds },
                            TfxExpressionErrorType::EvalFault(
                                TfxEvalError::ConstantOutOfBounds,
                            ),
                        );
                        proof {
                            assert(st.diags.drop_last() =~= pre.diags);
                            assert(spec_run(ops, consts, env, st) == st);
                        }
                        return Err(TfxEvalError::ConstantOutOfBounds);
                    }
                },
                TfxBytecodeOp::PushFloatImm { bits } => {
                    stack.push(StackValue::Float(bits));
                    ip += 1;
                },
                TfxBytecodeOp::PushVec4Imm { value } => {
                    stack.push(StackValue::Vector(value));
                    ip += 1;
                },
                TfxBytecodeOp::PushExternFloat { kind, offset } => {
                    proof {
                        lemma_resolve_blocks_only(
                            *storage,
                            env,
                            kind,
                            offset as usize,
                            FieldType::Float,
                        );
                    }
                    let fetched = storage.get_value_or_default(
                        kind,
                        offset as usize,
                        FieldType::Float,
                    );
                    let bits = match fetched {
                        FieldValue::Float(b) => b,
                        _ => 0,
                    };
                    stack.push(StackValue::Float(bits));
                    ip += 1;
                    proof {
                        if !(env.resolve_spec(kind, offset as usize, FieldType::Float)
                            is Value) {
                            assert(st.diags.drop_last() =~= pre.diags);
                        }
                    }
                },
                TfxBytecodeOp::PushExternVec4 { kind, offset } => {
                    proof {
                        lemma_resolve_blocks_only(
                            *storage,
                            env,
                            kind,
                            offset as usize,
                            FieldType::Vec4,
                        );
                    }
                    let fetched = storage.get_value_or_default(
                        kind,
                        offset as usize,
                        FieldType::Vec4,
                    );
                    let value = match fetched {
                        FieldValue::Vec4(v) => v,
                        _ => Vec4Bits::zero(),
                    };
                    stack.push(StackValue::Vector(value));
                    ip += 1;
                    proof {
                        if !(env.resolve_spec(kind, offset as usize, FieldType::Vec4)
                            is Value) {
                            assert(st.diags.drop_last() =~= pre.diags);
                        }
                    }
                },
                TfxBytecodeOp::Add | TfxBytecodeOp::Subtract | TfxBytecodeOp::Multiply => {
                    if stack.len() < 2 {
                        storage.errors.record(
                            ErrorKey::Eval { fault: TfxEvalError::StackUnderflow },
                            TfxExpressionErrorType::EvalFault(TfxEvalError::StackUnderflow),
                        );
                        proof {
                            assert(st.diags.drop_last() =~= pre.diags);
                            assert(spec_run(ops, consts, env, st) == st);
                        }
                        return Err(TfxEvalError::StackUnderflow);
                    }
                    let b = stack.pop().unwrap();
                    let a = stack.pop().unwrap();
                    proof {
                        assert(stack@ =~= pre.stack.drop_last().drop_last());
                    }
                    match (a, b) {
                        (StackValue::Float(x), StackValue::Float(y)) => {
                            let r = match op {
                                TfxBytecodeOp::Add => scalar_add_bits(x, y),
                                TfxBytecodeOp::Subtract => scalar_sub_bits(x, y),
                                _ => scalar_mul_bits(x, y),
                            };
                            stack.push(StackValue::Float(r));
                            ip += 1;
                        },
                        (StackValue::Vector(p), StackValue::Vector(q)) => {
                            let r = match op {
                                TfxBytecodeOp::Add => vec4_add_bits(p, q),
                                TfxBytecodeOp::Subtract => vec4_sub_bits(p, q),
                                _ => vec4_mul_bits(p, q),
                            };
                            stack.push(StackValue::Vector(r));
                            ip += 1;
                        },
                        _ => {
                            storage.errors.record(
                                ErrorKey::Eval { fault: TfxEvalError::TypeMismatch },
                                TfxExpressionErrorType::EvalFault(TfxEvalError::TypeMismatch),
                            );
                            proof {
                                assert(st.diags.drop_last() =~= pre.diags);
                                assert(spec_run(ops, consts, env, st) == st);
                            }
                            return Err(TfxEvalError::TypeMismatch);
                        },
                    }
                },
                TfxBytecodeOp::Splat => {
                    match stack.pop() {
                        Some(StackValue::Float(b)) => {
                            stack.push(StackValue::Vector(Vec4Bits::splat(b)));
                            ip += 1;
                        },
                        Some(StackValue::Vector(_)) => {
                            storage.errors.record(
                                ErrorKey::Eval { fault: TfxEvalError::TypeMismatch },
                                TfxExpressionErrorType::EvalFault(TfxEvalError::TypeMismatch),
                            );
                            proof {
                                assert(st.diags.drop_last() =~= pre.diags);
                                assert(spec_run(ops, consts, env, st) == st);
                            }
                            return Err(TfxEvalError::TypeMismatch);
                        },
                        None => {
                            storage.errors.record(
                                ErrorKey::Eval { fault: TfxEvalError::StackUnderflow },
                                TfxExpressionErrorType::EvalFault(TfxEvalError::StackUnderflow),
                            );
                            proof {
                                assert(st.diags.drop_last() =~= pre.diags);
                                assert(spec_run(ops, consts, env, st) == st);
                            }
                            return Err(TfxEvalError::StackUnderflow);
                        },
                    }
                },
                TfxBytecodeOp::SkipIfAllZero { count } => {
                    match stack.pop() {
                        Some(cond) => {
                            ip += 1;
                            if all_zero(&cond) {
                                let c = count as usize;
                                if c > n - ip {
                                    ip = n;
                                } else {
                                    ip += c;
                                }
                            }
                        },
                        None => {
                            storage.errors.record(
                                ErrorKey::Eval { fault: TfxEvalError::StackUnderflow },
                                TfxExpressionErrorType::EvalFault(TfxEvalError::StackUnderflow),
                            );
                            proof {
                                assert(st.diags.drop_last() =~= pre.diags);
                                assert(spec_run(ops, consts, env, st) == st);
                            }
                            return Err(TfxEvalError::StackUnderflow);
                        },
                    }
                },
                TfxBytecodeOp::StoreOutput { slot } => {
                    match stack.pop() {
                        Some(StackValue::Vector(v)) => {
                            if (slot as usize) < out.len() {
                                out[slot as usize] = v;
                                ip += 1;
                            } else {
                                storage.errors.record(
                                    ErrorKey::Eval { fault: TfxEvalError::OutputOutOfBounds },
                                    TfxExpressionErrorType::EvalFault(
                                        TfxEvalError::OutputOutOfBounds,
                                    ),
                                );
                                proof {
                                    assert(st.diags.drop_last() =~= pre.diags);
                                    assert(spec_run(ops, consts, env, st) == st);
                                }
                                return Err(TfxEvalError::OutputOutOfBounds);
                            }
                        },
                        Some(StackValue::Float(_)) => {
                            storage.errors.record(
                                ErrorKey::Eval { fault: TfxEvalError::TypeMismatch },
                                TfxExpressionErrorType::EvalFault(TfxEvalError::TypeMismatch),
                            );
                            proof {
                                assert(st.diags.drop_last() =~= pre.diags);
                                assert(spec_run(ops, consts, env, st) == st);
                            }
                            return Err(TfxEvalError::TypeMismatch);
                        },
                        None => {
                            storage.errors.record(
                                ErrorKey::Eval { fault: TfxEvalError::StackUnderflow },
                                TfxExpressionErrorType::EvalFault(TfxEvalError::StackUnderflow),
                            );
                            proof {
                                assert(st.diags.drop_last() =~= pre.diags);
                                assert(spec_run(ops, consts, env, st) == st);
                            }
                            return Err(TfxEvalError::StackUnderflow);
                        },
                    }
                },
            }
        }
        proof {
            assert(spec_run(ops, consts, env, st) == st);
        }
        Ok(out)
    }

    /// Evaluates the sequence and commits the writes into the destination
    /// image only on a normal halt: a halted evaluation's partial output is
    /// discarded and the image keeps its prior contents untouched.
    pub fn evaluate_into(
        &self,
        storage: &mut ExternStorage,
        constants: &Vec<Vec4Bits>,
        buffer: &mut Vec<Vec4Bits>,
    ) -> (r: Result<(), TfxEvalError>)
        ensures
            blocks_eq(*old(storage), *final(storage)),
            final(storage).errors@ == spec_apply_diags(
                old(storage).errors@,
                spec_eval_diags(self.opcodes@, constants@, *old(storage), old(buffer)@),
            ),
            ({
                let outcome = spec_eval_result(
                    self.opcodes@,
                    constants@,
                    *old(storage),
                    old(buffer)@,
                );
                match outcome {
                    Ok(image) => r is Ok && final(buffer)@ == image,
                    Err(e) => r == Err::<(), TfxEvalError>(e) && final(buffer)@ == old(buffer)@,
                }
            }),
    {
        match self.evaluate(storage, constants, buffer) {
            Ok(image) => {
                *buffer = image;
                Ok(())
            },
            Err(e) => Err(e),
        }
    }
}

} // verus!
