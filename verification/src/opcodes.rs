//! The bytecode instruction set and its binary codec.
//!
//! Instructions travel as a little-endian byte stream: one opcode byte
//! followed by that opcode's fixed-width operands. Decoding is total: a byte
//! sequence either decodes to a complete instruction sequence or is a decode
//! fault — a truncated or unknown tail is never silently accepted.

use vstd::prelude::*;

use crate::kinds::{lemma_kind_code_round_trip, spec_kind_code, spec_kind_from_code, TfxExtern};
use crate::values::Vec4Bits;

verus! {

/// One decoded instruction: an opcode plus immediate operands.
#[derive(Clone, Copy, Debug, PartialEq, Eq, Structural)]
pub enum TfxBytecodeOp {
    /// Pushes the vector at an index of the constant pool.
    PushConstVec4 { constant_index: u8 },
    /// Pushes a scalar literal, carried as its bit pattern.
    PushFloatImm { bits: u32 },
    /// Pushes a vector literal, carried as its bit patterns.
    PushVec4Imm { value: Vec4Bits },
    /// Pushes a scalar field fetched from an Extern block.
    PushExternFloat { kind: TfxExtern, offset: u16 },
    /// Pushes a vector field fetched from an Extern block.
    PushExternVec4 { kind: TfxExtern, offset: u16 },
    /// Pops two operands and pushes their sum.
    Add,
    /// Pops two operands and pushes their difference.
    Subtract,
    /// Pops two operands and pushes their product.
    Multiply,
    /// Pops a scalar and pushes it broadcast to all four lanes.
    Splat,
    /// Pops a value and, when every lane is a zero, skips the next `count`
    /// instructions — forward only, so evaluation always terminates.
    SkipIfAllZero { count: u8 },
    /// Pops a vector and writes it to an output slot.
    StoreOutput { slot: u8 },
}

/// A malformed bytecode stream: truncated, or an unknown opcode or tag code.
#[derive(Clone, Copy, Debug, PartialEq, Eq, Structural)]
pub struct TfxDecodeError {}

pub open spec fn spec_le16(b0: u8, b1: u8) -> u16 {
    (b0 + b1 * 0x100) as u16
}

pub open spec fn spec_le32(b0: u8, b1: u8, b2: u8, b3: u8) -> u32 {
    (b0 + b1 * 0x100 + b2 * 0x10000 + b3 * 0x1000000) as u32
}

pub open spec fn spec_u16_lo(v: u16) -> u8 {
    (v % 0x100) as u8
}

pub open spec fn spec_u16_hi(v: u16) -> u8 {
    ((v / 0x100) % 0x100) as u8
}

pub open spec fn spec_u32_byte(v: u32, k: int) -> u8 {
    if k == 0 {
        (v % 0x100) as u8
    } else if k == 1 {
        ((v / 0x100) % 0x100) as u8
    } else if k == 2 {
        ((v / 0x10000) % 0x100) as u8
    } else {
        ((v / 0x1000000) % 0x100) as u8
    }
}

/// The four little-endian bytes of a 32-bit word.
pub open spec fn spec_u32_bytes(v: u32) -> Seq<u8> {
    seq![spec_u32_byte(v, 0), spec_u32_byte(v, 1), spec_u32_byte(v, 2), spec_u32_byte(v, 3)]
}

proof fn lemma_le16_round_trip(v: u16)
    ensures
        spec_le16(spec_u16_lo(v), spec_u16_hi(v)) == v,
{
    assert(v % 0x100 + ((v / 0x100) % 0x100) * 0x100 == v) by (nonlinear_arith);
}

proof fn lemma_le32_round_trip(v: u32)
    ensures
        spec_le32(spec_u32_byte(v, 0), spec_u32_byte(v, 1), spec_u32_byte(v, 2), spec_u32_byte(v, 3))
            == v,
{
    assert(v % 0x100 + ((v / 0x100) % 0x100) * 0x100 + ((v / 0x10000) % 0x100) * 0x10000 + ((v
        / 0x1000000) % 0x100) * 0x1000000 == v) by (nonlinear_arith);
}

/// The encoding of one instruction.
pub open spec fn spec_encode_op(op: TfxBytecodeOp) -> Seq<u8> {
    match op {
        TfxBytecodeOp::PushConstVec4 { constant_index } => seq![0x01u8, constant_index],
        TfxBytecodeOp::PushFloatImm { bits } => seq![0x02u8] + spec_u32_bytes(bits),
        TfxBytecodeOp::PushVec4Imm { value } => seq![0x03u8] + spec_u32_bytes(value.x)
            + spec_u32_bytes(value.y) + spec_u32_bytes(value.z) + spec_u32_bytes(value.w),
        TfxBytecodeOp::PushExternFloat { kind, offset } => seq![
            0x04u8,
            spec_kind_code(kind),
            spec_u16_lo(offset),
            spec_u16_hi(offset),
        ],
        TfxBytecodeOp::PushExternVec4 { kind, offset } => seq![
            0x05u8,
            spec_kind_code(kind),
            spec_u16_lo(offset),
            spec_u16_hi(offset),
        ],
        TfxBytecodeOp::Add => seq![0x06u8],
        TfxBytecodeOp::Subtract => seq![0x07u8],
        TfxBytecodeOp::Multiply => seq![0x08u8],
        TfxBytecodeOp::Splat => seq![0x09u8],
        TfxBytecodeOp::SkipIfAllZero { count } => seq![0x0au8, count],
        TfxBytecodeOp::StoreOutput { slot } => seq![0x0bu8, slot],
    }
}

/// The first instruction of a stream and the count of bytes it occupies,
/// or nothing for a truncated or unknown head.
pub open spec fn spec_decode_op(bytes: Seq<u8>) -> Option<(TfxBytecodeOp, int)> {
    if bytes.len() == 0 {
        None
    } else {
        let c = bytes[0];
        if c == 0x01 {
            if bytes.len() >= 2 {
                Some((TfxBytecodeOp::PushConstVec4 { constant_index: bytes[1] }, 2))
            } else {
                None
            }
        } else if c == 0x02 {
            if bytes.len() >= 5 {
                Some(
                    (
                        TfxBytecodeOp::PushFloatImm {
                            bits: spec_le32(bytes[1], bytes[2], bytes[3], bytes[4]),
                        },
                        5,
                    ),
                )
            } else {
                None
            }
        } else if c == 0x03 {
            if bytes.len() >= 17 {
                Some(
                    (
                        TfxBytecodeOp::PushVec4Imm {
                            value: Vec4Bits {
                                x: spec_le32(bytes[1], bytes[2], bytes[3], bytes[4]),
                                y: spec_le32(bytes[5], bytes[6], bytes[7], bytes[8]),
                                z: spec_le32(bytes[9], bytes[10], bytes[11], bytes[12]),
                                w: spec_le32(bytes[13], bytes[14], bytes[15], bytes[16]),
                            },
                        },
                        17,
                    ),
                )
            } else {
                None
            }
        } else if c == 0x04 {
            if bytes.len() >= 4 {
                match spec_kind_from_code(bytes[1]) {
                    Some(kind) => Some(
                        (
                            TfxBytecodeOp::PushExternFloat {
                                kind,
                                offset: spec_le16(bytes[2], bytes[3]),
                            },
                            4,
                        ),
                    ),
                    None => None,
                }
            } else {
                None
            }
        } else if c == 0x05 {
            if bytes.len() >= 4 {
                match spec_kind_from_code(bytes[1]) {
                    Some(kind) => Some(
                        (
                            TfxBytecodeOp::PushExternVec4 {
                                kind,
                                offset: spec_le16(bytes[2], bytes[3]),
                            },
                            4,
                        ),
                    ),
                    None => None,
                }
            } else {
                None
            }
        } else if c == 0x06 {
            Some((TfxBytecodeOp::Add, 1))
        } else if c == 0x07 {
            Some((TfxBytecodeOp::Subtract, 1))
        } else if c == 0x08 {
            Some((TfxBytecodeOp::Multiply, 1))
        } else if c == 0x09 {
            Some((TfxBytecodeOp::Splat, 1))
        } else if c == 0x0a {
            if bytes.len() >= 2 {
                Some((TfxBytecodeOp::SkipIfAllZero { count: bytes[1] }, 2))
            } else {
                None
            }
        } else if c == 0x0b {
            if bytes.len() >= 2 {
                Some((TfxBytecodeOp::StoreOutput { slot: bytes[1] }, 2))
            } else {
                None
            }
        } else {
            None
        }
    }
}

/// The instruction sequence a byte stream decodes to, or nothing if any
/// instruction is truncated or unknown.
pub open spec fn spec_decode(bytes: Seq<u8>) -> Option<Seq<TfxBytecodeOp>>
    decreases bytes.len(),
{
    if bytes.len() == 0 {
        Some(Seq::empty())
    } else {
        match spec_decode_op(bytes) {
            None => None,
            Some((op, n)) => match spec_decode(bytes.skip(n)) {
                None => None,
                Some(rest) => Some(seq![op] + rest),
            },
        }
    }
}

/// The encoding of an instruction sequence.
pub open spec fn spec_encode(ops: Seq<TfxBytecodeOp>) -> Seq<u8>
    decreases ops.len(),
{
    if ops.len() == 0 {
        Seq::empty()
    } else {
        spec_encode_op(ops[0]) + spec_encode(ops.drop_first())
    }
}

proof fn lemma_encode_op_len(op: TfxBytecodeOp)
    ensures
        1 <= spec_encode_op(op).len() <= 17,
{
}

proof fn lemma_decode_op_of_encoded(op: TfxBytecodeOp, rest: Seq<u8>)
    ensures
        spec_decode_op(spec_encode_op(op) + rest) == Some(
            (op, spec_encode_op(op).len() as int),
        ),
{
    let enc = spec_encode_op(op);
    let all = enc + rest;
    lemma_encode_op_len(op);
    match op {
        TfxBytecodeOp::PushConstVec4 { constant_index } => {},
        TfxBytecodeOp::PushFloatImm { bits } => {
            lemma_le32_round_trip(bits);
        },
        TfxBytecodeOp::PushVec4Imm { value } => {
            lemma_le32_round_trip(value.x);
            lemma_le32_round_trip(value.y);
            lemma_le32_round_trip(value.z);
            lemma_le32_round_trip(value.w);
            assert(spec_decode_op(all) matches Some((op2, n)) && op2 == op && n == 17);
        },
        TfxBytecodeOp::PushExternFloat { kind, offset } => {
            lemma_kind_code_round_trip(kind);
            lemma_le16_round_trip(offset);
        },
        TfxBytecodeOp::PushExternVec4 { kind, offset } => {
            lemma_kind_code_round_trip(kind);
            lemma_le16_round_trip(offset);
        },
        TfxBytecodeOp::Add => {},
        TfxBytecodeOp::Subtract => {},
        TfxBytecodeOp::Multiply => {},
        TfxBytecodeOp::Splat => {},
        TfxBytecodeOp::SkipIfAllZero { count } => {},
        TfxBytecodeOp::StoreOutput { slot } => {},
    }
}

fn le16(b0: u8, b1: u8) -> (r: u16)
    ensures
        r == spec_le16(b0, b1),
{
    b0 as u16 + (b1 as u16) * 0x100
}

fn le32(b0: u8, b1: u8, b2: u8, b3: u8) -> (r: u32)
    ensures
        r == spec_le32(b0, b1, b2, b3),
{
    b0 as u32 + (b1 as u32) * 0x100 + (b2 as u32) * 0x10000 + (b3 as u32) * 0x1000000
}

fn push_u32_bytes(out: &mut Vec<u8>, v: u32)
    ensures
        final(out)@ == old(out)@ + spec_u32_bytes(v),
{
    out.push((v % 0x100) as u8);
    out.push(((v / 0x100) % 0x100) as u8);
    out.push(((v / 0x10000) % 0x100) as u8);
    out.push(((v / 0x1000000) % 0x100) as u8);
    proof {
        assert(out@ =~= old(out)@ + spec_u32_bytes(v));
    }
}

impl TfxBytecodeOp {
    /// Appends this instruction's encoding to a byte stream.
    pub fn encode_into(&self, out: &mut Vec<u8>)
        ensures
            final(out)@ == old(out)@ + spec_encode_op(*self),
    {
        match self {
            TfxBytecodeOp::PushConstVec4 { constant_index } => {
                out.push(0x01);
                out.push(*constant_index);
            },
            TfxBytecodeOp::PushFloatImm { bits } => {
                out.push(0x02);
                push_u32_bytes(out, *bits);
            },
            TfxBytecodeOp::PushVec4Imm { value } => {
                out.push(0x03);
                push_u32_bytes(out, value.x);
                push_u32_bytes(out, value.y);
                push_u32_bytes(out, value.z);
                push_u32_bytes(out, value.w);
            },
            TfxBytecodeOp::PushExternFloat { kind, offset } => {
                out.push(0x04);
                out.push(kind.to_code());
                out.push((*offset % 0x100) as u8);
                out.push(((*offset / 0x100) % 0x100) as u8);
            },
            TfxBytecodeOp::PushExternVec4 { kind, offset } => {
                out.push(0x05);
                out.push(kind.to_code());
                out.push((*offset % 0x100) as u8);
                out.push(((*offset / 0x100) % 0x100) as u8);
            },
            TfxBytecodeOp::Add => {
                out.push(0x06);
            },
            TfxBytecodeOp::Subtract => {
                out.push(0x07);
            },
            TfxBytecodeOp::Multiply => {
                out.push(0x08);
            },
            TfxBytecodeOp::Splat => {
                out.push(0x09);
            },
            TfxBytecodeOp::SkipIfAllZero { count } => {
                out.push(0x0a);
                out.push(*count);
            },
            TfxBytecodeOp::StoreOutput { slot } => {
                out.push(0x0b);
                out.push(*slot);
            },
        }
        proof {
            assert(out@ =~= old(out)@ + spec_encode_op(*self));
        }
    }

    /// Encodes an instruction sequence as a byte stream.
    pub fn encode_all(ops: &Vec<TfxBytecodeOp>) -> (r: Vec<u8>)
        ensures
            r@ == spec_encode(ops@),
    {
        let mut out: Vec<u8> = Vec::new();
        let n = ops.len();
        let mut i: usize = 0;
        while i < n
            invariant
                n == ops@.len(),
                0 <= i <= n,
                out@ == spec_encode(ops@.take(i as int)),
            decreases n - i,
        {
            ops[i].encode_into(&mut out);
            proof {
                lemma_encode_snoc(ops@.take(i as int), ops@[i as int]);
                assert(ops@.take(i as int).push(ops@[i as int]) =~= ops@.take(i + 1));
            }
            i += 1;
        }
        proof {
            assert(ops@.take(n as int) =~= ops@);
        }
        out
    }

    /// Decodes the whole byte stream into an instruction sequence: the exact
    /// sequence the stream stands for, or a fault if any instruction is
    /// truncated or unknown — a partial decode is never accepted.
    pub fn parse_all(data: &[u8]) -> (r: Result<Vec<TfxBytecodeOp>, TfxDecodeError>)
        ensures
            r is Ok <==> spec_decode(data@) is Some,
            r matches Ok(ops) ==> Some(ops@) == spec_decode(data@),
    {
        let mut ops: Vec<TfxBytecodeOp> = Vec::new();
        let n = data.len();
        let mut i: usize = 0;
        proof {
            assert(data@.skip(0) =~= data@);
            match spec_decode(data@) {
                Some(rest) => {
                    assert(Seq::<TfxBytecodeOp>::empty() + rest =~= rest);
                },
                None => {},
            }
        }
        while i < n
            invariant
                n == data@.len(),
                0 <= i <= n,
                match spec_decode(data@.skip(i as int)) {
                    Some(rest) => spec_decode(data@) == Some(ops@ + rest),
                    None => spec_decode(data@) is None,
                },
            decreases n - i,
        {
            match decode_op(data, i) {
                None => {
                    return Err(TfxDecodeError {});
                },
                Some((op, j)) => {
                    proof {
                        let here = data@.skip(i as int);
                        assert(here.skip(j - i) =~= data@.skip(j as int));
                    }
                    ops.push(op);
                    proof {
                        let rest0 = spec_decode(data@.skip(i as int));
                        match spec_decode(data@.skip(j as int)) {
                            Some(tail) => {
                                assert(rest0 == Some(seq![op] + tail));
                                assert(ops@ + tail =~= ops@.drop_last() + (seq![op] + tail));
                            },
                            None => {},
                        }
                    }
                    i = j;
                },
            }
        }
        proof {
            assert(data@.skip(n as int) =~= Seq::<u8>::empty());
            assert(ops@ + Seq::<TfxBytecodeOp>::empty() =~= ops@);
        }
        Ok(ops)
    }
}

fn decode_op(data: &[u8], i: usize) -> (r: Option<(TfxBytecodeOp, usize)>)
    requires
        i < data@.len(),
    ensures
        ({
            let d = spec_decode_op(data@.skip(i as int));
            match d {
                Some((op, n)) => r matches Some((op2, j)) && op2 == op && j == i + n,
                None => r is None,
            }
        }),
{
    let n = data.len();
    let c = data[i];
    match c {
        0x01 => {
            if n - i >= 2 {
                Some((TfxBytecodeOp::PushConstVec4 { constant_index: data[i + 1] }, i + 2))
            } else {
                None
            }
        },
        0x02 => {
            if n - i >= 5 {
                let bits = le32(data[i + 1], data[i + 2], data[i + 3], data[i + 4]);
                Some((TfxBytecodeOp::PushFloatImm { bits }, i + 5))
            } else {
                None
            }
        },
        0x03 => {
            if n - i >= 17 {
                let value = Vec4Bits {
                    x: le32(data[i + 1], data[i + 2], data[i + 3], data[i + 4]),
                    y: le32(data[i + 5], data[i + 6], data[i + 7], data[i + 8]),
                    z: le32(data[i + 9], data[i + 10], data[i + 11], data[i + 12]),
                    w: le32(data[i + 13], data[i + 14], data[i + 15], data[i + 16]),
                };
                Some((TfxBytecodeOp::PushVec4Imm { value }, i + 17))
            } else {
                None
            }
        },
        0x04 => {
            if n - i >= 4 {
                match TfxExtern::from_code(data[i + 1]) {
                    Some(kind) => {
                        let offset = le16(data[i + 2], data[i + 3]);
                        Some((TfxBytecodeOp::PushExternFloat { kind, offset }, i + 4))
                    },
                    None => None,
                }
            } else {
                None
            }
        },
        0x05 => {
            if n - i >= 4 {
                match TfxExtern::from_code(data[i + 1]) {
                    Some(kind) => {
                        let offset = le16(data[i + 2], data[i + 3]);
                        Some((TfxBytecodeOp::PushExternVec4 { kind, offset }, i + 4))
                    },
                    None => None,
                }
            } else {
                None
            }
        },
        0x06 => Some((TfxBytecodeOp::Add, i + 1)),
        0x07 => Some((TfxBytecodeOp::Subtract, i + 1)),
        0x08 => Some((TfxBytecodeOp::Multiply, i + 1)),
        0x09 => Some((TfxBytecodeOp::Splat, i + 1)),
        0x0a => {
            if n - i >= 2 {
                Some((TfxBytecodeOp::SkipIfAllZero { count: data[i + 1] }, i + 2))
            } else {
                None
            }
        },
        0x0b => {
            if n - i >= 2 {
                Some((TfxBytecodeOp::StoreOutput { slot: data[i + 1] }, i + 2))
            } else {
                None
            }
        },
        _ => None,
    }
}

proof fn lemma_encode_snoc(ops: Seq<TfxBytecodeOp>, op: TfxBytecodeOp)
    ensures
        spec_encode(ops.push(op)) == spec_encode(ops) + spec_encode_op(op),
    decreases ops.len(),
{
    if ops.len() == 0 {
        let p = ops.push(op);
        assert(p[0] == op);
        assert(p.drop_first() =~= Seq::<TfxBytecodeOp>::empty());
        assert(spec_encode(Seq::<TfxBytecodeOp>::empty()) =~= Seq::<u8>::empty());
        assert(spec_encode(p) =~= spec_encode(ops) + spec_encode_op(op));
    } else {
        lemma_encode_snoc(ops.drop_first(), op);
        assert(ops.push(op).drop_first() =~= ops.drop_first().push(op));
        assert(spec_encode_op(ops[0]) + (spec_encode(ops.drop_first()) + spec_encode_op(op))
            =~= (spec_encode_op(ops[0]) + spec_encode(ops.drop_first())) + spec_encode_op(op));
    }
}

/// Round trip: encoding an instruction sequence and decoding the resulting
/// byte stream reproduces the sequence exactly.
pub proof fn lemma_codec_round_trip(ops: Seq<TfxBytecodeOp>)
    ensures
        spec_decode(spec_encode(ops)) == Some(ops),
    decreases ops.len(),
{
    if ops.len() == 0 {
    } else {
        let head = ops[0];
        let tail = ops.drop_first();
        let enc_head = spec_encode_op(head);
        let enc_tail = spec_encode(tail);
        let enc = spec_encode(ops);
        lemma_encode_op_len(head);
        lemma_decode_op_of_encoded(head, enc_tail);
        lemma_codec_round_trip(tail);
        assert(enc == enc_head + enc_tail);
        assert(enc.skip(enc_head.len() as int) =~= enc_tail);
        assert(seq![head] + tail =~= ops);
    }
}

} // verus!
