//! Tag identifiers and the browser's tag-input normalization.
//!
//! The package store keys resources by a 32-bit tag hash, with a 64-bit
//! alias table on the side. A user types a tag as hexadecimal text in memory
//! order, so the parsed word is byte-swapped; text that does not parse as
//! hexadecimal, or overflows, stands for the zero tag.

use vstd::prelude::*;

verus! {

/// A 32-bit package-store resource identifier.
#[derive(Clone, Copy, Debug, PartialEq, Eq, Hash, Structural)]
pub struct TagHash(pub u32);

/// The sentinel word marking "no tag".
pub const TAG_NONE_WORD: u32 = 0xffff_ffff;

impl TagHash {
    /// The "no tag" sentinel.
    pub fn none() -> (r: TagHash)
        ensures
            r == TagHash(TAG_NONE_WORD),
    {
        TagHash(TAG_NONE_WORD)
    }

    /// Whether this is the "no tag" sentinel.
    pub fn is_none(&self) -> (r: bool)
        ensures
            r == (self.0 == TAG_NONE_WORD),
    {
        self.0 == TAG_NONE_WORD
    }
}

/// What a typed tag denotes: a 64-bit alias to look up, or a 32-bit hash.
#[derive(Clone, Copy, Debug, PartialEq, Eq, Structural)]
pub enum TagQuery {
    /// Sixteen or more digits: the byte-swapped word keys the alias table.
    Hash64(u64),
    /// Fewer digits: directly the byte-swapped 32-bit hash.
    Hash32(TagHash),
}

/// The value of one hexadecimal digit, upper or lower case.
pub open spec fn spec_hex_digit(b: u8) -> Option<u8> {
    if 0x30 <= b <= 0x39 {
        Some((b - 0x30) as u8)
    } else if 0x61 <= b <= 0x66 {
        Some((b - 0x61 + 10) as u8)
    } else if 0x41 <= b <= 0x46 {
        Some((b - 0x41 + 10) as u8)
    } else {
        None
    }
}

/// The number the digit string denotes, most significant digit first, or
/// nothing if any byte is not a hexadecimal digit.
pub open spec fn spec_hex_nat(s: Seq<u8>) -> Option<nat>
    decreases s.len(),
{
    if s.len() == 0 {
        Some(0nat)
    } else {
        match (spec_hex_nat(s.drop_last()), spec_hex_digit(s.last())) {
            (Some(v), Some(d)) => Some((v * 16 + d) as nat),
            _ => None,
        }
    }
}

/// The parse of a hexadecimal string with an optional leading plus sign:
/// nothing for an empty body, a bad digit, or a value beyond `max`.
pub open spec fn spec_hex_body(s: Seq<u8>) -> Seq<u8> {
    if s.len() > 0 && s[0] == 0x2b {
        s.drop_first()
    } else {
        s
    }
}

pub open spec fn spec_parse_hex(s: Seq<u8>, max: nat) -> Option<nat> {
    let body = spec_hex_body(s);
    if body.len() == 0 {
        None
    } else {
        match spec_hex_nat(body) {
            Some(v) => if v <= max {
                Some(v)
            } else {
                None
            },
            None => None,
        }
    }
}

/// The parse, with every failure standing for zero.
pub open spec fn spec_parse_hex_or_zero(s: Seq<u8>, max: nat) -> nat {
    match spec_parse_hex(s, max) {
        Some(v) => v,
        None => 0,
    }
}

/// A word with its byte order reversed.
pub open spec fn spec_swap32(x: u32) -> u32 {
    ((x % 0x100) * 0x1000000 + ((x / 0x100) % 0x100) * 0x10000 + ((x / 0x10000) % 0x100) * 0x100
        + ((x / 0x1000000) % 0x100)) as u32
}

/// A doubleword with its byte order reversed.
pub open spec fn spec_swap64(x: u64) -> u64 {
    ((x % 0x100) * 0x100000000000000 + ((x / 0x100) % 0x100) * 0x1000000000000 + ((x / 0x10000)
        % 0x100) * 0x10000000000 + ((x / 0x1000000) % 0x100) * 0x100000000 + ((x / 0x100000000)
        % 0x100) * 0x1000000 + ((x / 0x10000000000) % 0x100) * 0x10000 + ((x / 0x1000000000000)
        % 0x100) * 0x100 + ((x / 0x100000000000000) % 0x100)) as u64
}

/// A digit string's value never shrinks as it grows to the right.
proof fn lemma_hex_prefix(s: Seq<u8>, i: int)
    requires
        0 <= i <= s.len(),
        spec_hex_nat(s) is Some,
    ensures
        spec_hex_nat(s.take(i)) is Some,
        spec_hex_nat(s)->Some_0 >= spec_hex_nat(s.take(i))->Some_0,
    decreases s.len(),
{
    if i == s.len() {
        assert(s.take(i) =~= s);
    } else {
        assert(s.drop_last().take(i) =~= s.take(i));
        lemma_hex_prefix(s.drop_last(), i);
    }
}

fn hex_digit(b: u8) -> (r: Option<u8>)
    ensures
        r == spec_hex_digit(b),
{
    if 0x30 <= b && b <= 0x39 {
        Some(b - 0x30)
    } else if 0x61 <= b && b <= 0x66 {
        Some(b - 0x61 + 10)
    } else if 0x41 <= b && b <= 0x46 {
        Some(b - 0x41 + 10)
    } else {
        None
    }
}

/// Parses hexadecimal text, standing in zero for anything malformed or
/// beyond `max`.
fn parse_hex_or_zero(digits: &[u8], max: u64) -> (r: u64)
    requires
        max >= 15,
    ensures
        r as nat == spec_parse_hex_or_zero(digits@, max as nat),
        r <= max,
{
    let n = digits.len();
    let start: usize = if n > 0 && digits[0] == 0x2b {
        1
    } else {
        0
    };
    let ghost body = digits@.skip(start as int);
    proof {
        if start == 1 {
            assert(body =~= digits@.drop_first());
        } else {
            assert(body =~= digits@);
        }
    }
    if start == n {
        return 0;
    }
    let mut acc: u64 = 0;
    let mut i: usize = start;
    while i < n
        invariant
            max >= 15,
            n == digits@.len(),
            start <= i <= n,
            start < n,
            body == digits@.skip(start as int),
            body == spec_hex_body(digits@),
            body.len() == n - start,
            forall|k: int| 0 <= k < body.len() ==> body[k] == digits@[start + k],
            spec_hex_nat(body.take(i - start)) == Some(acc as nat),
            acc <= max,
        decreases n - i,
    {
        let d = match hex_digit(digits[i]) {
            Some(d) => d,
            None => {
                proof {
                    assert(body.take(i - start + 1).drop_last() =~= body.take(i - start));
                    assert(body.take(i - start + 1).last() == body[i - start]);
                    assert(spec_hex_nat(body.take(i - start + 1)) is None);
                    if spec_hex_nat(body) is Some {
                        lemma_hex_prefix(body, i - start + 1);
                    }
                }
                return 0;
            },
        };
        proof {
            assert(d <= 15);
        }
        if acc > (max - d as u64) / 16 {
            proof {
                assert(body.take(i - start + 1).drop_last() =~= body.take(i - start));
                assert(body.take(i - start + 1).last() == body[i - start]);
                assert(spec_hex_nat(body.take(i - start + 1)) == Some(
                    ((acc as nat) * 16 + spec_hex_digit(body[i - start])->Some_0) as nat,
                ));
                assert((acc as nat) * 16 + d as nat > max as nat) by (nonlinear_arith)
                    requires
                        acc > (max - d as u64) / 16,
                        d <= 15,
                        max >= 15,
                        acc <= max,
                ;
                if spec_hex_nat(body) is Some {
                    lemma_hex_prefix(body, i - start + 1);
                }
            }
            return 0;
        }
        proof {
            assert((acc as nat) * 16 + d as nat <= max as nat) by (nonlinear_arith)
                requires
                    acc <= (max - d as u64) / 16,
                    d <= 15,
                    max >= 15,
            ;
            assert(body.take(i - start + 1).drop_last() =~= body.take(i - start));
            assert(body.take(i - start + 1).last() == body[i - start]);
        }
        acc = acc * 16 + d as u64;
        i += 1;
    }
    proof {
        assert(body.take(n - start) =~= body);
    }
    acc
}

/// Reverses a word's byte order.
pub fn swap_u32(x: u32) -> (r: u32)
    ensures
        r == spec_swap32(x),
{
    (x % 0x100) * 0x1000000 + ((x / 0x100) % 0x100) * 0x10000 + ((x / 0x10000) % 0x100) * 0x100 + (
    (x / 0x1000000) % 0x100)
}

/// Reverses a doubleword's byte order.
pub fn swap_u64(x: u64) -> (r: u64)
    ensures
        r == spec_swap64(x),
{
    (x % 0x100) * 0x100000000000000 + ((x / 0x100) % 0x100) * 0x1000000000000 + ((x / 0x10000)
        % 0x100) * 0x10000000000 + ((x / 0x1000000) % 0x100) * 0x100000000 + ((x / 0x100000000)
        % 0x100) * 0x1000000 + ((x / 0x10000000000) % 0x100) * 0x10000 + ((x / 0x1000000000000)
        % 0x100) * 0x100 + ((x / 0x100000000000000) % 0x100)
}

/// Normalizes typed tag text: sixteen or more characters are read as a
/// 64-bit alias key, anything shorter as a 32-bit hash; either way the
/// parsed word is byte-swapped and malformed text stands for zero.
pub fn parse_tag_input(input: &[u8]) -> (r: TagQuery)
    ensures
        input@.len() >= 16 ==> r == TagQuery::Hash64(
            spec_swap64(spec_parse_hex_or_zero(input@, u64::MAX as nat) as u64),
        ),
        input@.len() < 16 ==> r == TagQuery::Hash32(
            TagHash(spec_swap32(spec_parse_hex_or_zero(input@, u32::MAX as nat) as u32)),
        ),
{
    if input.len() >= 16 {
        TagQuery::Hash64(swap_u64(parse_hex_or_zero(input, u64::MAX)))
    } else {
        let w = parse_hex_or_zero(input, 0xffff_ffff);
        TagQuery::Hash32(TagHash(swap_u32(w as u32)))
    }
}

/// The outcome of the alias-table lookup a `Hash64` query asks for: the
/// 32-bit hash the table gave, or the "no tag" sentinel when it had none.
pub fn resolve_hash64(found: Option<u32>) -> (r: TagHash)
    ensures
        r == (match found {
            Some(word) => TagHash(word),
            None => TagHash(TAG_NONE_WORD),
        }),
{
    match found {
        Some(word) => TagHash(word),
        None => TagHash(TAG_NONE_WORD),
    }
}

} // verus!
