//! Field lookup classification shared by every Extern block.
//!
//! A block registers, per byte offset, the field's semantic type and whether
//! the field is intentionally left unbacked. A lookup is classified against
//! that registration: it never hands out a value under a mismatched type.

use vstd::prelude::*;

use crate::values::{FieldType, FieldValue};

verus! {

/// What a block registers at one byte offset.
#[derive(Clone, Copy, Debug, PartialEq, Eq, Structural)]
pub struct FieldSlot {
    /// The semantic type of the field at this offset.
    pub ftype: FieldType,
    /// True for a field whose real engine meaning is known but not yet
    /// reproduced; lookups must fail distinctly rather than hand out bytes.
    pub unimplemented: bool,
}

/// Outcome of resolving a field, either a typed value or a categorized failure.
#[derive(Clone, Copy, Debug, PartialEq, Eq, Structural)]
pub enum ExternValue {
    /// The field's stored bits, under the type registered for the offset.
    Value(FieldValue),
    /// The field exists in the layout but is intentionally unbacked.
    Unimplemented,
    /// The offset is registered, but under the given type, which differs from
    /// the requested one.
    InvalidType(FieldType),
    /// No field is registered at the offset for this block.
    FieldNotFound,
    /// The kind has no registered block layout at all.
    ExternNotFound,
    /// The kind is registered but no instance was populated this frame.
    ExternNotSet,
}

/// Classification of a field lookup within one populated block: absent slots
/// are `FieldNotFound`, unbacked slots are `Unimplemented`, a type mismatch is
/// `InvalidType`, and only an exact type match releases the stored value.
pub open spec fn lookup(slot: Option<FieldSlot>, stored: FieldValue, want: FieldType) -> ExternValue {
    match slot {
        Option::None => ExternValue::FieldNotFound,
        Option::Some(s) => if s.unimplemented {
            ExternValue::Unimplemented
        } else if s.ftype == want {
            ExternValue::Value(stored)
        } else {
            ExternValue::InvalidType(s.ftype)
        },
    }
}

/// Classifies a lookup that reached a backed slot: the stored value under an
/// exact type match, `InvalidType` naming the registered type otherwise.
pub fn classify(want: FieldType, registered: FieldType, stored: FieldValue) -> (r: ExternValue)
    ensures
        r == lookup(
            Some(FieldSlot { ftype: registered, unimplemented: false }),
            stored,
            want,
        ),
{
    if registered == want {
        ExternValue::Value(stored)
    } else {
        ExternValue::InvalidType(registered)
    }
}

/// A fixed-layout block of shader-visible state, queryable by byte offset.
pub trait Extern: Sized {
    /// The slot registered at the given byte offset, if any.
    spec fn layout(offset: usize) -> Option<FieldSlot>;

    /// The bits stored at a registered offset (arbitrary elsewhere).
    spec fn field_at(&self, offset: usize) -> FieldValue;

    /// The block's registered name, as characters.
    spec fn name() -> Seq<char>;

    /// The name of the field registered at the offset, as characters (empty
    /// at unregistered offsets).
    spec fn field_name_at(offset: usize) -> Seq<char>;

    /// The block's registered name.
    fn get_name() -> (r: &'static str)
        ensures
            r@ == Self::name(),
    ;

    /// Looks a field up by exact byte offset under a requested type.
    fn get_field(&self, offset: usize, want: FieldType) -> (r: ExternValue)
        ensures
            r == lookup(Self::layout(offset), self.field_at(offset), want),
    ;

    /// The name of the field registered at the offset, if any.
    fn get_field_name(offset: usize) -> (r: Option<&'static str>)
        ensures
            r is Some <==> Self::layout(offset) is Some,
            r matches Some(s) ==> s@ == Self::field_name_at(offset),
    ;
}

} // verus!
