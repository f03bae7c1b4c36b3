//! Frame-scoped storage of Extern blocks and the value resolver.
//!
//! The renderer populates at most one live instance per registered tag before
//! a frame's draws run; the resolver classifies every query and, on failure,
//! bumps one aggregated diagnostic counter without ever changing the outcome
//! or aborting the caller.

use vstd::prelude::*;

use crate::blocks::{
    Decal, Deferred, DeferredLight, Frame, RigidModel, SimpleGeometry, Transparent, ViewExtern,
};
use crate::diag::{
    spec_record, ErrorKey, FieldFailure, StorageFailure, TfxExpressionErrorMap,
    TfxExpressionErrorType,
};
use crate::fields::{lookup, Extern, ExternValue, FieldSlot};
use crate::kinds::{spec_is_registered, TfxExtern};
use crate::values::{default_value, spec_default_value, FieldType, FieldValue};

verus! {

/// Failure half of a resolver outcome, as handed to callers.
#[derive(Clone, Copy, Debug, PartialEq, Eq, Structural)]
pub enum TfxResolveError {
    Unimplemented,
    InvalidType(FieldType),
    FieldNotFound,
    ExternNotFound,
    ExternNotSet,
}

/// Holder of at most one live block instance per registered tag, plus the
/// aggregated failure diagnostics.
pub struct ExternStorage {
    pub frame: Option<Frame>,
    pub view: Option<ViewExtern>,
    pub deferred: Option<Deferred>,
    pub deferred_light: Option<DeferredLight>,
    pub transparent: Option<Transparent>,
    pub rigid_model: Option<RigidModel>,
    pub decal: Option<Decal>,
    pub simple_geometry: Option<SimpleGeometry>,
    pub errors: TfxExpressionErrorMap,
}

/// The slot a tag's registered layout has at the offset, if any.
pub open spec fn spec_layout_of(kind: TfxExtern, offset: usize) -> Option<FieldSlot> {
    match kind {
        TfxExtern::Frame => Frame::layout(offset),
        TfxExtern::View => ViewExtern::layout(offset),
        TfxExtern::Deferred => Deferred::layout(offset),
        TfxExtern::DeferredLight => DeferredLight::layout(offset),
        TfxExtern::Transparent => Transparent::layout(offset),
        TfxExtern::RigidModel => RigidModel::layout(offset),
        TfxExtern::Decal => Decal::layout(offset),
        TfxExtern::SimpleGeometry => SimpleGeometry::layout(offset),
        _ => None,
    }
}

/// The registered name of a tag's block (empty for an unregistered tag).
pub open spec fn spec_block_name(kind: TfxExtern) -> Seq<char> {
    match kind {
        TfxExtern::Frame => Frame::name(),
        TfxExtern::View => ViewExtern::name(),
        TfxExtern::Deferred => Deferred::name(),
        TfxExtern::DeferredLight => DeferredLight::name(),
        TfxExtern::Transparent => Transparent::name(),
        TfxExtern::RigidModel => RigidModel::name(),
        TfxExtern::Decal => Decal::name(),
        TfxExtern::SimpleGeometry => SimpleGeometry::name(),
        _ => Seq::<char>::empty(),
    }
}

/// The name of the field a tag's layout registers at the offset (empty when
/// none is).
pub open spec fn spec_field_name_of(kind: TfxExtern, offset: usize) -> Seq<char> {
    match kind {
        TfxExtern::Frame => Frame::field_name_at(offset),
        TfxExtern::View => ViewExtern::field_name_at(offset),
        TfxExtern::Deferred => Deferred::field_name_at(offset),
        TfxExtern::DeferredLight => DeferredLight::field_name_at(offset),
        TfxExtern::Transparent => Transparent::field_name_at(offset),
        TfxExtern::RigidModel => RigidModel::field_name_at(offset),
        TfxExtern::Decal => Decal::field_name_at(offset),
        TfxExtern::SimpleGeometry => SimpleGeometry::field_name_at(offset),
        _ => Seq::<char>::empty(),
    }
}

/// The two storages hold the same block instances (diagnostics aside).
pub open spec fn blocks_eq(a: ExternStorage, b: ExternStorage) -> bool {
    &&& a.frame == b.frame
    &&& a.view == b.view
    &&& a.deferred == b.deferred
    &&& a.deferred_light == b.deferred_light
    &&& a.transparent == b.transparent
    &&& a.rigid_model == b.rigid_model
    &&& a.decal == b.decal
    &&& a.simple_geometry == b.simple_geometry
}

/// The key under which a failed resolution is aggregated: the tag, the byte
/// offset, the requested type and the failure category together identify a
/// failure, so only genuinely identical failures share a record.
pub open spec fn spec_failure_key(
    kind: TfxExtern,
    offset: usize,
    want: FieldType,
    outcome: ExternValue,
) -> ErrorKey {
    match outcome {
        ExternValue::Unimplemented => ErrorKey::Field {
            kind,
            offset,
            requested: want,
            failure: FieldFailure::Unimplemented,
        },
        ExternValue::InvalidType(_) => ErrorKey::Field {
            kind,
            offset,
            requested: want,
            failure: FieldFailure::InvalidType,
        },
        ExternValue::FieldNotFound => ErrorKey::Field {
            kind,
            offset,
            requested: want,
            failure: FieldFailure::FieldNotFound,
        },
        ExternValue::ExternNotSet => ErrorKey::Storage {
            kind,
            offset,
            requested: want,
            failure: StorageFailure::NotSet,
        },
        _ => ErrorKey::Storage { kind, offset, requested: want, failure: StorageFailure::NotFound },
    }
}

/// The detail stored with a failure's first record: each failure category
/// keeps its own identity.
pub open spec fn spec_failure_detail(offset: usize, outcome: ExternValue) -> TfxExpressionErrorType {
    match outcome {
        ExternValue::InvalidType(t) => TfxExpressionErrorType::InvalidType(t),
        ExternValue::FieldNotFound => TfxExpressionErrorType::FieldNotFound {
            field_offset: offset,
        },
        ExternValue::ExternNotFound => TfxExpressionErrorType::ExternNotFound,
        ExternValue::ExternNotSet => TfxExpressionErrorType::ExternNotSet,
        _ => TfxExpressionErrorType::Unimplemented { field_offset: offset },
    }
}

/// The error a failed resolution hands to the caller.
pub open spec fn spec_failure_error(outcome: ExternValue) -> TfxResolveError {
    match outcome {
        ExternValue::InvalidType(t) => TfxResolveError::InvalidType(t),
        ExternValue::FieldNotFound => TfxResolveError::FieldNotFound,
        ExternValue::ExternNotFound => TfxResolveError::ExternNotFound,
        ExternValue::ExternNotSet => TfxResolveError::ExternNotSet,
        _ => TfxResolveError::Unimplemented,
    }
}

impl ExternStorage {
    /// An instance of the tag's block is live this frame.
    pub open spec fn spec_is_populated(self, kind: TfxExtern) -> bool {
        match kind {
            TfxExtern::Frame => self.frame is Some,
            TfxExtern::View => self.view is Some,
            TfxExtern::Deferred => self.deferred is Some,
            TfxExtern::DeferredLight => self.deferred_light is Some,
            TfxExtern::Transparent => self.transparent is Some,
            TfxExtern::RigidModel => self.rigid_model is Some,
            TfxExtern::Decal => self.decal is Some,
            TfxExtern::SimpleGeometry => self.simple_geometry is Some,
            _ => false,
        }
    }

    /// The bits the live instance stores at the offset (arbitrary when the
    /// tag is not populated).
    pub open spec fn spec_populated_field(self, kind: TfxExtern, offset: usize) -> FieldValue {
        match kind {
            TfxExtern::Frame => match self.frame {
                Some(b) => b.field_at(offset),
                None => FieldValue::U64(0u64),
            },
            TfxExtern::View => match self.view {
                Some(b) => b.field_at(offset),
                None => FieldValue::U64(0u64),
            },
            TfxExtern::Deferred => match self.deferred {
                Some(b) => b.field_at(offset),
                None => FieldValue::U64(0u64),
            },
            TfxExtern::DeferredLight => match self.deferred_light {
                Some(b) => b.field_at(offset),
                None => FieldValue::U64(0u64),
            },
            TfxExtern::Transparent => match self.transparent {
                Some(b) => b.field_at(offset),
                None => FieldValue::U64(0u64),
            },
            TfxExtern::RigidModel => match self.rigid_model {
                Some(b) => b.field_at(offset),
                None => FieldValue::U64(0u64),
            },
            TfxExtern::Decal => match self.decal {
                Some(b) => b.field_at(offset),
                None => FieldValue::U64(0u64),
            },
            TfxExtern::SimpleGeometry => match self.simple_geometry {
                Some(b) => b.field_at(offset),
                None => FieldValue::U64(0u64),
            },
            _ => FieldValue::U64(0u64),
        }
    }

    /// Classification of one resolution: an unregistered tag, an unpopulated
    /// block, or the field-level lookup against the live instance.
    pub open spec fn resolve_spec(
        self,
        kind: TfxExtern,
        offset: usize,
        want: FieldType,
    ) -> ExternValue {
        if !spec_is_registered(kind) {
            ExternValue::ExternNotFound
        } else if !self.spec_is_populated(kind) {
            ExternValue::ExternNotSet
        } else {
            lookup(
                spec_layout_of(kind, offset),
                self.spec_populated_field(kind, offset),
                want,
            )
        }
    }

    /// Resolves against the live block instances without touching the
    /// diagnostics.
    fn get_value_inner(&self, ext: TfxExtern, offset: usize, want: FieldType) -> (r: ExternValue)
        ensures
            r == self.resolve_spec(ext, offset, want),
    {
        match ext {
            TfxExtern::Frame => match &self.frame {
                Some(b) => b.get_field(offset, want),
                None => ExternValue::ExternNotSet,
            },
            TfxExtern::View => match &self.view {
                Some(b) => b.get_field(offset, want),
                None => ExternValue::ExternNotSet,
            },
            TfxExtern::Deferred => match &self.deferred {
                Some(b) => b.get_field(offset, want),
                None => ExternValue::ExternNotSet,
            },
            TfxExtern::DeferredLight => match &self.deferred_light {
                Some(b) => b.get_field(offset, want),
                None => ExternValue::ExternNotSet,
            },
            TfxExtern::Transparent => match &self.transparent {
                Some(b) => b.get_field(offset, want),
                None => ExternValue::ExternNotSet,
            },
            TfxExtern::RigidModel => match &self.rigid_model {
                Some(b) => b.get_field(offset, want),
                None => ExternValue::ExternNotSet,
            },
            TfxExtern::Decal => match &self.decal {
                Some(b) => b.get_field(offset, want),
                None => ExternValue::ExternNotSet,
            },
            TfxExtern::SimpleGeometry => match &self.simple_geometry {
                Some(b) => b.get_field(offset, want),
                None => ExternValue::ExternNotSet,
            },
            _ => ExternValue::ExternNotFound,
        }
    }

    /// Resolves a field by tag, byte offset and requested type. A success
    /// hands out the stored bits untouched; every failure is classified,
    /// handed back as the matching error, and counted once in the
    /// diagnostics under its key.
    pub fn get_value(&mut self, ext: TfxExtern, offset: usize, want: FieldType) -> (r: Result<
        FieldValue,
        TfxResolveError,
    >)
        ensures
            blocks_eq(*old(self), *final(self)),
            ({
                let outcome = old(self).resolve_spec(ext, offset, want);
                match outcome {
                    ExternValue::Value(v) => {
                        &&& r == Ok::<FieldValue, TfxResolveError>(v)
                        &&& final(self).errors@ == old(self).errors@
                    },
                    _ => {
                        &&& r == Err::<FieldValue, TfxResolveError>(spec_failure_error(outcome))
                        &&& final(self).errors@ == spec_record(
                            old(self).errors@,
                            spec_failure_key(ext, offset, want, outcome),
                            spec_failure_detail(offset, outcome),
                        )
                    },
                }
            }),
    {
        let outcome = self.get_value_inner(ext, offset, want);
        match outcome {
            ExternValue::Value(v) => Ok(v),
            ExternValue::Unimplemented => {
                self.errors.record(
                    ErrorKey::Field {
                        kind: ext,
                        offset,
                        requested: want,
                        failure: FieldFailure::Unimplemented,
                    },
                    TfxExpressionErrorType::Unimplemented { field_offset: offset },
                );
                Err(TfxResolveError::Unimplemented)
            },
            ExternValue::InvalidType(t) => {
                self.errors.record(
                    ErrorKey::Field {
                        kind: ext,
                        offset,
                        requested: want,
                        failure: FieldFailure::InvalidType,
                    },
                    TfxExpressionErrorType::InvalidType(t),
                );
                Err(TfxResolveError::InvalidType(t))
            },
            ExternValue::FieldNotFound => {
                self.errors.record(
                    ErrorKey::Field {
                        kind: ext,
                        offset,
                        requested: want,
                        failure: FieldFailure::FieldNotFound,
                    },
                    TfxExpressionErrorType::FieldNotFound { field_offset: offset },
                );
                Err(TfxResolveError::FieldNotFound)
            },
            ExternValue::ExternNotFound => {
                self.errors.record(
                    ErrorKey::Storage {
                        kind: ext,
                        offset,
                        requested: want,
                        failure: StorageFailure::NotFound,
                    },
                    TfxExpressionErrorType::ExternNotFound,
                );
                Err(TfxResolveError::ExternNotFound)
            },
            ExternValue::ExternNotSet => {
                self.errors.record(
                    ErrorKey::Storage {
                        kind: ext,
                        offset,
                        requested: want,
                        failure: StorageFailure::NotSet,
                    },
                    TfxExpressionErrorType::ExternNotSet,
                );
                Err(TfxResolveError::ExternNotSet)
            },
        }
    }

    /// Resolves a field but suppresses the error: a failure hands back the
    /// requested type's default value, while the diagnostic is still
    /// recorded exactly as `get_value` records it.
    pub fn get_value_or_default(&mut self, ext: TfxExtern, offset: usize, want: FieldType) -> (r:
        FieldValue)
        ensures
            blocks_eq(*old(self), *final(self)),
            ({
                let outcome = old(self).resolve_spec(ext, offset, want);
                match outcome {
                    ExternValue::Value(v) => r == v && final(self).errors@ == old(self).errors@,
                    _ => r == spec_default_value(want) && final(self).errors@ == spec_record(
                        old(self).errors@,
                        spec_failure_key(ext, offset, want, outcome),
                        spec_failure_detail(offset, outcome),
                    ),
                }
            }),
    {
        match self.get_value(ext, offset, want) {
            Ok(v) => v,
            Err(_) => default_value(want),
        }
    }

    /// The "block->field" path of a registered offset, for display. A path
    /// comes back exactly for the offsets registered under a registered tag,
    /// and reads as the block's name, an arrow, and the field's name.
    pub fn get_field_path(ext: TfxExtern, offset: usize) -> (r: Option<String>)
        ensures
            r is Some <==> spec_layout_of(ext, offset) is Some,
            r matches Some(p) ==> p@ == spec_block_name(ext) + "->"@ + spec_field_name_of(
                ext,
                offset,
            ),
    {
        match ext {
            TfxExtern::Frame => match Frame::get_field_name(offset) {
                Some(f) => Some(join_path(Frame::get_name(), f)),
                None => None,
            },
            TfxExtern::View => match ViewExtern::get_field_name(offset) {
                Some(f) => Some(join_path(ViewExtern::get_name(), f)),
                None => None,
            },
            TfxExtern::Deferred => match Deferred::get_field_name(offset) {
                Some(f) => Some(join_path(Deferred::get_name(), f)),
                None => None,
            },
            TfxExtern::DeferredLight => match DeferredLight::get_field_name(offset) {
                Some(f) => Some(join_path(DeferredLight::get_name(), f)),
                None => None,
            },
            TfxExtern::Transparent => match Transparent::get_field_name(offset) {
                Some(f) => Some(join_path(Transparent::get_name(), f)),
                None => None,
            },
            TfxExtern::RigidModel => match RigidModel::get_field_name(offset) {
                Some(f) => Some(join_path(RigidModel::get_name(), f)),
                None => None,
            },
            TfxExtern::Decal => match Decal::get_field_name(offset) {
                Some(f) => Some(join_path(Decal::get_name(), f)),
                None => None,
            },
            TfxExtern::SimpleGeometry => match SimpleGeometry::get_field_name(offset) {
                Some(f) => Some(join_path(SimpleGeometry::get_name(), f)),
                None => None,
            },
            _ => None,
        }
    }
}

impl Default for ExternStorage {
    /// No block populated, no failure recorded.
    fn default() -> (r: Self)
        ensures
            r.frame is None,
            r.view is None,
            r.deferred is None,
            r.deferred_light is None,
            r.transparent is None,
            r.rigid_model is None,
            r.decal is None,
            r.simple_geometry is None,
            r.errors@ == Map::<ErrorKey, crate::diag::TfxExpressionError>::empty(),
    {
        ExternStorage {
            frame: None,
            view: None,
            deferred: None,
            deferred_light: None,
            transparent: None,
            rigid_model: None,
            decal: None,
            simple_geometry: None,
            errors: TfxExpressionErrorMap::new(),
        }
    }
}

/// Relies on std's `format!`: writes its two pieces in order around the
/// literal arrow, producing the "block->field" display path.
#[verifier::external_body]
fn join_path(owner: &str, field: &str) -> (r: String)
    ensures
        r@ == owner@ + "->"@ + field@,
{
    format!("{}->{}", owner, field)
}

/// For every registered and populated (tag, offset) pair whose backed slot
/// matches the requested type, resolution returns the exact stored bits.
pub proof fn lemma_resolution_returns_stored_bits(
    s: ExternStorage,
    kind: TfxExtern,
    offset: usize,
    want: FieldType,
)
    requires
        spec_is_registered(kind),
        s.spec_is_populated(kind),
        spec_layout_of(kind, offset) matches Some(slot) && !slot.unimplemented && slot.ftype
            == want,
    ensures
        s.resolve_spec(kind, offset, want) == ExternValue::Value(
            s.spec_populated_field(kind, offset),
        ),
{
}

/// A field flagged unbacked resolves to `Unimplemented` under every requested
/// type, even though backing bits are present.
pub proof fn lemma_resolution_unimplemented(
    s: ExternStorage,
    kind: TfxExtern,
    offset: usize,
    want: FieldType,
)
    requires
        spec_is_registered(kind),
        s.spec_is_populated(kind),
        spec_layout_of(kind, offset) matches Some(slot) && slot.unimplemented,
    ensures
        s.resolve_spec(kind, offset, want) == ExternValue::Unimplemented,
{
}

/// An offset not registered for a populated block resolves to
/// `FieldNotFound`.
pub proof fn lemma_resolution_field_not_found(
    s: ExternStorage,
    kind: TfxExtern,
    offset: usize,
    want: FieldType,
)
    requires
        spec_is_registered(kind),
        s.spec_is_populated(kind),
        spec_layout_of(kind, offset) is None,
    ensures
        s.resolve_spec(kind, offset, want) == ExternValue::FieldNotFound,
{
}

/// A tag with no registered block resolves to `ExternNotFound`, whatever the
/// offset, the requested type or the storage contents.
pub proof fn lemma_resolution_kind_not_found(
    s: ExternStorage,
    kind: TfxExtern,
    offset: usize,
    want: FieldType,
)
    requires
        !spec_is_registered(kind),
    ensures
        s.resolve_spec(kind, offset, want) == ExternValue::ExternNotFound,
{
}

/// A registered tag whose instance was not populated this frame resolves to
/// `ExternNotSet`, whatever the offset or the requested type.
pub proof fn lemma_resolution_not_set(
    s: ExternStorage,
    kind: TfxExtern,
    offset: usize,
    want: FieldType,
)
    requires
        spec_is_registered(kind),
        !s.spec_is_populated(kind),
    ensures
        s.resolve_spec(kind, offset, want) == ExternValue::ExternNotSet,
{
}

/// A successful resolution's value always carries the requested type: the
/// stored bits are never handed out under another interpretation.
pub proof fn lemma_resolution_never_aliases(
    s: ExternStorage,
    kind: TfxExtern,
    offset: usize,
    want: FieldType,
)
    ensures
        s.resolve_spec(kind, offset, want) matches ExternValue::Value(v)
            ==> crate::values::spec_value_type(v) == want,
{
    match kind {
        TfxExtern::Frame => {
            match s.frame {
                Some(b) => crate::blocks::lemma_frame_fields_typed(b, offset),
                None => (),
            }
        },
        TfxExtern::View => {
            match s.view {
                Some(b) => crate::blocks::lemma_view_fields_typed(b, offset),
                None => (),
            }
        },
        TfxExtern::Deferred => {
            match s.deferred {
                Some(b) => crate::blocks::lemma_deferred_fields_typed(b, offset),
                None => (),
            }
        },
        TfxExtern::DeferredLight => {
            match s.deferred_light {
                Some(b) => crate::blocks::lemma_deferred_light_fields_typed(b, offset),
                None => (),
            }
        },
        TfxExtern::Transparent => {
            match s.transparent {
                Some(b) => crate::blocks::lemma_transparent_fields_typed(b, offset),
                None => (),
            }
        },
        TfxExtern::RigidModel => {
            match s.rigid_model {
                Some(b) => crate::blocks::lemma_rigid_model_fields_typed(b, offset),
                None => (),
            }
        },
        TfxExtern::Decal => {
            match s.decal {
                Some(b) => crate::blocks::lemma_decal_fields_typed(b, offset),
                None => (),
            }
        },
        TfxExtern::SimpleGeometry => {
            match s.simple_geometry {
                Some(b) => crate::blocks::lemma_simple_geometry_fields_typed(b, offset),
                None => (),
            }
        },
        _ => {},
    }
}

} // verus!
