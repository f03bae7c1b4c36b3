use tfx::blocks::{Deferred, Frame, ViewExtern};
use tfx::diag::{ErrorKey, FieldFailure, StorageFailure, TfxExpressionErrorType};
use tfx::fields::{Extern, ExternValue};
use tfx::kinds::TfxExtern;
use tfx::storage::{ExternStorage, TfxResolveError};
use tfx::values::{FieldType, FieldValue, Mat4Bits, TextureView, Vec4Bits};

fn vec4_bits(x: f32, y: f32, z: f32, w: f32) -> Vec4Bits {
    Vec4Bits { x: x.to_bits(), y: y.to_bits(), z: z.to_bits(), w: w.to_bits() }
}

#[test]
fn test_externs() {
    let deferred = Deferred { unk00: vec4_bits(1.0, 2.0, 3.0, 4.0), ..Default::default() };

    assert_eq!(deferred.get_field(0x00, FieldType::Vec4), ExternValue::Unimplemented);

    let view = ViewExtern {
        resolution_width: 1920.0f32.to_bits(),
        resolution_height: 1080.0f32.to_bits(),
        ..Default::default()
    };

    assert_eq!(
        view.get_field(0x00, FieldType::Float),
        ExternValue::Value(FieldValue::Float(1920.0f32.to_bits()))
    );
    assert_eq!(
        view.get_field(0x04, FieldType::Float),
        ExternValue::Value(FieldValue::Float(1080.0f32.to_bits()))
    );
}

#[test]
fn view_resolution_through_resolver() {
    let mut storage = ExternStorage::default();
    storage.view = Some(ViewExtern {
        resolution_width: 1920.0f32.to_bits(),
        resolution_height: 1080.0f32.to_bits(),
        ..Default::default()
    });

    assert_eq!(
        storage.get_value(TfxExtern::View, 0x00, FieldType::Float),
        Ok(FieldValue::Float(1920.0f32.to_bits()))
    );
    assert_eq!(
        storage.get_value(TfxExtern::View, 0x04, FieldType::Float),
        Ok(FieldValue::Float(1080.0f32.to_bits()))
    );
    // Successes leave no diagnostic behind.
    assert_eq!(storage.errors.len(), 0);
}

#[test]
fn matching_lookup_returns_exact_bits() {
    let mut storage = ExternStorage::default();
    let position = vec4_bits(-0.0, 1.5e-42, f32::NAN, 3.0e38);
    storage.view = Some(ViewExtern { position, ..Default::default() });

    // The stored bit patterns come back untouched, including the negative
    // zero and the NaN payload.
    assert_eq!(
        storage.get_value(TfxExtern::View, 0x20, FieldType::Vec4),
        Ok(FieldValue::Vec4(position))
    );
}

#[test]
fn unimplemented_field_hides_populated_bits() {
    let mut storage = ExternStorage::default();
    storage.deferred = Some(Deferred { unk00: vec4_bits(1.0, 2.0, 3.0, 4.0), ..Default::default() });

    // The field is flagged unbacked: the populated vector must not come out,
    // under any requested type.
    assert_eq!(
        storage.get_value(TfxExtern::Deferred, 0x00, FieldType::Vec4),
        Err(TfxResolveError::Unimplemented)
    );
    assert_eq!(
        storage.get_value(TfxExtern::Deferred, 0x00, FieldType::Float),
        Err(TfxResolveError::Unimplemented)
    );
}

#[test]
fn mismatched_type_is_rejected_not_aliased() {
    let mut storage = ExternStorage::default();
    storage.view = Some(ViewExtern { resolution_width: 1920.0f32.to_bits(), ..Default::default() });

    assert_eq!(
        storage.get_value(TfxExtern::View, 0x00, FieldType::Vec4),
        Err(TfxResolveError::InvalidType(FieldType::Float))
    );
}

#[test]
fn unregistered_offset_is_field_not_found() {
    let mut storage = ExternStorage::default();
    storage.view = Some(ViewExtern::default());

    assert_eq!(
        storage.get_value(TfxExtern::View, 0x08, FieldType::Float),
        Err(TfxResolveError::FieldNotFound)
    );
}

#[test]
fn unregistered_kind_is_extern_not_found() {
    let mut storage = ExternStorage::default();

    assert_eq!(
        storage.get_value(TfxExtern::Water, 0x00, FieldType::Float),
        Err(TfxResolveError::ExternNotFound)
    );
    // Populating other blocks changes nothing for an unregistered tag.
    storage.view = Some(ViewExtern::default());
    assert_eq!(
        storage.get_value(TfxExtern::Water, 0x00, FieldType::Float),
        Err(TfxResolveError::ExternNotFound)
    );
}

#[test]
fn unpopulated_kind_is_extern_not_set() {
    let mut storage = ExternStorage::default();

    assert_eq!(
        storage.get_value(TfxExtern::View, 0x00, FieldType::Float),
        Err(TfxResolveError::ExternNotSet)
    );
}

#[test]
fn repeated_failures_share_one_record() {
    let mut storage = ExternStorage::default();
    storage.view = Some(ViewExtern::default());

    for _ in 0..3 {
        assert_eq!(
            storage.get_value(TfxExtern::View, 0x08, FieldType::Float),
            Err(TfxResolveError::FieldNotFound)
        );
    }

    assert_eq!(storage.errors.len(), 1);
    let key = ErrorKey::Field {
        kind: TfxExtern::View,
        offset: 0x08,
        requested: FieldType::Float,
        failure: FieldFailure::FieldNotFound,
    };
    let record = storage.errors.get(key).expect("one record under the shared key");
    assert_eq!(record.repeat_count, 3);
    assert_eq!(
        record.error_type,
        TfxExpressionErrorType::FieldNotFound { field_offset: 0x08 }
    );

    // A different failure gets its own record.
    let _ = storage.get_value(TfxExtern::View, 0x00, FieldType::Vec4);
    assert_eq!(storage.errors.len(), 2);
    let entry = storage.errors.entry_at(1);
    assert_eq!(
        entry.key,
        ErrorKey::Field {
            kind: TfxExtern::View,
            offset: 0x00,
            requested: FieldType::Vec4,
            failure: FieldFailure::InvalidType,
        }
    );
    assert_eq!(entry.error.repeat_count, 1);
}

#[test]
fn storage_level_failures_keyed_by_offset_and_type() {
    let mut storage = ExternStorage::default();

    // Identical failures on an unpopulated block share one record...
    let _ = storage.get_value(TfxExtern::Frame, 0x00, FieldType::Float);
    let _ = storage.get_value(TfxExtern::Frame, 0x00, FieldType::Float);
    assert_eq!(storage.errors.len(), 1);
    let record = storage
        .errors
        .get(ErrorKey::Storage {
            kind: TfxExtern::Frame,
            offset: 0x00,
            requested: FieldType::Float,
            failure: StorageFailure::NotSet,
        })
        .expect("one record for the repeated failure");
    assert_eq!(record.repeat_count, 2);
    assert_eq!(record.error_type, TfxExpressionErrorType::ExternNotSet);

    // ...while another offset or requested type is its own failure.
    let _ = storage.get_value(TfxExtern::Frame, 0x04, FieldType::Float);
    let _ = storage.get_value(TfxExtern::Frame, 0x00, FieldType::Vec4);
    assert_eq!(storage.errors.len(), 3);

    // An unregistered tag is keyed and detailed distinctly too.
    let _ = storage.get_value(TfxExtern::Water, 0x10, FieldType::Vec4);
    let record = storage
        .errors
        .get(ErrorKey::Storage {
            kind: TfxExtern::Water,
            offset: 0x10,
            requested: FieldType::Vec4,
            failure: StorageFailure::NotFound,
        })
        .expect("one record for the unregistered tag");
    assert_eq!(record.repeat_count, 1);
    assert_eq!(record.error_type, TfxExpressionErrorType::ExternNotFound);
}

#[test]
fn default_substitution_still_records_the_diagnostic() {
    let mut storage = ExternStorage::default();
    storage.view = Some(ViewExtern::default());

    let v = storage.get_value_or_default(TfxExtern::View, 0x08, FieldType::Float);
    assert_eq!(v, FieldValue::Float(0.0f32.to_bits()));
    let v = storage.get_value_or_default(TfxExtern::View, 0x40, FieldType::Mat4);
    assert_eq!(v, FieldValue::Mat4(Mat4Bits::identity()));
    assert_eq!(storage.errors.len(), 1);

    // A successful lookup is untouched by the convenience path.
    let v = storage.get_value_or_default(TfxExtern::View, 0x00, FieldType::Float);
    assert_eq!(v, FieldValue::Float(0.0f32.to_bits()));
    assert_eq!(storage.errors.len(), 1);
}

#[test]
fn matrix_default_is_identity_bits() {
    let id = Mat4Bits::identity();
    assert_eq!(id.x_axis.x, 1.0f32.to_bits());
    assert_eq!(id.y_axis.y, 1.0f32.to_bits());
    assert_eq!(id.z_axis.z, 1.0f32.to_bits());
    assert_eq!(id.w_axis.w, 1.0f32.to_bits());
    assert_eq!(id.x_axis.y, 0);

    let m = Mat4Bits {
        x_axis: vec4_bits(1.0, 2.0, 3.0, 4.0),
        y_axis: vec4_bits(5.0, 6.0, 7.0, 8.0),
        z_axis: vec4_bits(9.0, 10.0, 11.0, 12.0),
        w_axis: vec4_bits(13.0, 14.0, 15.0, 16.0),
    };
    let t = m.to_3x4();
    assert_eq!(t.x_axis, m.x_axis);
    assert_eq!(t.y_axis, m.y_axis);
    assert_eq!(t.z_axis, m.z_axis);
}

#[test]
fn texture_views_never_fake_a_handle() {
    let absent = TextureView::Null;
    assert_eq!(absent.view(), None);
    assert_eq!(absent.view_unchecked(), 0);

    let live = TextureView::RawSRV(0xdead_beef);
    assert_eq!(live.view(), Some(0xdead_beef));
    assert_eq!(live.view_unchecked(), 0xdead_beef);

    let mut storage = ExternStorage::default();
    storage.frame = Some(Frame {
        specular_lobe_lookup: live,
        ..Default::default()
    });
    assert_eq!(
        storage.get_value(TfxExtern::Frame, 0xa8, FieldType::Texture),
        Ok(FieldValue::Texture(live))
    );
}

#[test]
fn field_paths_name_registered_offsets() {
    assert_eq!(
        ExternStorage::get_field_path(TfxExtern::View, 0x00).as_deref(),
        Some("view->resolution_width")
    );
    assert_eq!(
        ExternStorage::get_field_path(TfxExtern::RigidModel, 0x40).as_deref(),
        Some("rigid_model->position_scale")
    );
    assert_eq!(ExternStorage::get_field_path(TfxExtern::View, 0x08), None);
    assert_eq!(ExternStorage::get_field_path(TfxExtern::Water, 0x00), None);
    assert_eq!(ViewExtern::get_name(), "view");
    assert_eq!(ViewExtern::get_field_name(0x04), Some("resolution_height"));
    assert_eq!(ViewExtern::get_field_name(0x08), None);
}

#[test]
fn handle_words_convert_into_views() {
    assert_eq!(TextureView::from(7u64), TextureView::RawSRV(7));
    assert_eq!(TextureView::default(), TextureView::Null);
}

#[test]
fn sampler_headers_are_validated_by_entry_type() {
    assert!(tfx::loaders::sampler_entry_matches(34, 1));
    assert!(!tfx::loaders::sampler_entry_matches(34, 2));
    assert!(!tfx::loaders::sampler_entry_matches(33, 1));
}
