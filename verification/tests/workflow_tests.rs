use asset::domain::{AssetError, AssetType, AssetVisibility, ImageVersions};
use asset::imaging::resize_image;
use asset::ingest::{Ingest, IngestAction, IngestPhase};
use asset::intake::{field_role, form_task, FieldRole, FormRead, FormTask, UploadForm};
use asset::layout::Rendition;
use asset::media::parse_media_type;
use asset::publish::{
    variant_key, FormEvent, LegacyTarget, Publish, PublishAction, PublishPhase, Reply, ReplyBody,
    Variant,
};
use asset::service::{Deletion, DeletionAction};

fn png(width: u32, height: u32) -> Vec<u8> {
    let img = image::DynamicImage::ImageRgb8(image::RgbImage::new(width, height));
    let mut buf = std::io::Cursor::new(Vec::new());
    img.write_to(&mut buf, image::ImageFormat::Png).unwrap();
    buf.into_inner()
}

fn begin(content_type: &str, data: Vec<u8>) -> (Ingest, IngestAction) {
    Ingest::begin_with_id(
        "acme".to_string(),
        "cat.png".to_string(),
        content_type.to_string(),
        data,
        AssetVisibility::Public,
        "ana".to_string(),
        "http://minio:9000".to_string(),
        "id-1".to_string(),
    )
}

fn store_of(a: IngestAction) -> (String, Vec<u8>, String) {
    match a {
        IngestAction::Store { key, data, content_type } => (key, data, content_type),
        other => panic!("expected a store, got {:?}", other),
    }
}

#[test]
fn document_upload_stores_records_and_succeeds() {
    let (mut up, a) = begin("application/pdf", vec![1, 2, 3]);
    let (key, data, ct) = store_of(a);
    assert_eq!(key, "acme/id-1/cat.png");
    assert_eq!(data, vec![1, 2, 3]);
    assert_eq!(ct, "application/pdf");
    let rec = match up.step(Ok(())) {
        IngestAction::Record(rec) => rec,
        other => panic!("expected a record, got {:?}", other),
    };
    assert_eq!(rec.id, "id-1");
    assert_eq!(rec.tenant_id, "acme");
    assert_eq!(rec.asset_type, AssetType::Document);
    assert_eq!(rec.filename, "cat.png");
    assert_eq!(rec.mime_type, "application/pdf");
    assert_eq!(rec.size, 3);
    assert_eq!(rec.path, "acme/id-1/cat.png");
    assert_eq!(rec.url, "http://minio:9000/acme/id-1/cat.png");
    assert_eq!(rec.versions, None);
    assert_eq!(rec.visibility, AssetVisibility::Public);
    assert_eq!(rec.uploaded_by, "ana");
    match up.step(Ok(())) {
        IngestAction::Finish(Ok(done)) => assert_eq!(done, rec),
        other => panic!("expected success, got {:?}", other),
    }
    assert_eq!(up.phase, IngestPhase::Finished);
}

#[test]
fn failed_original_store_is_a_storage_error() {
    let (mut up, _) = begin("video/mp4", vec![9]);
    match up.step(Err("MinIO upload failed: refused".to_string())) {
        IngestAction::Finish(Err(e)) => {
            assert_eq!(e, AssetError::StorageError("MinIO upload failed: refused".to_string()))
        }
        other => panic!("expected a storage error, got {:?}", other),
    }
    assert!(up.record.is_none());
}

#[test]
fn failed_record_save_is_a_database_error() {
    let (mut up, _) = begin("text/plain", vec![9]);
    assert!(matches!(up.step(Ok(())), IngestAction::Record(_)));
    match up.step(Err("Database insertion failed: dup".to_string())) {
        IngestAction::Finish(Err(e)) => {
            assert_eq!(e, AssetError::DatabaseError("Database insertion failed: dup".to_string()))
        }
        other => panic!("expected a database error, got {:?}", other),
    }
}

#[test]
fn image_that_does_not_decode_is_recorded_without_renditions() {
    let (mut up, _) = begin("image/png", vec![0, 1, 2, 3]);
    let rec = match up.step(Ok(())) {
        IngestAction::Record(rec) => rec,
        other => panic!("expected a record, got {:?}", other),
    };
    assert_eq!(rec.asset_type, AssetType::Image);
    assert_eq!(
        rec.versions,
        Some(ImageVersions {
            original: "acme/id-1/cat.png".to_string(),
            v1200: None,
            v800: None,
            v400: None
        })
    );
}

#[test]
fn rendition_stores_are_named_only_when_they_succeed() {
    let (mut up, _) = begin("image/png", vec![7, 7]);
    // Renditions handed in directly, as a resizer would produce them.
    let a = up.store_rendition(Rendition::W1200, vec![1]);
    let (key, data, ct) = store_of(a);
    assert_eq!(key, "acme/id-1/1200_cat.png.avif");
    assert_eq!(data, vec![1]);
    assert_eq!(ct, "image/avif");
    assert_eq!(up.phase, IngestPhase::StoringRendition(Rendition::W1200));
    // The bytes [7, 7] do not resize, so the remaining renditions are skipped.
    let rec = match up.step(Ok(())) {
        IngestAction::Record(rec) => rec,
        other => panic!("expected a record, got {:?}", other),
    };
    let v = rec.versions.unwrap();
    assert_eq!(v.v1200, Some("acme/id-1/1200_cat.png.avif".to_string()));
    assert_eq!(v.v800, None);
    assert_eq!(v.v400, None);
}

#[test]
fn failed_rendition_store_is_left_out() {
    let (mut up, _) = begin("image/png", vec![7, 7]);
    up.store_rendition(Rendition::W800, vec![1]);
    let rec = match up.step(Err("MinIO upload failed".to_string())) {
        IngestAction::Record(rec) => rec,
        other => panic!("expected a record, got {:?}", other),
    };
    let v = rec.versions.unwrap();
    assert_eq!(v.v800, None);
    assert_eq!(v.v1200, None);
}

#[test]
fn resizing_produces_avif() {
    let src = png(1, 400);
    let out = resize_image(&src, 400, 400).expect("a rendition");
    assert_ne!(out, src);
    assert_eq!(&out[4..12], b"ftypavif");
    assert!(resize_image(&[1, 2, 3], 400, 400).is_none());
}

#[test]
fn image_upload_goes_through_all_renditions() {
    let src = png(1, 1200);
    let (mut up, a) = begin("image/png", src.clone());
    let (_, data, _) = store_of(a);
    assert_eq!(data, src);
    let (key, data, ct) = store_of(up.step(Ok(())));
    assert_eq!(key, "acme/id-1/1200_cat.png.avif");
    assert_ne!(data, src);
    assert_eq!(&data[4..12], b"ftypavif");
    assert_eq!(ct, "image/avif");
    let (key, _, _) = store_of(up.step(Ok(())));
    assert_eq!(key, "acme/id-1/800_cat.png.avif");
    let (key, _, _) = store_of(up.step(Err("refused".to_string())));
    assert_eq!(key, "acme/id-1/400_cat.png.avif");
    let rec = match up.step(Ok(())) {
        IngestAction::Record(rec) => rec,
        other => panic!("expected a record, got {:?}", other),
    };
    assert_eq!(
        rec.versions,
        Some(ImageVersions {
            original: "acme/id-1/cat.png".to_string(),
            v1200: Some("acme/id-1/1200_cat.png.avif".to_string()),
            v800: None,
            v400: Some("acme/id-1/400_cat.png.avif".to_string()),
        })
    );
}

#[test]
fn fresh_uploads_get_distinct_identifiers() {
    let a = Ingest::begin(
        "t".to_string(),
        "f".to_string(),
        "text/plain".to_string(),
        vec![1],
        AssetVisibility::Private,
        "u".to_string(),
        "b".to_string(),
    );
    let b = Ingest::begin(
        "t".to_string(),
        "f".to_string(),
        "text/plain".to_string(),
        vec![1],
        AssetVisibility::Private,
        "u".to_string(),
        "b".to_string(),
    );
    assert_ne!(a.0.asset_id, b.0.asset_id);
    assert_eq!(a.0.asset_id.len(), 36);
    assert_eq!(a.0.path, format!("t/{}/f", a.0.asset_id));
}

#[test]
fn media_types() {
    let m = parse_media_type("image/PNG").unwrap();
    assert_eq!(m.top_level, "image");
    assert_eq!(m.subtype, "png");
    assert_eq!(m.text, "image/png");
    assert!(parse_media_type("not a type").is_none());
    assert_eq!(parse_media_type("application/octet-stream").unwrap().top_level, "application");
}

fn reply_of(a: PublishAction) -> Reply {
    match a {
        PublishAction::Reply(r) => r,
        other => panic!("expected a reply, got {:?}", other),
    }
}

fn text(status: u16, s: &str) -> Reply {
    Reply { status, body: ReplyBody::Text(s.to_string()) }
}

fn field(name: &str, ct: Option<&str>) -> FormEvent {
    FormEvent::Field { name: Some(name.to_string()), content_type: ct.map(|c| c.to_string()) }
}

fn publish() -> Publish {
    let (p, a) = Publish::begin("products".to_string(), "images".to_string());
    assert!(matches!(a, PublishAction::NextField));
    p
}

#[test]
fn legacy_targets() {
    assert_eq!(LegacyTarget::Products.folder(), "products");
    assert_eq!(LegacyTarget::Products.default_bucket(), "images");
    assert_eq!(LegacyTarget::Products.bucket_setting(), "MINIO_BUCKET_PRODUCTS");
    assert_eq!(LegacyTarget::Images.folder(), "images");
    assert_eq!(LegacyTarget::Images.default_bucket(), "images");
    assert_eq!(LegacyTarget::Contents.folder(), "contents");
    assert_eq!(LegacyTarget::Contents.default_bucket(), "contents");
    assert_eq!(LegacyTarget::Contents.bucket_setting(), "MINIO_BUCKET_CONTENTS");
    assert_eq!(variant_key("products", Variant::Thumbnail, "u", "png"), "products/thumbnail/u.png");
}

#[test]
fn empty_form_and_missing_file() {
    let mut p = publish();
    assert_eq!(
        reply_of(p.on_form(FormEvent::NoMoreFields)),
        text(400, "No fields found (ensure you send a 'file' field)")
    );
    let mut p = publish();
    assert!(matches!(p.on_form(field("other", None)), PublishAction::NextField));
    assert!(matches!(
        p.on_form(FormEvent::Field { name: None, content_type: None }),
        PublishAction::NextField
    ));
    assert_eq!(
        reply_of(p.on_form(FormEvent::NoMoreFields)),
        text(400, "file field missing (ensure the field name in Postman is exactly 'file')")
    );
}

#[test]
fn broken_forms() {
    let mut p = publish();
    assert_eq!(
        reply_of(p.on_form(FormEvent::Broken("invalid boundary".to_string()))),
        text(400, "Invalid boundary. In Postman, do NOT set 'Content-Type' manually in Headers. Let Postman handle it automatically when you select 'form-data' in the Body tab.")
    );
    let mut p = publish();
    assert_eq!(
        reply_of(p.on_form(FormEvent::Broken("stream closed".to_string()))),
        text(400, "Multipart error: stream closed")
    );
    let mut p = publish();
    p.on_form(field("x", None));
    assert_eq!(
        reply_of(p.on_form(FormEvent::Broken("boundary gone".to_string()))),
        text(400, "Multipart error: boundary gone")
    );
}

#[test]
fn file_types_are_checked() {
    let mut p = publish();
    assert_eq!(reply_of(p.on_form(field("file", Some("garbage")))), text(400, "Invalid Content-Type"));
    let mut p = publish();
    assert_eq!(
        reply_of(p.on_form(field("file", None))),
        text(415, "Not an image (received: application/octet-stream)")
    );
    let mut p = publish();
    assert_eq!(
        reply_of(p.on_form(field("file", Some("Text/Plain")))),
        text(415, "Not an image (received: text/plain)")
    );
    let mut p = publish();
    assert!(matches!(p.on_form(field("file", Some("image/png"))), PublishAction::ReadFile));
    assert_eq!(p.phase, PublishPhase::ReadingFile);
    assert_eq!(p.ext, "png");
    assert_eq!(reply_of(p.on_file(Err("reset".to_string()))), text(500, "Failed to read bytes: reset"));
}

#[test]
fn undecodable_image_cannot_be_processed() {
    let mut p = publish();
    p.on_form(field("file", Some("image/png")));
    match p.on_file(Ok(vec![1, 2, 3])) {
        PublishAction::Store { key, data, content_type } => {
            assert_eq!(key, format!("products/original/{}.png", p.file_id));
            assert_eq!(data, vec![1, 2, 3]);
            assert_eq!(content_type, "image/png");
        }
        other => panic!("expected a store, got {:?}", other),
    }
    assert_eq!(reply_of(p.on_stored(Ok(()))), text(500, "Failed to process image"));
}

#[test]
fn failed_store_is_reported() {
    let mut p = publish();
    p.on_form(field("file", Some("image/png")));
    p.start_storing(vec![1], "u1".to_string());
    assert_eq!(reply_of(p.on_stored(Err("x".to_string()))), text(500, "Failed to upload to storage"));
}

#[test]
fn all_variants_stored_lists_their_keys() {
    let mut p = publish();
    p.on_form(field("file", Some("image/jpeg")));
    match p.start_storing(vec![1], "u1".to_string()) {
        PublishAction::Store { key, .. } => assert_eq!(key, "products/original/u1.jpeg"),
        other => panic!("expected a store, got {:?}", other),
    }
    p.keys.push("products/original/u1.jpeg".to_string());
    match p.store_variant(Variant::Medium, Some(vec![2])) {
        PublishAction::Store { key, data, content_type } => {
            assert_eq!(key, "products/medium/u1.jpeg");
            assert_eq!(data, vec![2]);
            assert_eq!(content_type, "image/jpeg");
        }
        other => panic!("expected a store, got {:?}", other),
    }
    p.keys.push("products/medium/u1.jpeg".to_string());
    p.store_variant(Variant::Thumbnail, Some(vec![3]));
    assert_eq!(
        reply_of(p.on_stored(Ok(()))),
        Reply {
            status: 200,
            body: ReplyBody::Stored {
                keys: vec![
                    "products/original/u1.jpeg".to_string(),
                    "products/medium/u1.jpeg".to_string(),
                    "products/thumbnail/u1.jpeg".to_string()
                ],
                bucket: "images".to_string()
            }
        }
    );
    let mut q = publish();
    q.on_form(field("file", Some("image/png")));
    assert_eq!(reply_of(q.store_variant(Variant::Medium, None)), text(500, "Failed to process image"));
}

#[test]
fn real_image_goes_through_the_legacy_variants() {
    let src = png(1, 200);
    let mut p = publish();
    p.on_form(field("file", Some("image/png")));
    p.start_storing(src.clone(), "u2".to_string());
    match p.on_stored(Ok(())) {
        PublishAction::Store { key, data, content_type } => {
            assert_eq!(key, "products/medium/u2.png");
            assert_ne!(data, src);
            assert_eq!(&data[4..12], b"ftypavif");
            assert_eq!(content_type, "image/png");
        }
        other => panic!("expected a store, got {:?}", other),
    }
}

#[test]
fn upload_form_fields() {
    assert_eq!(field_role(Some("tenant_id")), FieldRole::TenantId);
    assert_eq!(field_role(Some("user_id")), FieldRole::UserId);
    assert_eq!(field_role(Some("private")), FieldRole::Private);
    assert_eq!(field_role(Some("file")), FieldRole::File);
    assert_eq!(field_role(Some("File")), FieldRole::Other);
    assert_eq!(field_role(None), FieldRole::Other);
    let mut f = UploadForm::new();
    assert_eq!(f.tenant_id, "default");
    assert_eq!(f.uploaded_by, "system");
    assert_eq!(f.visibility, AssetVisibility::Public);
    f.accept_text(FieldRole::TenantId, Some("acme".to_string()));
    f.accept_text(FieldRole::UserId, None);
    f.accept_text(FieldRole::Private, Some("yes".to_string()));
    assert_eq!(f.tenant_id, "acme");
    assert_eq!(f.uploaded_by, "system");
    assert_eq!(f.visibility, AssetVisibility::Public);
    f.accept_text(FieldRole::Private, Some("true".to_string()));
    assert_eq!(f.visibility, AssetVisibility::Private);
    f.accept_text(FieldRole::Private, Some("false".to_string()));
    assert_eq!(f.visibility, AssetVisibility::Private);
    f.accept_text(FieldRole::TenantId, None);
    assert_eq!(f.tenant_id, "default");
    assert_eq!(f.clone().finish(), Err(AssetError::InvalidType));
    f.accept_file(None, None, Some(vec![5]));
    assert_eq!(f.filename, "unknown");
    assert_eq!(f.content_type, "application/octet-stream");
    let done = f.clone().finish().unwrap();
    assert_eq!(done.data, vec![5]);
    f.accept_file(Some("a.png".to_string()), Some("image/png".to_string()), None);
    assert_eq!(f.filename, "a.png");
    assert!(f.data.is_empty());
}

#[test]
fn deletion_removes_object_then_record() {
    let (mut d, a) = Deletion::begin("id-9".to_string());
    assert!(matches!(a, DeletionAction::Fetch(ref id) if id == "id-9"));
    let rec = asset::domain::Asset {
        id: "id-9".to_string(),
        tenant_id: "t".to_string(),
        asset_type: AssetType::Document,
        filename: "f".to_string(),
        mime_type: "text/plain".to_string(),
        size: 1,
        path: "t/id-9/f".to_string(),
        url: "u".to_string(),
        versions: None,
        visibility: AssetVisibility::Public,
        uploaded_by: "s".to_string(),
        created_at: asset::domain::Timestamp { seconds: 0, nanos: 0 },
        updated_at: asset::domain::Timestamp { seconds: 0, nanos: 0 },
    };
    assert!(matches!(d.on_fetched(Ok(Some(rec))), DeletionAction::RemoveObject(ref k) if k == "t/id-9/f"));
    assert!(matches!(d.on_object_removed(Ok(())), DeletionAction::RemoveRecord(ref id) if id == "id-9"));
    assert!(matches!(d.on_record_removed(Ok(())), DeletionAction::Finish(Ok(()))));
}

#[test]
fn deletion_failures() {
    let (mut d, _) = Deletion::begin("id".to_string());
    assert!(matches!(d.on_fetched(Ok(None)), DeletionAction::Finish(Err(AssetError::AssetNotFound))));
    let (mut d, _) = Deletion::begin("id".to_string());
    assert!(matches!(d.on_fetched(Err("x".to_string())), DeletionAction::Finish(Err(AssetError::Internal))));
    let (mut d, _) = Deletion::begin("id".to_string());
    d.phase = asset::service::DeletionPhase::RemovingObject;
    match d.on_object_removed(Err("denied".to_string())) {
        DeletionAction::Finish(Err(e)) => assert_eq!(e, AssetError::StorageError("denied".to_string())),
        other => panic!("unexpected {:?}", other),
    }
    d.phase = asset::service::DeletionPhase::RemovingRecord;
    assert!(matches!(d.on_record_removed(Err("x".to_string())), DeletionAction::Finish(Err(AssetError::Internal))));
}

fn assert_v4_uuid(id: &str) {
    let chars: Vec<char> = id.chars().collect();
    assert_eq!(chars.len(), 36);
    for (i, c) in chars.iter().enumerate() {
        if i == 8 || i == 13 || i == 18 || i == 23 {
            assert_eq!(*c, '-');
        } else {
            assert!(c.is_ascii_digit() || ('a'..='f').contains(c));
        }
    }
    assert_eq!(chars[14], '4');
    assert!(['8', '9', 'a', 'b'].contains(&chars[19]));
}

#[test]
fn fresh_identifiers_are_version_4_uuids() {
    let (up, _) = Ingest::begin(
        "t".to_string(),
        "f".to_string(),
        "text/plain".to_string(),
        vec![1],
        AssetVisibility::Public,
        "u".to_string(),
        "b".to_string(),
    );
    assert_v4_uuid(&up.asset_id);
    let mut p = publish();
    p.on_form(field("file", Some("image/png")));
    p.on_file(Ok(vec![1]));
    assert_v4_uuid(&p.file_id);
}

#[test]
fn records_are_stamped_with_clock_times() {
    let (mut up, _) = begin("text/plain", vec![1]);
    match up.step(Ok(())) {
        IngestAction::Record(rec) => {
            assert!(rec.created_at.seconds > 1_600_000_000);
            assert!(rec.created_at.nanos < 1_000_000_000);
            assert!(rec.updated_at.nanos < 1_000_000_000);
        }
        other => panic!("expected a record, got {:?}", other),
    }
}

#[test]
fn upload_form_reading_tasks() {
    let f = |n: Option<&str>| FormRead::Field { name: n.map(|s| s.to_string()) };
    assert_eq!(form_task(&f(Some("tenant_id"))), FormTask::ReadText(FieldRole::TenantId));
    assert_eq!(form_task(&f(Some("user_id"))), FormTask::ReadText(FieldRole::UserId));
    assert_eq!(form_task(&f(Some("private"))), FormTask::ReadText(FieldRole::Private));
    assert_eq!(form_task(&f(Some("file"))), FormTask::ReadFile);
    assert_eq!(form_task(&f(Some("other"))), FormTask::Skip);
    assert_eq!(form_task(&f(None)), FormTask::Skip);
    assert_eq!(form_task(&FormRead::NoMoreFields), FormTask::Stop);
    assert_eq!(form_task(&FormRead::Broken), FormTask::Stop);
}

#[test]
fn configured_defaults() {
    assert_eq!(asset::config::asset_bucket_setting(), "MINIO_BUCKET");
    assert_eq!(asset::config::default_asset_bucket(), "images");
    assert_eq!(asset::config::default_base_url(), "http://localhost:9000");
}
