use asset::publish::{variant_key, Variant};
use asset::domain::{
    classify_content_type, AssetError, AssetType, AssetVersionResponse, AssetVisibility, Asset,
    ImageVersions, Timestamp,
};
use asset::text::{contains, same_text, starts_with};
use asset::service::{fetched_batch, found_asset, index_by_id, listed_assets, tenant_filter};
use asset::config::database_name;
use asset::layout::{object_path, public_url, rendition_key, Rendition};

fn sample_asset(id: &str, versions: Option<ImageVersions>) -> Asset {
    Asset {
        id: id.to_string(),
        tenant_id: "acme".to_string(),
        asset_type: AssetType::Image,
        filename: "cat.png".to_string(),
        mime_type: "image/png".to_string(),
        size: 42,
        path: format!("acme/{}/cat.png", id),
        url: format!("http://minio:9000/acme/{}/cat.png", id),
        versions,
        visibility: AssetVisibility::Public,
        uploaded_by: "system".to_string(),
        created_at: Timestamp { seconds: 1, nanos: 2 },
        updated_at: Timestamp { seconds: 1, nanos: 2 },
    }
}

#[test]
fn text_helpers_follow_their_definitions() {
    assert!(starts_with("image/png", "image/"));
    assert!(!starts_with("ima", "image/"));
    assert!(starts_with("anything", ""));
    assert!(contains("application/msword", "word"));
    assert!(!contains("application/pdf", "word"));
    assert!(contains("abc", ""));
    assert!(same_text("héllo", "héllo"));
    assert!(!same_text("hello", "hellO"));
}

#[test]
fn images_are_recognised_by_their_prefix() {
    assert_eq!(classify_content_type("image/png"), AssetType::Image);
    assert_eq!(classify_content_type("image/"), AssetType::Image);
    assert_eq!(classify_content_type("IMAGE/PNG"), AssetType::Document);
}

#[test]
fn documents_videos_and_the_rest() {
    assert_eq!(classify_content_type("application/pdf"), AssetType::Document);
    assert_eq!(
        classify_content_type("application/vnd.openxmlformats-officedocument.wordprocessingml.document"),
        AssetType::Document
    );
    assert_eq!(classify_content_type("application/msword"), AssetType::Document);
    assert_eq!(classify_content_type("video/mp4"), AssetType::Video);
    assert_eq!(classify_content_type("text/plain"), AssetType::Document);
    assert_eq!(classify_content_type(""), AssetType::Document);
    assert_eq!(classify_content_type("application/pdf; charset=x"), AssetType::Document);
}

#[test]
fn error_statuses_and_messages() {
    assert_eq!(AssetError::AssetNotFound.status_code(), 404);
    assert_eq!(AssetError::AssetNotFound.message(), "Asset not found");
    let e = AssetError::StorageError("MinIO upload failed: timeout".to_string());
    assert_eq!(e.status_code(), 500);
    assert_eq!(e.message(), "Storage error: MinIO upload failed: timeout");
    let e = AssetError::DatabaseError("down".to_string());
    assert_eq!(e.status_code(), 500);
    assert_eq!(e.message(), "Database error: down");
    assert_eq!(AssetError::InvalidType.status_code(), 400);
    assert_eq!(AssetError::InvalidType.message(), "Invalid asset type");
    assert_eq!(AssetError::Internal.status_code(), 500);
    assert_eq!(AssetError::Internal.message(), "Internal server error");
}

#[test]
fn database_failures_name_duplicate_keys() {
    assert_eq!(
        AssetError::from_database_failure(Some(11000), "E11000 dup".to_string()),
        AssetError::DatabaseError("Duplicate key".to_string())
    );
    assert_eq!(
        AssetError::from_database_failure(Some(2), "bad value".to_string()),
        AssetError::DatabaseError("bad value".to_string())
    );
    assert_eq!(
        AssetError::from_database_failure(None, "connection reset".to_string()),
        AssetError::DatabaseError("connection reset".to_string())
    );
}

#[test]
fn general_failures_are_internal() {
    let e: AssetError = anyhow::Error::msg("boom").into();
    assert_eq!(e, AssetError::Internal);
}

#[test]
fn keys_and_urls() {
    assert_eq!(object_path("acme", "id-1", "cat.png"), "acme/id-1/cat.png");
    assert_eq!(rendition_key("acme", "id-1", Rendition::W1200, "cat.png"), "acme/id-1/1200_cat.png.avif");
    assert_eq!(rendition_key("acme", "id-1", Rendition::W800, "cat.png"), "acme/id-1/800_cat.png.avif");
    assert_eq!(rendition_key("acme", "id-1", Rendition::W400, "cat.png"), "acme/id-1/400_cat.png.avif");
    assert_eq!(public_url("http://minio:9000", "acme/id-1/cat.png"), "http://minio:9000/acme/id-1/cat.png");
    assert_eq!(Rendition::W1200.edge_px(), 1200);
    assert_eq!(Rendition::W800.edge_px(), 800);
    assert_eq!(Rendition::W400.edge_px(), 400);
    assert_eq!(Rendition::W1200.next(), Some(Rendition::W800));
    assert_eq!(Rendition::W400.next(), None);
}

#[test]
fn lookups() {
    let a = sample_asset("a1", None);
    assert_eq!(found_asset(Ok(Some(a.clone()))), Ok(a));
    assert_eq!(found_asset(Ok(None)), Err(AssetError::AssetNotFound));
    assert_eq!(found_asset(Err("x".to_string())), Err(AssetError::Internal));
    assert_eq!(fetched_batch(Ok(vec![])), Ok(vec![]));
    assert_eq!(
        fetched_batch(Err("Database insertion failed".to_string())),
        Err(AssetError::DatabaseError("Database insertion failed".to_string()))
    );
    assert_eq!(listed_assets(Err("x".to_string())), Err(AssetError::Internal));
    let b = sample_asset("b", None);
    assert_eq!(listed_assets(Ok(vec![b.clone()])), Ok(vec![b]));
}

#[test]
fn batch_keeps_the_last_asset_of_each_id() {
    let mut first = sample_asset("x", None);
    first.size = 1;
    let y = sample_asset("y", None);
    let mut second = sample_asset("x", None);
    second.size = 2;
    let indexed = index_by_id(&vec![first, y.clone(), second.clone()]);
    assert_eq!(indexed, vec![y, second]);
    assert_eq!(index_by_id(&vec![]), vec![]);
}

#[test]
fn listing_filters() {
    let f = tenant_filter("acme", None);
    assert_eq!(f, vec![("tenant_id".to_string(), "acme".to_string())]);
    let f = tenant_filter("acme", Some("image"));
    assert_eq!(
        f,
        vec![
            ("tenant_id".to_string(), "acme".to_string()),
            ("type".to_string(), "image".to_string())
        ]
    );
}

#[test]
fn versions_view_falls_back_to_the_url() {
    let a = sample_asset("v1", None);
    let r = AssetVersionResponse::from_asset(a);
    assert_eq!(r.fallback_url, "http://minio:9000/acme/v1/cat.png");
    assert_eq!(
        r.versions,
        ImageVersions {
            original: "http://minio:9000/acme/v1/cat.png".to_string(),
            v1200: None,
            v800: None,
            v400: None
        }
    );
    let v = ImageVersions {
        original: "acme/v2/cat.png".to_string(),
        v1200: Some("acme/v2/1200_cat.png.avif".to_string()),
        v800: None,
        v400: Some("acme/v2/400_cat.png.avif".to_string()),
    };
    let r = AssetVersionResponse::from_asset(sample_asset("v2", Some(v.clone())));
    assert_eq!(r.versions, v);
    assert_eq!(r.id, "v2");
    assert_eq!(r.asset_type, AssetType::Image);
}

#[test]
fn database_names_from_uris() {
    assert_eq!(database_name("mongodb://localhost:27017/assets?retryWrites=true"), "assets");
    assert_eq!(database_name("mongodb://localhost:27017/media"), "media");
    assert_eq!(database_name("mongodb://localhost:27017/"), "asset");
    assert_eq!(database_name("mongodb://localhost:27017/?w=majority"), "asset");
    assert_eq!(database_name("plain"), "plain");
    assert_eq!(database_name(""), "asset");
}

#[test]
fn record_store_failures_are_database_errors() {
    let e = AssetError::from_database_error(mongodb::error::Error::custom("lost connection"));
    match e {
        AssetError::DatabaseError(text) => {
            assert_ne!(text, "Duplicate key");
            assert!(text.starts_with("Kind: "));
        }
        other => panic!("expected a database error, got {:?}", other),
    }
}

#[test]
fn objects_of_one_upload_and_of_two_assets_never_collide() {
    let keys = vec![
        object_path("acme", "id-1", "a.png"),
        rendition_key("acme", "id-1", Rendition::W1200, "a.png"),
        rendition_key("acme", "id-1", Rendition::W800, "a.png"),
        rendition_key("acme", "id-1", Rendition::W400, "a.png"),
        object_path("acme", "id-2", "a.png"),
        rendition_key("acme", "id-2", Rendition::W800, "a.png"),
    ];
    for i in 0..keys.len() {
        for j in 0..keys.len() {
            if i != j {
                assert_ne!(keys[i], keys[j]);
            }
        }
    }
    assert!(keys[..4].iter().all(|k| k.starts_with("acme/id-1/")));
}

#[test]
fn legacy_variant_keys_differ() {
    let a = variant_key("images", Variant::Original, "u", "png");
    let b = variant_key("images", Variant::Medium, "u", "png");
    let c = variant_key("images", Variant::Thumbnail, "u", "png");
    assert_eq!(a, "images/original/u.png");
    assert_eq!(b, "images/medium/u.png");
    assert_eq!(c, "images/thumbnail/u.png");
    assert_ne!(a, b);
    assert_ne!(b, c);
    assert_ne!(a, c);
}

#[test]
fn batch_index_has_one_entry_per_id() {
    let assets = vec![
        sample_asset("a", None),
        sample_asset("b", None),
        sample_asset("a", None),
        sample_asset("c", None),
        sample_asset("b", None),
    ];
    let ids: Vec<String> = index_by_id(&assets).into_iter().map(|a| a.id).collect();
    assert_eq!(ids, vec!["a".to_string(), "c".to_string(), "b".to_string()]);
}
