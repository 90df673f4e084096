//! End-to-end scenarios for the fetch service: cache hits, version
//! mismatches, idempotence, and best-effort persistence.

use ui_forge::json::JsonValue;
use ui_forge::model::FigmaFileQuery;
use ui_forge::service::{
    FetchReply, FetchService, UpstreamModel, absorb_save, build_file, resolve_plan, ResolvePlan,
};
use ui_forge::errors::FigmaServiceError;

fn text(t: &str) -> JsonValue {
    JsonValue::Text(t.to_string())
}

fn object(entries: Vec<(&str, JsonValue)>) -> JsonValue {
    JsonValue::Object(entries.into_iter().map(|(k, v)| (k.to_string(), v)).collect())
}

fn query(file_key: &str, version: Option<&str>) -> FigmaFileQuery {
    FigmaFileQuery {
        file_key: file_key.to_string(),
        version: version.map(|v| v.to_string()),
        ids: None,
        depth: None,
        geometry: None,
        plugin_data: None,
        branch_data: None,
    }
}

fn demo_payload(version: &str) -> JsonValue {
    object(vec![
        ("name", text("Demo")),
        ("version", text(version)),
        ("components", object(vec![])),
    ])
}

#[test]
fn empty_store_fetches_once_and_caches() {
    let upstream = UpstreamModel::new(vec![FetchReply::Payload(demo_payload("1"))]);
    let mut service = FetchService::new(upstream);

    let q = query("abc123", None);
    let file = service.get_figma_file(&q, "tok-1", 1000).unwrap();

    assert_eq!(service.upstream.calls, 1);
    assert_eq!(file.file_key, "abc123");
    assert_eq!(file.name.as_deref(), Some("Demo"));
    assert_eq!(file.version.as_deref(), Some("1"));
    let id = file.file_id.clone().expect("a fresh fetch that persisted carries an id");
    assert!(!id.is_empty());
    assert_eq!(file.created_at, 1000);
    assert_eq!(file.updated_at, 1000);

    let stored = service.store.find_by_key("abc123").expect("the record was cached");
    assert_eq!(stored.file_id.as_deref(), Some(id.as_str()));
    assert_eq!(stored.version.as_deref(), Some("1"));
    assert_eq!(service.store.len(), 1);
}

#[test]
fn second_lookup_is_served_from_the_store() {
    let upstream = UpstreamModel::new(vec![FetchReply::Payload(demo_payload("1"))]);
    let mut service = FetchService::new(upstream);

    let q = query("abc123", None);
    let first = service.get_figma_file(&q, "tok-1", 1000).unwrap();
    let second = service.get_figma_file(&q, "tok-1", 2000).unwrap();

    assert_eq!(service.upstream.calls, 1, "the second call must not reach upstream");
    assert_eq!(second.file_id, first.file_id);
    assert_eq!(second.name.as_deref(), Some("Demo"));
    assert_eq!(second.version.as_deref(), Some("1"));
    assert_eq!(second.created_at, 1000, "the stored record is returned exactly");
}

#[test]
fn matching_version_filter_is_a_hit() {
    let upstream = UpstreamModel::new(vec![FetchReply::Payload(demo_payload("1"))]);
    let mut service = FetchService::new(upstream);

    service.get_figma_file(&query("abc123", None), "tok-1", 1000).unwrap();
    let hit = service.get_figma_file(&query("abc123", Some("1")), "tok-1", 2000).unwrap();

    assert_eq!(service.upstream.calls, 1);
    assert_eq!(hit.version.as_deref(), Some("1"));
}

#[test]
fn version_mismatch_fetches_exactly_once_more() {
    let upstream = UpstreamModel::new(vec![
        FetchReply::Payload(demo_payload("1")),
        FetchReply::Payload(demo_payload("2")),
    ]);
    let mut service = FetchService::new(upstream);

    let first = service.get_figma_file(&query("abc123", None), "tok-1", 1000).unwrap();
    let second = service.get_figma_file(&query("abc123", Some("2")), "tok-1", 2000).unwrap();

    assert_eq!(service.upstream.calls, 2, "a version mismatch consults upstream exactly once");
    assert_eq!(second.version.as_deref(), Some("2"));

    let stored = service.store.find_by_key("abc123").expect("still cached");
    assert_eq!(stored.version.as_deref(), Some("2"), "the overwrite won");
    assert_eq!(stored.file_id, first.file_id, "the identifier is preserved on overwrite");
    assert_eq!(stored.created_at, 1000, "the creation time is preserved on overwrite");
    assert_eq!(stored.updated_at, 2000, "the update time moves on every write");
    assert_eq!(service.store.len(), 1);
}

#[test]
fn upstream_failure_is_returned_and_nothing_is_written() {
    let upstream = UpstreamModel::new(vec![FetchReply::Failed(FigmaServiceError::ApiError(
        "403: Invalid token".to_string(),
    ))]);
    let mut service = FetchService::new(upstream);

    let outcome = service.get_figma_file(&query("abc123", None), "bad-token", 1000);

    match outcome {
        Err(FigmaServiceError::ApiError(m)) => assert_eq!(m, "403: Invalid token"),
        other => panic!("expected the upstream error back, got {:?}", other.is_ok()),
    }
    assert_eq!(service.upstream.calls, 1);
    assert_eq!(service.store.len(), 0, "a failed fetch writes nothing");
}

#[test]
fn failed_store_write_still_returns_the_fetched_record() {
    let q = query("abc123", None);
    let file = build_file(&q, demo_payload("1"), 1000);
    let kept = absorb_save(
        file,
        Err(FigmaServiceError::DbError("connection reset".to_string())),
    );

    assert_eq!(kept.file_key, "abc123");
    assert_eq!(kept.name.as_deref(), Some("Demo"));
    assert_eq!(kept.version.as_deref(), Some("1"));
    assert_eq!(kept.created_at, 1000);
    assert!(kept.file_id.is_none(), "a record whose write failed carries no id");
}

#[test]
fn successful_store_write_contributes_the_id() {
    let q = query("abc123", None);
    let file = build_file(&q, demo_payload("1"), 1000);
    let kept = absorb_save(file, Ok("fig_0011223344556677".to_string()));
    assert_eq!(kept.file_id.as_deref(), Some("fig_0011223344556677"));
    assert_eq!(kept.name.as_deref(), Some("Demo"));
}

#[test]
fn plan_is_fetch_on_empty_cache() {
    let q = query("abc123", None);
    match resolve_plan(None, &q) {
        ResolvePlan::Fetch(req) => {
            assert_eq!(req.url, "https://api.figma.com/v1/files/abc123");
            assert!(req.params.is_empty(), "no filters, no query parameters");
        },
        ResolvePlan::Hit(_) => panic!("an empty cache cannot hit"),
    }
}

#[test]
fn plan_is_hit_when_no_version_is_asked() {
    let q = query("abc123", None);
    let cached = build_file(&q, demo_payload("1"), 500);
    match resolve_plan(Some(cached), &q) {
        ResolvePlan::Hit(f) => assert_eq!(f.version.as_deref(), Some("1")),
        ResolvePlan::Fetch(_) => panic!("a cached record with no version filter is a hit"),
    }
}

#[test]
fn plan_is_fetch_on_version_mismatch() {
    let q = query("abc123", Some("2"));
    let cached = build_file(&query("abc123", None), demo_payload("1"), 500);
    match resolve_plan(Some(cached), &q) {
        ResolvePlan::Fetch(req) => {
            assert_eq!(req.url, "https://api.figma.com/v1/files/abc123");
            assert_eq!(req.params.len(), 1);
            assert_eq!(req.params[0].0, "version");
            assert_eq!(req.params[0].1, "2");
        },
        ResolvePlan::Hit(_) => panic!("a differing version filter cannot hit"),
    }
}

#[test]
fn get_file_by_id_finds_the_persisted_record() {
    let upstream = UpstreamModel::new(vec![FetchReply::Payload(demo_payload("1"))]);
    let mut service = FetchService::new(upstream);
    let file = service.get_figma_file(&query("abc123", None), "tok-1", 1000).unwrap();
    let id = file.file_id.expect("persisted");

    let found = service.get_file_by_id(&id).unwrap().expect("found by id");
    assert_eq!(found.file_key, "abc123");
    assert!(service.get_file_by_id("fig_ffffffffffffffff").unwrap().is_none());
}

#[test]
fn list_cached_files_honours_the_limit() {
    let upstream = UpstreamModel::new(vec![
        FetchReply::Payload(demo_payload("1")),
        FetchReply::Payload(demo_payload("1")),
        FetchReply::Payload(demo_payload("1")),
    ]);
    let mut service = FetchService::new(upstream);
    service.get_figma_file(&query("k1", None), "tok-1", 1000).unwrap();
    service.get_figma_file(&query("k2", None), "tok-1", 1001).unwrap();
    service.get_figma_file(&query("k3", None), "tok-1", 1002).unwrap();

    assert_eq!(service.list_cached_files(None).unwrap().len(), 3);
    assert_eq!(service.list_cached_files(Some(0)).unwrap().len(), 3);
    let limited = service.list_cached_files(Some(2)).unwrap();
    assert_eq!(limited.len(), 2);
    assert_eq!(limited[0].file_key, "k1");
    assert_eq!(limited[1].file_key, "k2");
    assert_eq!(service.list_cached_files(Some(-1)).unwrap().len(), 1);
    assert_eq!(service.list_cached_files(Some(10)).unwrap().len(), 3);
}
