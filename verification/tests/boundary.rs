//! Unit scenarios for the boundary pieces: errors, credential
//! screening, parameter checks, identifiers, the store, and the
//! generator plan.

use ui_forge::api::{
    EchoRequest, FileParams, NodeParams, echo_message, error_response, file_query, node_request,
    node_url, ok_response,
};
use ui_forge::auth::{screen_token, TokenError, TokenHeader};
use ui_forge::errors::FigmaServiceError;
use ui_forge::generator::{
    component_filename, index_ts_line, planned_files, CreateComponentRequest, GeneratedPackage,
    GeneratorConfig, PackageBuilder,
};
use ui_forge::ids::file_id_from;
use ui_forge::json::JsonValue;
use ui_forge::model::{FigmaFile, FigmaData};
use ui_forge::service::{accept_response, cache_read_outcome, u16_to_string, upstream_request};
use ui_forge::store::FileStore;

fn record(file_key: &str, version: Option<&str>, at: i64) -> FigmaFile {
    FigmaFile {
        file_id: None,
        file_key: file_key.to_string(),
        name: None,
        last_modified: None,
        thumbnail_url: None,
        version: version.map(|v| v.to_string()),
        created_at: at,
        updated_at: at,
        data: FigmaData::empty(),
        raw_data: None,
    }
}

#[test]
fn error_messages_carry_their_class_prefix() {
    let e = FigmaServiceError::ApiError("403: nope".to_string());
    assert_eq!(e.message(), "Figma API Error: 403: nope");
    assert_eq!(e.http_status(), 502);

    let e = FigmaServiceError::DbError("down".to_string());
    assert_eq!(e.message(), "Database Error: down");
    assert_eq!(e.http_status(), 500);

    let e = FigmaServiceError::RequestError("timeout".to_string());
    assert_eq!(e.message(), "Request Error: timeout");
    assert_eq!(e.http_status(), 502);

    let e = FigmaServiceError::JsonError("bad body".to_string());
    assert_eq!(e.message(), "JSON parsing error: bad body");
    assert_eq!(e.http_status(), 502);

    let e = FigmaServiceError::MissingParam("file_key".to_string());
    assert_eq!(e.message(), "Missing required parameter: file_key");
    assert_eq!(e.http_status(), 400);

    let e = FigmaServiceError::MissingParam("X-Figma-Token".to_string());
    assert_eq!(e.http_status(), 401, "a missing credential is unauthorized");
}

#[test]
fn missing_credential_is_rejected_before_anything_runs() {
    match screen_token(TokenHeader::Missing) {
        Err(TokenError::Missing) => (),
        _ => panic!("a missing header must be rejected as missing"),
    }
    assert_eq!(TokenError::Missing.http_status(), 401);
    assert_eq!(TokenError::Missing.message(), "Missing X-Figma-Token header");

    match screen_token(TokenHeader::Unreadable) {
        Err(TokenError::Invalid) => (),
        _ => panic!("an unreadable header must be rejected as invalid"),
    }
    assert_eq!(TokenError::Invalid.http_status(), 400);
    assert_eq!(TokenError::Invalid.message(), "Invalid token format");

    match screen_token(TokenHeader::Value("tok-1".to_string())) {
        Ok(token) => assert_eq!(token.0, "tok-1"),
        _ => panic!("a readable header passes through verbatim"),
    }
}

#[test]
fn file_query_requires_the_file_key() {
    let params = FileParams {
        file_key: None,
        version: Some("1".to_string()),
        ids: None,
        depth: None,
        geometry: None,
        plugin_data: None,
        branch_data: None,
    };
    match file_query(params) {
        Err(FigmaServiceError::MissingParam(p)) => assert_eq!(p, "file_key"),
        _ => panic!("a lookup without a file key is rejected"),
    }

    let params = FileParams {
        file_key: Some("abc".to_string()),
        version: None,
        ids: Some("1:2".to_string()),
        depth: None,
        geometry: None,
        plugin_data: None,
        branch_data: None,
    };
    let q = file_query(params).unwrap();
    assert_eq!(q.file_key, "abc");
    assert_eq!(q.ids.as_deref(), Some("1:2"));
}

#[test]
fn node_request_checks_key_then_ids() {
    let both = NodeParams { file_key: Some("abc".to_string()), ids: Some("1:2".to_string()) };
    assert_eq!(node_request(both).unwrap(), ("abc".to_string(), "1:2".to_string()));

    let no_key = NodeParams { file_key: None, ids: Some("1:2".to_string()) };
    match node_request(no_key) {
        Err(FigmaServiceError::MissingParam(p)) => assert_eq!(p, "file_key"),
        _ => panic!("file_key is checked first"),
    }

    let no_ids = NodeParams { file_key: Some("abc".to_string()), ids: None };
    match node_request(no_ids) {
        Err(FigmaServiceError::MissingParam(p)) => assert_eq!(p, "ids"),
        _ => panic!("ids is required"),
    }

    assert_eq!(node_url("abc"), "https://api.figma.com/v1/files/abc/nodes");
}

#[test]
fn echo_falls_back_to_a_fixed_note() {
    assert_eq!(echo_message(&EchoRequest { message: Some("hi".to_string()) }), "hi");
    assert_eq!(echo_message(&EchoRequest { message: None }), "No message provided");
}

#[test]
fn envelopes_carry_the_outcome() {
    let ok = ok_response("done".to_string(), Some(7u32));
    assert_eq!(ok.status, "success");
    assert_eq!(ok.message, "done");
    assert_eq!(ok.data, Some(7));

    let err = error_response::<u32>("broken".to_string());
    assert_eq!(err.status, "error");
    assert!(err.data.is_none());
}

#[test]
fn upstream_request_carries_every_supplied_filter() {
    let q = ui_forge::model::FigmaFileQuery {
        file_key: "abc123".to_string(),
        version: Some("9".to_string()),
        ids: Some("1:2,1:3".to_string()),
        depth: Some("2".to_string()),
        geometry: Some("paths".to_string()),
        plugin_data: Some("shared".to_string()),
        branch_data: Some("true".to_string()),
    };
    let req = upstream_request(&q);
    assert_eq!(req.url, "https://api.figma.com/v1/files/abc123");
    let params: Vec<(String, String)> = req.params;
    assert_eq!(
        params,
        vec![
            ("version".to_string(), "9".to_string()),
            ("ids".to_string(), "1:2,1:3".to_string()),
            ("depth".to_string(), "2".to_string()),
            ("geometry".to_string(), "paths".to_string()),
            ("plugin_data".to_string(), "shared".to_string()),
            ("branch_data".to_string(), "true".to_string()),
        ]
    );
}

#[test]
fn responses_are_classified_by_status() {
    assert_eq!(accept_response(200, "body".to_string()).unwrap(), "body");
    assert_eq!(accept_response(299, "body".to_string()).unwrap(), "body");
    match accept_response(404, "Not found".to_string()) {
        Err(FigmaServiceError::ApiError(m)) => assert_eq!(m, "404: Not found"),
        _ => panic!("a non-success status is an upstream error"),
    }
    match accept_response(500, "boom".to_string()) {
        Err(FigmaServiceError::ApiError(m)) => assert_eq!(m, "500: boom"),
        _ => panic!("a server error is an upstream error"),
    }
}

#[test]
fn failed_cache_read_counts_as_a_miss() {
    let miss = cache_read_outcome(Err(FigmaServiceError::DbError("down".to_string())));
    assert!(miss.is_none(), "a read failure never becomes a hard failure");
    assert!(cache_read_outcome(Ok(None)).is_none());
    let found = cache_read_outcome(Ok(Some(record("abc", None, 1))));
    assert_eq!(found.expect("passed through").file_key, "abc");
}

#[test]
fn decimal_rendering_is_exact() {
    assert_eq!(u16_to_string(0), "0");
    assert_eq!(u16_to_string(7), "7");
    assert_eq!(u16_to_string(404), "404");
    assert_eq!(u16_to_string(65535), "65535");
}

#[test]
fn file_ids_are_deterministic_in_their_inputs() {
    let a = file_id_from("abc123", "1700000000000", "1");
    let b = file_id_from("abc123", "1700000000000", "1");
    let c = file_id_from("abc123", "1700000000001", "1");
    assert_eq!(a, b, "the identifier is a function of its inputs");
    assert_ne!(a, c, "a different clock reading gives a different identifier");
    assert_eq!(a.len(), 20);
    assert!(a.starts_with("fig_"));
    assert!(
        a[4..].chars().all(|ch| ch.is_ascii_hexdigit() && !ch.is_ascii_uppercase()),
        "the tail is lowercase hex"
    );
}

#[test]
fn generated_record_ids_have_the_fixed_shape() {
    let file = record("abc123", Some("1"), 1000);
    let id = file.generate_file_id();
    assert_eq!(id.len(), 20);
    assert!(id.starts_with("fig_"));
}

#[test]
fn store_upsert_inserts_then_replaces() {
    let mut store = FileStore::new();
    let id = store.upsert(record("abc", Some("1"), 1000)).unwrap();
    assert_eq!(id.len(), 20);
    assert!(id.starts_with("fig_"));
    assert_eq!(store.len(), 1);

    let found = store.find_by_key("abc").expect("inserted");
    assert_eq!(found.file_id.as_deref(), Some(id.as_str()));
    assert_eq!(found.version.as_deref(), Some("1"));

    let id2 = store.upsert(record("abc", Some("2"), 2000)).unwrap();
    assert_eq!(id2, id, "a replace preserves the identifier");
    assert_eq!(store.len(), 1);
    let found = store.find_by_key("abc").expect("still there");
    assert_eq!(found.version.as_deref(), Some("2"));
    assert_eq!(found.created_at, 1000, "creation time survives the overwrite");
    assert_eq!(found.updated_at, 2000);

    assert!(store.find_by_key("other").is_none());
    let by_id = store.find_by_id(&id).expect("found by identifier");
    assert_eq!(by_id.file_key, "abc");
    assert!(store.find_by_id("fig_0000000000000000").is_none());
}

#[test]
fn store_keeps_an_explicit_identifier() {
    let mut store = FileStore::new();
    let mut r = record("abc", None, 10);
    r.file_id = Some("fig_aaaaaaaaaaaaaaaa".to_string());
    let id = store.upsert(r).unwrap();
    assert_eq!(id, "fig_aaaaaaaaaaaaaaaa");
}

#[test]
fn store_list_takes_a_prefix() {
    let mut store = FileStore::new();
    store.upsert(record("a", None, 1)).unwrap();
    store.upsert(record("b", None, 2)).unwrap();
    store.upsert(record("c", None, 3)).unwrap();

    assert_eq!(store.list(None).len(), 3);
    assert_eq!(store.list(Some(0)).len(), 3);
    let two = store.list(Some(2));
    assert_eq!(two.len(), 2);
    assert_eq!(two[0].file_key, "a");
    assert_eq!(two[1].file_key, "b");
    assert_eq!(store.list(Some(-2)).len(), 2);
    assert_eq!(store.list(Some(99)).len(), 3);
}

#[test]
fn package_plan_lists_every_file_in_order() {
    let request = CreateComponentRequest {
        component_type: "button".to_string(),
        name: "CustomButton".to_string(),
        config: vec![("backgroundColor".to_string(), "blue".to_string())],
        framework: "react".to_string(),
        typescript: true,
        package_name: "@acme/custom-button".to_string(),
        version: "1.0.0".to_string(),
    };
    let package = GeneratedPackage {
        component_code: "// code".to_string(),
        package_json: "{}".to_string(),
        index_ts: index_ts_line("CustomButton"),
    };
    let files = planned_files(&request, &package);
    let names: Vec<&str> = files.iter().map(|f| f.0.as_str()).collect();
    assert_eq!(
        names,
        vec!["src/CustomButton.tsx", "src/index.ts", "package.json", "tsconfig.json",
            "rollup.config.js"]
    );
    assert_eq!(files[1].1, "export { default as CustomButton } from './CustomButton';");
    assert!(files[3].1.contains("compilerOptions"));

    let js_request = CreateComponentRequest { typescript: false, ..request };
    let js_files = planned_files(&js_request, &package);
    let js_names: Vec<&str> = js_files.iter().map(|f| f.0.as_str()).collect();
    assert_eq!(
        js_names,
        vec!["src/CustomButton.jsx", "src/index.ts", "package.json", "rollup.config.js"]
    );
}

#[test]
fn component_filenames_follow_the_language() {
    assert_eq!(component_filename("Button", true), "Button.tsx");
    assert_eq!(component_filename("Button", false), "Button.jsx");
}

#[test]
fn package_builder_gets_a_fresh_job_directory() {
    let builder = PackageBuilder::new();
    assert_eq!(builder.job_id.len(), 36);
    assert_eq!(builder.get_path(), format!("./tmp/builds/{}", builder.job_id));
    let other = PackageBuilder::new();
    assert_ne!(builder.job_id, other.job_id, "job identifiers are fresh");
    let tsconfig = builder.create_tsconfig();
    assert!(tsconfig.contains("\"jsx\": \"react\""));
}

#[test]
fn generator_config_defaults_are_fixed() {
    let config = GeneratorConfig::default();
    assert_eq!(config.npm_path, "npm");
    assert!(config.use_docker);
    assert_eq!(config.docker_image, "node-builder:latest");
    assert_eq!(config.build_timeout_seconds, 300);
}

#[test]
fn raw_payload_is_retained_verbatim() {
    let q = ui_forge::model::FigmaFileQuery {
        file_key: "abc".to_string(),
        version: None,
        ids: None,
        depth: None,
        geometry: None,
        plugin_data: None,
        branch_data: None,
    };
    let raw = JsonValue::Object(vec![(
        "name".to_string(),
        JsonValue::Text("Demo".to_string()),
    )]);
    let file = ui_forge::service::build_file(&q, raw, 5);
    match file.raw_data.expect("the raw payload is retained") {
        JsonValue::Object(entries) => {
            assert_eq!(entries.len(), 1);
            assert_eq!(entries[0].0, "name");
        },
        _ => panic!("the payload shape is kept"),
    }
}
