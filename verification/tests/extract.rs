//! Extraction scenarios: best-effort reshaping of raw payloads.

use ui_forge::json::JsonValue;
use ui_forge::extract::{
    extract_figma_data, parse_component, parse_document, parse_node, parse_style,
    parse_component_set,
};

fn text(t: &str) -> JsonValue {
    JsonValue::Text(t.to_string())
}

fn number(t: &str) -> JsonValue {
    JsonValue::Number(t.to_string())
}

fn object(entries: Vec<(&str, JsonValue)>) -> JsonValue {
    JsonValue::Object(entries.into_iter().map(|(k, v)| (k.to_string(), v)).collect())
}

fn component(name: &str, node_id: &str) -> JsonValue {
    object(vec![
        ("key", text("inner-key")),
        ("name", text(name)),
        ("nodeId", text(node_id)),
    ])
}

#[test]
fn malformed_component_is_skipped_not_fatal() {
    let raw = object(vec![(
        "components",
        object(vec![
            ("c1", component("Button", "1:1")),
            ("broken", object(vec![("name", text("NoNodeId"))])),
            ("c2", component("Card", "1:2")),
        ]),
    )]);

    let data = extract_figma_data(&raw);

    assert_eq!(data.components.len(), 2, "one malformed entry, two survivors");
    assert_eq!(data.components[0].key, "c1", "the outer mapping key is authoritative");
    assert_eq!(data.components[0].name, "Button");
    assert_eq!(data.components[1].key, "c2");
    assert_eq!(data.components[1].name, "Card");
}

#[test]
fn mapping_key_overwrites_the_inner_key_field() {
    let parsed = parse_component(&"outer".to_string(), &component("Button", "1:1"))
        .expect("well-formed component");
    assert_eq!(parsed.key, "outer");
    assert_eq!(parsed.node_id, "1:1");
}

#[test]
fn component_requires_its_string_fields() {
    let key = "k".to_string();
    assert!(parse_component(&key, &component("B", "1:1")).is_some());
    assert!(parse_component(&key, &text("not an object")).is_none());
    assert!(
        parse_component(&key, &object(vec![("name", text("B")), ("nodeId", text("1:1"))]))
            .is_none(),
        "a component without its own key field does not fit the shape"
    );
    assert!(
        parse_component(
            &key,
            &object(vec![
                ("key", text("x")),
                ("name", text("B")),
                ("nodeId", text("1:1")),
                ("description", number("5")),
            ])
        )
        .is_none(),
        "a non-string description does not fit the shape"
    );
}

#[test]
fn unknown_component_fields_land_in_properties() {
    let parsed = parse_component(
        &"k".to_string(),
        &object(vec![
            ("key", text("x")),
            ("name", text("B")),
            ("nodeId", text("1:1")),
            ("remote", JsonValue::Bool(true)),
            ("documentationLinks", JsonValue::Array(vec![])),
        ]),
    )
    .expect("well-formed component");
    assert_eq!(parsed.properties.len(), 2);
    assert_eq!(parsed.properties[0].0, "remote");
    assert_eq!(parsed.properties[1].0, "documentationLinks");
}

#[test]
fn document_must_be_an_object_to_survive() {
    let with_doc = object(vec![(
        "document",
        object(vec![("id", text("0:0")), ("name", text("Page 1"))]),
    )]);
    let data = extract_figma_data(&with_doc);
    let doc = data.document.expect("a well-formed document is kept");
    assert_eq!(doc.id.as_deref(), Some("0:0"));
    assert_eq!(doc.name.as_deref(), Some("Page 1"));

    let not_an_object = object(vec![("document", text("oops"))]);
    assert!(extract_figma_data(&not_an_object).document.is_none());

    let malformed = object(vec![("document", object(vec![("id", number("5"))]))]);
    assert!(
        extract_figma_data(&malformed).document.is_none(),
        "a malformed document is dropped silently"
    );

    let absent = object(vec![]);
    assert!(extract_figma_data(&absent).document.is_none());
}

#[test]
fn document_children_parse_recursively() {
    let doc = object(vec![(
        "document",
        object(vec![(
            "children",
            JsonValue::Array(vec![object(vec![
                ("id", text("1:0")),
                ("type", text("CANVAS")),
                (
                    "children",
                    JsonValue::Array(vec![object(vec![("id", text("1:1")), ("name", text("Frame"))])]),
                ),
            ])]),
        )]),
    )]);
    let data = extract_figma_data(&doc);
    let document = data.document.expect("document parses");
    assert_eq!(document.children.len(), 1);
    assert_eq!(document.children[0].id.as_deref(), Some("1:0"));
    assert_eq!(document.children[0].node_type.as_deref(), Some("CANVAS"));
    assert_eq!(document.children[0].children.len(), 1);
    assert_eq!(document.children[0].children[0].name.as_deref(), Some("Frame"));
}

#[test]
fn one_bad_child_fails_the_whole_document() {
    let doc = object(vec![(
        "document",
        object(vec![(
            "children",
            JsonValue::Array(vec![
                object(vec![("id", text("1:0"))]),
                object(vec![("id", number("7"))]),
            ]),
        )]),
    )]);
    assert!(extract_figma_data(&doc).document.is_none());
}

#[test]
fn node_tolerates_null_and_missing_fields() {
    let node = object(vec![("id", JsonValue::Null)]);
    let parsed = parse_node(&node).expect("null id is tolerated");
    assert!(parsed.id.is_none());
    assert!(parsed.children.is_empty());

    assert!(parse_node(&object(vec![("children", text("oops"))])).is_none());
    assert!(parse_node(&JsonValue::Array(vec![])).is_none());
}

#[test]
fn styles_are_keyed_by_their_mapping_key() {
    let raw = object(vec![(
        "styles",
        object(vec![
            (
                "s1",
                object(vec![
                    ("key", text("inner")),
                    ("name", text("Primary")),
                    ("styleType", text("FILL")),
                ]),
            ),
            ("bad", object(vec![("name", text("NoType"))])),
        ]),
    )]);
    let data = extract_figma_data(&raw);
    assert_eq!(data.styles.len(), 1);
    assert_eq!(data.styles[0].0, "s1");
    assert_eq!(data.styles[0].1.key, "s1");
    assert_eq!(data.styles[0].1.name, "Primary");
    assert_eq!(data.styles[0].1.style_type, "FILL");
}

#[test]
fn style_optional_node_id_is_tolerant() {
    let key = "k".to_string();
    let with_node = object(vec![
        ("key", text("x")),
        ("name", text("S")),
        ("styleType", text("TEXT")),
        ("nodeId", text("2:0")),
    ]);
    assert_eq!(parse_style(&key, &with_node).unwrap().node_id.as_deref(), Some("2:0"));

    let bad_node = object(vec![
        ("key", text("x")),
        ("name", text("S")),
        ("styleType", text("TEXT")),
        ("nodeId", JsonValue::Bool(true)),
    ]);
    assert!(parse_style(&key, &bad_node).is_none());
}

#[test]
fn component_set_collects_its_component_ids() {
    let key = "set1".to_string();
    let v = object(vec![
        ("key", text("inner")),
        ("name", text("Variants")),
        ("nodeId", text("3:0")),
        ("component_ids", JsonValue::Array(vec![text("a"), text("b")])),
    ]);
    let parsed = parse_component_set(&key, &v).expect("well-formed set");
    assert_eq!(parsed.key, "set1");
    assert_eq!(parsed.component_ids, vec!["a".to_string(), "b".to_string()]);

    let bad = object(vec![
        ("key", text("inner")),
        ("name", text("Variants")),
        ("nodeId", text("3:0")),
        ("component_ids", JsonValue::Array(vec![text("a"), number("2")])),
    ]);
    assert!(parse_component_set(&key, &bad).is_none(), "a non-string id fails the set");
}

#[test]
fn component_sets_map_is_extracted_best_effort() {
    let raw = object(vec![(
        "componentSets",
        object(vec![
            (
                "cs1",
                object(vec![("key", text("i")), ("name", text("V")), ("nodeId", text("4:0"))]),
            ),
            ("bad", text("nope")),
        ]),
    )]);
    let data = extract_figma_data(&raw);
    assert_eq!(data.component_sets.len(), 1);
    assert_eq!(data.component_sets[0].key, "cs1");
}

#[test]
fn missing_maps_extract_to_nothing() {
    let data = extract_figma_data(&object(vec![("name", text("Demo"))]));
    assert!(data.document.is_none());
    assert!(data.components.is_empty());
    assert!(data.component_sets.is_empty());
    assert!(data.styles.is_empty());

    let data = extract_figma_data(&object(vec![("components", text("not a map"))]));
    assert!(data.components.is_empty());

    let data = extract_figma_data(&text("not even an object"));
    assert!(data.components.is_empty() && data.document.is_none());
}

#[test]
fn parse_document_accepts_only_objects() {
    assert!(parse_document(&text("x")).is_none());
    assert!(parse_document(&object(vec![])).is_some());
}
