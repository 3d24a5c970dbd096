//! Vendor extension tests: capture, lookup, and the partition between
//! typed fields and extension fields.

use openapi::json::Json;
use openapi::schema::Operation;
use openapi::text::{json_text, yaml_from_text};
use openapi::v3_0::Extensions;

#[test]
fn test_serde_extensions() {
    let mut extensions = Extensions::default();
    extensions.add(String::from("x-test"), Json::Str("val".into()));
    let op = Operation {
        extensions,
        ..Operation::default()
    };
    let text = json_text(&op.encode());
    assert!(text.contains(r#""x-test":"val""#));
    let v = yaml_from_text(&text).unwrap();
    let back = Operation::decode(&v).unwrap();
    assert_eq!(back, {
        let mut extensions = Extensions::default();
        extensions.add(String::from("x-test"), Json::Str("val".into()));
        Operation {
            extensions,
            ..Operation::default()
        }
    });
}

#[test]
fn test_get_extension() {
    let value = Json::Str("val".into());

    let mut extensions = Extensions::default();
    extensions.add(String::from("x-test"), value.clone());

    assert_eq!(extensions.get("x-test"), Some(&value));
}

#[test]
fn test_all_extensions() {
    let value = Json::Str("val".into());

    let mut extensions = Extensions::default();
    extensions.add(String::from("x-test"), value.clone());

    assert_eq!(
        extensions.all().first(),
        Some(&("x-test".to_string(), value))
    );
}

#[test]
fn add_replaces_an_existing_key_in_place() {
    let mut extensions = Extensions::default();
    extensions.add(String::from("x-test"), Json::Str("val".into()));
    extensions.add(String::from("x-other"), Json::Bool(true));
    extensions.add(String::from("x-test"), Json::Str("val2".into()));
    assert_eq!(extensions.get("x-test"), Some(&Json::Str("val2".into())));
    assert_eq!(extensions.get("x-other"), Some(&Json::Bool(true)));
    assert_eq!(extensions.all().len(), 2);
    assert_eq!(
        extensions.all().first(),
        Some(&("x-test".to_string(), Json::Str("val2".into())))
    );
}

#[test]
fn extension_keys_and_typed_keys_partition() {
    let json = r#"{"x-test":"val","summary":"foo","responses":{}}"#;
    let v = yaml_from_text(json).unwrap();
    let op = Operation::decode(&v).unwrap();
    assert_eq!(op.summary, Some("foo".to_string()));
    assert_eq!(op.extensions.get("x-test"), Some(&Json::Str("val".into())));
    assert_eq!(op.extensions.get("summary"), None);
    assert_eq!(op.extensions.all().len(), 1);
}

#[test]
fn extensions_on_a_version_2_document_round_trip() {
    let json = r#"{"swagger":"2.0","info":{},"paths":{},"x-origin":"legacy"}"#;
    let v = yaml_from_text(json).unwrap();
    let doc = openapi::OpenApi::decode(&v).unwrap();
    match &doc {
        openapi::OpenApi::V2(spec) => {
            assert_eq!(spec.extensions.get("x-origin"), Some(&Json::Str("legacy".into())));
        }
        _ => panic!("expected a version 2 document"),
    }
    let text = json_text(&doc.encode());
    let v2 = yaml_from_text(&text).unwrap();
    assert_eq!(openapi::OpenApi::decode(&v2).unwrap(), doc);
}

#[test]
fn extensions_on_a_version_3_document_round_trip() {
    let json = r#"{"openapi":"3.0.1","info":{"title":"t"},"paths":{},"x-audit":"yes"}"#;
    let v = yaml_from_text(json).unwrap();
    let doc = openapi::OpenApi::decode(&v).unwrap();
    match &doc {
        openapi::OpenApi::V3_0(spec) => {
            assert_eq!(spec.extensions.get("x-audit"), Some(&Json::Str("yes".into())));
        }
        _ => panic!("expected a version 3 document"),
    }
    let text = json_text(&doc.encode());
    let v2 = yaml_from_text(&text).unwrap();
    assert_eq!(openapi::OpenApi::decode(&v2).unwrap(), doc);
}
