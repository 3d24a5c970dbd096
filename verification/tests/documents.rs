//! Whole-document tests: version dispatch, text-level round trips,
//! recursive schemas, scalar defaults, and the version constraint.

use openapi::error::Error;
use openapi::json::Json;
use openapi::schema::{
    Contact, Info, Operation, Parameter, ParameterOrRef, PathItem, PropertyDefault, Response,
    Schema, Scheme, Security, Spec, Tag,
};
use openapi::text::{json_from_text, json_pretty, json_text, yaml_from_text};
use openapi::{from_str, to_json, to_yaml, OpenApi};

fn sample_v2() -> Spec {
    Spec {
        swagger: "2.0".into(),
        info: Info {
            title: Some("Sample API".into()),
            version: Some("1.0.0".into()),
            contact: Some(Contact {
                name: Some("team".into()),
                ..Contact::default()
            }),
            ..Info::default()
        },
        host: Some("api.example.test".into()),
        base_path: Some("/v1".into()),
        schemes: Some(vec![Scheme::Https, Scheme::Http]),
        consumes: Some(vec!["application/json".into()]),
        produces: Some(vec!["application/json".into()]),
        tags: Some(vec![Tag {
            name: "pets".into(),
            ..Tag::default()
        }]),
        paths: vec![(
            "/pets".to_string(),
            PathItem {
                get: Some(Operation {
                    summary: Some("list pets".into()),
                    operation_id: Some("listPets".into()),
                    responses: vec![(
                        "200".to_string(),
                        Response {
                            description: "ok".into(),
                            schema: Some(Schema {
                                schema_type: Some("array".into()),
                                items: Some(Box::new(Schema {
                                    ref_path: Some("#/definitions/Pet".into()),
                                    ..Schema::default()
                                })),
                                ..Schema::default()
                            }),
                        },
                    )],
                    parameters: Some(vec![
                        ParameterOrRef::Parameter(Parameter {
                            name: "limit".into(),
                            location: "query".into(),
                            param_type: Some("integer".into()),
                            default: Some(PropertyDefault::Integer(20)),
                            minimum: Some(1),
                            maximum: Some(100),
                            ..Parameter::default()
                        }),
                        ParameterOrRef::Ref {
                            ref_path: "#/parameters/token".into(),
                        },
                    ]),
                    ..Operation::default()
                }),
                ..PathItem::default()
            },
        )],
        definitions: Some(vec![(
            "Pet".to_string(),
            Schema {
                schema_type: Some("object".into()),
                required: Some(vec!["name".into()]),
                properties: Some(vec![
                    (
                        "name".to_string(),
                        Schema {
                            schema_type: Some("string".into()),
                            ..Schema::default()
                        },
                    ),
                    (
                        "tag".to_string(),
                        Schema {
                            schema_type: Some("string".into()),
                            ..Schema::default()
                        },
                    ),
                ]),
                ..Schema::default()
            },
        )]),
        security_definitions: Some(vec![(
            "key".to_string(),
            Security::ApiKey {
                name: "token".into(),
                location: "header".into(),
            },
        )]),
        ..Spec::default()
    }
}

#[test]
fn version_dispatch_selects_v2() {
    let v = yaml_from_text(r#"{"swagger":"2.0","info":{},"paths":{}}"#).unwrap();
    match OpenApi::decode(&v).unwrap() {
        OpenApi::V2(spec) => assert_eq!(spec.swagger, "2.0".to_string()),
        _ => panic!("expected a version 2 document"),
    }
}

#[test]
fn version_dispatch_selects_v3() {
    let v = yaml_from_text(r#"{"openapi":"3.0.1","info":{},"paths":{}}"#).unwrap();
    match OpenApi::decode(&v).unwrap() {
        OpenApi::V3_0(spec) => assert_eq!(spec.openapi, "3.0.1".to_string()),
        _ => panic!("expected a version 3 document"),
    }
}

#[test]
fn version_dispatch_refuses_an_old_version() {
    let v = yaml_from_text(r#"{"openapi":"2.5","info":{},"paths":{}}"#).unwrap();
    assert_eq!(
        OpenApi::decode(&v),
        Err(Error::UnsupportedVersion {
            found: "2.5".to_string(),
            required: ">= 3.0".to_string(),
        })
    );
}

#[test]
fn version_dispatch_refuses_a_document_without_a_discriminant() {
    let v = yaml_from_text(r#"{"info":{},"paths":{}}"#).unwrap();
    assert_eq!(
        OpenApi::decode(&v),
        Err(Error::SchemaMismatch("document".to_string()))
    );
}

#[test]
fn version_constraint_edges() {
    for (text, expected) in [
        ("3.0.0", true),
        ("3.0", true),
        ("3", true),
        ("10.2", true),
        ("2.9.9", false),
        ("0.3", false),
        ("abc", false),
        ("", false),
        (".5", false),
        ("3a.0", false),
    ] {
        assert_eq!(openapi::version::check_version(text), expected, "{}", text);
    }
}

#[test]
fn v2_document_round_trips_through_yaml() {
    let doc = OpenApi::V2(sample_v2());
    let text = to_yaml(&doc).unwrap();
    let back = from_str(&text).unwrap();
    assert_eq!(back, doc);
}

#[test]
fn v2_document_round_trips_through_pretty_json() {
    let doc = OpenApi::V2(sample_v2());
    let text = to_json(&doc).unwrap();
    let back = from_str(&text).unwrap();
    assert_eq!(back, doc);
}

#[test]
fn v3_document_round_trips_through_yaml() {
    let doc = OpenApi::V3_0(openapi::v3_0::Spec {
        openapi: "3.0.1".into(),
        info: Info {
            title: Some("Sample".into()),
            ..Info::default()
        },
        paths: vec![(
            "/ping".to_string(),
            PathItem {
                get: Some(Operation {
                    responses: vec![(
                        "200".to_string(),
                        Response {
                            description: "pong".into(),
                            schema: None,
                        },
                    )],
                    ..Operation::default()
                }),
                ..PathItem::default()
            },
        )],
        ..openapi::v3_0::Spec::default()
    });
    let text = to_yaml(&doc).unwrap();
    let back = from_str(&text).unwrap();
    assert_eq!(back, doc);
}

#[test]
fn recursive_schema_decodes_items() {
    let v = yaml_from_text(r#"{"type":"array","items":{"type":"string"}}"#).unwrap();
    let s = Schema::decode(&v).unwrap();
    assert_eq!(s.schema_type, Some("array".to_string()));
    let child = s.items.expect("items should hold a child schema");
    assert_eq!(child.schema_type, Some("string".to_string()));
}

#[test]
fn recursive_schema_nests_to_depth_one_hundred() {
    let mut text = String::from(r#"{"type":"string"}"#);
    for _ in 0..100 {
        text = format!(r#"{{"type":"array","items":{}}}"#, text);
    }
    let v = json_from_text(&text).unwrap();
    let s = Schema::decode(&v).unwrap();
    let mut depth = 0;
    let mut node = &s;
    while let Some(child) = &node.items {
        node = child;
        depth += 1;
    }
    assert_eq!(depth, 100);
    assert_eq!(node.schema_type, Some("string".to_string()));
    let text_again = json_text(&s.encode());
    assert_eq!(text_again, text);
}

#[test]
fn property_default_classifies_scalars_in_priority_order() {
    let int = yaml_from_text("17").unwrap();
    assert_eq!(
        PropertyDefault::decode(&int).unwrap(),
        PropertyDefault::Integer(17)
    );
    let boolean = yaml_from_text("true").unwrap();
    assert_eq!(
        PropertyDefault::decode(&boolean).unwrap(),
        PropertyDefault::Boolean(true)
    );
    let string = yaml_from_text(r#""17""#).unwrap();
    assert_eq!(
        PropertyDefault::decode(&string).unwrap(),
        PropertyDefault::String("17".into())
    );
    let null = yaml_from_text("null").unwrap();
    assert_eq!(
        PropertyDefault::decode(&null),
        Err(Error::SchemaMismatch("default".to_string()))
    );
}

#[test]
fn property_default_conversions_use_fixed_fallbacks() {
    assert_eq!(PropertyDefault::from(7), PropertyDefault::Integer(7));
    assert_eq!(PropertyDefault::from(false), PropertyDefault::Boolean(false));
    assert_eq!(
        PropertyDefault::from(String::from("x")),
        PropertyDefault::String("x".into())
    );
    assert_eq!(i32::from(PropertyDefault::Integer(7)), 7);
    assert_eq!(i32::from(PropertyDefault::Boolean(true)), 1);
    assert_eq!(bool::from(PropertyDefault::Boolean(false)), false);
    assert_eq!(bool::from(PropertyDefault::String("x".into())), true);
    assert_eq!(String::from(PropertyDefault::String("x".into())), "x");
    assert_eq!(String::from(PropertyDefault::Integer(7)), "");
}

#[test]
fn scheme_defaults_to_http() {
    assert_eq!(Scheme::default(), Scheme::Http);
}

#[test]
fn out_of_range_integer_fields_are_refused() {
    let v = yaml_from_text(r#"{"name":"n","in":"query","minimum":9999999999}"#).unwrap();
    assert_eq!(
        Parameter::decode(&v),
        Err(Error::SchemaMismatch("minimum".to_string()))
    );
}

#[test]
fn malformed_text_is_a_decode_error() {
    match from_str("{ not yaml: [") {
        Err(Error::Decode(_)) => {}
        other => panic!("expected a decode error, got {:?}", other),
    }
}

#[test]
fn scalars_round_trip_through_json_text() {
    let v = Json::Arr(vec![
        Json::Null,
        Json::Bool(true),
        Json::Int(-42),
        Json::Str("x".into()),
        Json::Obj(vec![("k".to_string(), Json::Int(1))]),
    ]);
    let text = json_text(&v);
    assert_eq!(text, r#"[null,true,-42,"x",{"k":1}]"#);
    assert_eq!(json_from_text(&text).unwrap(), v);
    let pretty = json_pretty(&v);
    assert_eq!(json_from_text(&pretty).unwrap(), v);
}

#[test]
fn empty_paths_and_info_survive_a_round_trip() {
    let doc = OpenApi::V2(Spec {
        swagger: "2.0".into(),
        ..Spec::default()
    });
    let text = to_yaml(&doc).unwrap();
    assert_eq!(from_str(&text).unwrap(), doc);
}
