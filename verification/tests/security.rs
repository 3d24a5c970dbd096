//! Security scheme and parameter-or-reference tests: the tagged security
//! shapes and the "$ref" resolution, through YAML parsing and compact
//! JSON serialization.

use openapi::json::Json;
use openapi::schema::{Parameter, ParameterOrRef, Security};
use openapi::text::{json_text, yaml_from_text};

fn parse_security(text: &str) -> Security {
    let v = yaml_from_text(text).unwrap();
    Security::decode(&v).unwrap()
}

fn parse_parameter_or_ref(text: &str) -> ParameterOrRef {
    let v = yaml_from_text(text).unwrap();
    ParameterOrRef::decode(&v).unwrap()
}

#[test]
fn security_api_deserializes() {
    let json = r#"{"type":"apiKey", "name":"foo", "in": "query"}"#;
    assert_eq!(
        parse_security(json),
        Security::ApiKey {
            name: "foo".into(),
            location: "query".into(),
        }
    );
}

#[test]
fn security_api_serializes() {
    let json = r#"{"type":"apiKey","name":"foo","in":"query"}"#;
    assert_eq!(
        json_text(
            &Security::ApiKey {
                name: "foo".into(),
                location: "query".into(),
            }
            .encode()
        ),
        json
    );
}

#[test]
fn security_basic_deserializes() {
    let json = r#"{"type":"basic"}"#;
    assert_eq!(parse_security(json), Security::Basic);
}

#[test]
fn security_basic_serializes() {
    let json = r#"{"type":"basic"}"#;
    assert_eq!(json, json_text(&Security::Basic.encode()));
}

#[test]
fn security_oauth_deserializes() {
    let json = r#"{"type":"oauth2","flow":"implicit","authorizationUrl":"foo/bar","scopes":{"foo":"bar"}}"#;
    let scopes = vec![("foo".to_string(), "bar".to_string())];
    assert_eq!(
        parse_security(json),
        Security::Oauth2 {
            flow: "implicit".into(),
            authorization_url: "foo/bar".into(),
            token_url: None,
            scopes: scopes,
        }
    );
}

#[test]
fn security_oauth_serializes() {
    let json = r#"{"type":"oauth2","flow":"implicit","authorizationUrl":"foo/bar","scopes":{"foo":"bar"}}"#;
    let scopes = vec![("foo".to_string(), "bar".to_string())];
    assert_eq!(
        json,
        json_text(
            &Security::Oauth2 {
                flow: "implicit".into(),
                authorization_url: "foo/bar".into(),
                token_url: None,
                scopes: scopes,
            }
            .encode()
        )
    );
}

#[test]
fn parameter_or_ref_deserializes_ref() {
    let json = r#"{"$ref":"foo/bar"}"#;
    assert_eq!(
        parse_parameter_or_ref(json),
        ParameterOrRef::Ref { ref_path: "foo/bar".into() }
    );
}

#[test]
fn parameter_or_ref_serializes_pref() {
    let json = r#"{"$ref":"foo/bar"}"#;
    assert_eq!(
        json,
        json_text(&ParameterOrRef::Ref { ref_path: "foo/bar".into() }.encode())
    );
}

#[test]
fn schema_security_api_deserializes() {
    let json = r#"{"type":"apiKey", "name":"foo", "in": "query"}"#;
    assert_eq!(
        parse_security(json),
        Security::ApiKey {
            name: "foo".into(),
            location: "query".into(),
        }
    );
}

#[test]
fn schema_security_api_serializes() {
    let json = r#"{"type":"apiKey","name":"foo","in":"query"}"#;
    assert_eq!(
        json_text(
            &Security::ApiKey {
                name: "foo".into(),
                location: "query".into(),
            }
            .encode()
        ),
        json
    );
}

#[test]
fn schema_security_basic_deserializes() {
    let json = r#"{"type":"basic"}"#;
    assert_eq!(parse_security(json), Security::Basic);
}

#[test]
fn schema_security_basic_serializes() {
    let json = r#"{"type":"basic"}"#;
    assert_eq!(json, json_text(&Security::Basic.encode()));
}

#[test]
fn schema_security_oauth_deserializes() {
    let json = r#"{"type":"oauth2","flow":"implicit","authorizationUrl":"foo/bar","scopes":{"foo":"bar"}}"#;
    let scopes = vec![("foo".to_string(), "bar".to_string())];
    assert_eq!(
        parse_security(json),
        Security::Oauth2 {
            flow: "implicit".into(),
            authorization_url: "foo/bar".into(),
            token_url: None,
            scopes: scopes,
        }
    );
}

#[test]
fn schema_security_oauth_serializes() {
    let json = r#"{"type":"oauth2","flow":"implicit","authorizationUrl":"foo/bar","scopes":{"foo":"bar"}}"#;
    let scopes = vec![("foo".to_string(), "bar".to_string())];
    assert_eq!(
        json,
        json_text(
            &Security::Oauth2 {
                flow: "implicit".into(),
                authorization_url: "foo/bar".into(),
                token_url: None,
                scopes: scopes,
            }
            .encode()
        )
    );
}

#[test]
fn schema_parameter_or_ref_deserializes_ref() {
    let json = r#"{"$ref":"foo/bar"}"#;
    assert_eq!(
        parse_parameter_or_ref(json),
        ParameterOrRef::Ref { ref_path: "foo/bar".into() }
    );
}

#[test]
fn schema_parameter_or_ref_serializes_pref() {
    let json = r#"{"$ref":"foo/bar"}"#;
    assert_eq!(
        json,
        json_text(&ParameterOrRef::Ref { ref_path: "foo/bar".into() }.encode())
    );
}

#[test]
fn parameter_or_ref_deserializes_full_parameter() {
    let json = r#"{"name":"foo","in":"query"}"#;
    let expected = Parameter {
        name: "foo".into(),
        location: "query".into(),
        ..Parameter::default()
    };
    assert_eq!(
        parse_parameter_or_ref(json),
        ParameterOrRef::Parameter(expected)
    );
}

#[test]
fn parameter_or_ref_missing_name_is_a_schema_mismatch() {
    let json = r#"{"in":"query"}"#;
    let v = yaml_from_text(json).unwrap();
    assert_eq!(
        ParameterOrRef::decode(&v),
        Err(openapi::error::Error::SchemaMismatch("name".to_string()))
    );
}

#[test]
fn security_unknown_tag_is_refused_with_the_tag() {
    let json = r#"{"type":"oauth3"}"#;
    let v = yaml_from_text(json).unwrap();
    assert_eq!(
        Security::decode(&v),
        Err(openapi::error::Error::UnrecognizedTag("oauth3".to_string()))
    );
}

#[test]
fn security_oauth_token_url_round_trips() {
    let sec = Security::Oauth2 {
        flow: "accessCode".into(),
        authorization_url: "https://example.test/auth".into(),
        token_url: Some("https://example.test/token".into()),
        scopes: vec![
            ("read".to_string(), "read access".to_string()),
            ("write".to_string(), "write access".to_string()),
        ],
    };
    let text = json_text(&sec.encode());
    let v: Json = yaml_from_text(&text).unwrap();
    assert_eq!(Security::decode(&v).unwrap(), sec);
}
