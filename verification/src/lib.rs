//! A strongly typed model of OpenAPI (Swagger) API description documents,
//! versions 2.0 and 3.0.x, with verified decoding and encoding between a
//! generic value tree and the typed document model. Reading and writing
//! the textual form (YAML or JSON) stands behind a small trusted layer;
//! everything between the value tree and the document model is verified,
//! and a well-formed document is proved to read back from its own
//! encoding unchanged.

pub mod codec;
pub mod doc_codec;
pub mod error;
pub mod json;
pub mod op_codec;
pub mod param_codec;
pub mod scalar_codec;
pub mod schema;
pub mod schema_codec;
pub mod security_codec;
pub mod spec_codec;
pub mod text;
pub mod v3_0;
pub mod version;

use vstd::prelude::*;
use crate::error::{rv, Error, ErrorView};
use crate::json::{lookup, obj_get, Json, JsonView};
use crate::text::{json_pretty_of, parsed_yaml, yaml_text_of};
use crate::version::{check_version, spec_required_version, version_supported};

verus! {

/// Supported versions of the OpenApi specification; exactly one variant
/// is populated per document.
#[derive(Clone, Debug, PartialEq)]
pub enum OpenApi {
    /// Version 2.0 of the OpenApi specification.
    V2(schema::Spec),
    /// Version 3.0.x of the OpenApi specification.
    #[allow(non_camel_case_types)]
    V3_0(v3_0::Spec),
}

#[verifier::ext_equal]
pub enum OpenApiView {
    V2(schema::SpecView),
    #[allow(non_camel_case_types)]
    V3_0(v3_0::SpecView),
}

impl DeepView for OpenApi {
    type V = OpenApiView;

    open spec fn deep_view(&self) -> OpenApiView {
        match *self {
            OpenApi::V2(ref s) => OpenApiView::V2(s.deep_view()),
            OpenApi::V3_0(ref s) => OpenApiView::V3_0(s.deep_view()),
        }
    }
}

impl OpenApiView {
    pub open spec fn wf(self) -> bool {
        match self {
            OpenApiView::V2(s) => s.wf(),
            OpenApiView::V3_0(s) => s.wf(),
        }
    }

    pub open spec fn encode(self) -> JsonView {
        match self {
            OpenApiView::V2(s) => s.encode(),
            OpenApiView::V3_0(s) => s.encode(),
        }
    }

    /// Version dispatch: a "swagger" key selects the version 2.0 shape; an
    /// "openapi" key whose value satisfies the version constraint selects
    /// the version 3 shape, and one that falls short is refused with the
    /// found version and the required minimum. A document with neither
    /// discriminant key is refused.
    pub open spec fn decode(v: JsonView) -> Result<OpenApiView, ErrorView> {
        match v {
            JsonView::Obj(es) => if lookup(es, "swagger"@) is Some {
                match schema::SpecView::decode_obj(es) {
                    Ok(s) => Ok(OpenApiView::V2(s)),
                    Err(e) => Err(e),
                }
            } else {
                match lookup(es, "openapi"@) {
                    Some(JsonView::Str(found)) => if version_supported(found) {
                        match v3_0::SpecView::decode_obj(es) {
                            Ok(s) => Ok(OpenApiView::V3_0(s)),
                            Err(e) => Err(e),
                        }
                    } else {
                        Err(
                            ErrorView::UnsupportedVersion {
                                found,
                                required: spec_required_version(),
                            },
                        )
                    },
                    Some(_) => Err(ErrorView::SchemaMismatch("openapi"@)),
                    None => Err(ErrorView::SchemaMismatch("document"@)),
                }
            },
            _ => Err(ErrorView::SchemaMismatch("document"@)),
        }
    }

    /// Round trip: every well-formed document, of either version, reads
    /// back from its own encoding unchanged, field for field.
    pub proof fn lemma_round_trip(self)
        requires
            self.wf(),
        ensures
            Self::decode(self.encode()) == Ok::<_, ErrorView>(self),
    {
        match self {
            OpenApiView::V2(s) => {
                s.lemma_round_trip();
            },
            OpenApiView::V3_0(s) => {
                s.lemma_round_trip();
            },
        }
    }
}

impl OpenApi {
    pub fn decode(v: &Json) -> (r: Result<OpenApi, Error>)
        ensures
            rv(r) == OpenApiView::decode(v@),
    {
        match v {
            Json::Obj(es) => {
                match obj_get(es, "swagger") {
                    Some(_) => match schema::Spec::decode_obj(es) {
                        Ok(s) => Ok(OpenApi::V2(s)),
                        Err(e) => Err(e),
                    },
                    None => match obj_get(es, "openapi") {
                        Some(ov) => match ov {
                            Json::Str(found) => {
                                if check_version(found.as_str()) {
                                    match v3_0::Spec::decode_obj(es) {
                                        Ok(s) => Ok(OpenApi::V3_0(s)),
                                        Err(e) => Err(e),
                                    }
                                } else {
                                    Err(
                                        Error::UnsupportedVersion {
                                            found: found.clone(),
                                            required: ">= 3.0".to_owned(),
                                        },
                                    )
                                }
                            },
                            _ => Err(Error::SchemaMismatch("openapi".to_owned())),
                        },
                        None => Err(Error::SchemaMismatch("document".to_owned())),
                    },
                }
            },
            _ => Err(Error::SchemaMismatch("document".to_owned())),
        }
    }

    pub fn encode(&self) -> (r: Json)
        ensures
            r@ == self.deep_view().encode(),
    {
        match self {
            OpenApi::V2(s) => s.encode(),
            OpenApi::V3_0(s) => s.encode(),
        }
    }
}

/// Deserialize an OpenAPI document from YAML or JSON text; YAML reads
/// both forms.
pub fn from_str(s: &str) -> (r: Result<OpenApi, Error>)
    ensures
        parsed_yaml(s@) matches Some(v) ==> rv(r) == OpenApiView::decode(v),
        parsed_yaml(s@) is None ==> (r matches Err(e) && e@ matches ErrorView::Decode(_)),
{
    match text::yaml_from_text(s) {
        Ok(v) => OpenApi::decode(&v),
        Err(e) => Err(e),
    }
}

/// Serialize a document to a YAML string.
pub fn to_yaml(spec: &OpenApi) -> (r: Result<String, Error>)
    ensures
        r matches Ok(t) ==> yaml_text_of(spec.deep_view().encode()) == Some(t@),
        r matches Err(e) ==> yaml_text_of(spec.deep_view().encode()) is None
            && e@ matches ErrorView::Serialization(_),
{
    let v = spec.encode();
    text::yaml_text(&v)
}

/// Serialize a document to a pretty-printed JSON string.
pub fn to_json(spec: &OpenApi) -> (r: Result<String, Error>)
    ensures
        r matches Ok(t) && t@ == json_pretty_of(spec.deep_view().encode()),
{
    let v = spec.encode();
    Ok(text::json_pretty(&v))
}

} // verus!
