//! The typed document model for version 2.0 documents and the pieces that
//! version 3.0.x shares, together with the mathematical view of each type.
//!
//! Mappings with string keys (paths, definitions, scopes, properties,
//! responses) are held as ordered key/value entry lists; their keys are
//! unique in a well-formed document, and their order is irrelevant to the
//! document's meaning.

use vstd::prelude::*;
use crate::json::{is_ext_key, JsonView};
use crate::v3_0::Extensions;

verus! {

/// Every key in `ps` occurs once.
pub open spec fn keys_unique<T>(ps: Seq<(Seq<char>, T)>) -> bool {
    forall|i: int, j: int| 0 <= i < j < ps.len() ==> ps[i].0 != ps[j].0
}

/// Every key in `es` carries the vendor extension prefix.
pub open spec fn ext_wf(es: Seq<(Seq<char>, JsonView)>) -> bool {
    forall|i: int| 0 <= i < es.len() ==> is_ext_key(#[trigger] es[i].0)
}

// ---------------------------------------------------------------------
// Transport scheme.
// ---------------------------------------------------------------------

/// A transport scheme an API is served over.
#[derive(Clone, Copy, Debug, PartialEq, Eq, Structural)]
pub enum Scheme {
    Http,
    Https,
    Ws,
    Wss,
}

impl Default for Scheme {
    fn default() -> (r: Self)
        ensures
            r == Scheme::Http,
    {
        Scheme::Http
    }
}

// ---------------------------------------------------------------------
// Contact, License, ExternalDoc, Info, Tag.
// ---------------------------------------------------------------------

#[derive(Clone, Debug, Default, PartialEq)]
pub struct Contact {
    pub name: Option<String>,
    pub url: Option<String>,
    pub email: Option<String>,
}

#[verifier::ext_equal]
pub struct ContactView {
    pub name: Option<Seq<char>>,
    pub url: Option<Seq<char>>,
    pub email: Option<Seq<char>>,
}

impl DeepView for Contact {
    type V = ContactView;

    open spec fn deep_view(&self) -> ContactView {
        ContactView {
            name: self.name.deep_view(),
            url: self.url.deep_view(),
            email: self.email.deep_view(),
        }
    }
}

#[derive(Clone, Debug, Default, PartialEq)]
pub struct License {
    pub name: Option<String>,
    pub url: Option<String>,
}

#[verifier::ext_equal]
pub struct LicenseView {
    pub name: Option<Seq<char>>,
    pub url: Option<Seq<char>>,
}

impl DeepView for License {
    type V = LicenseView;

    open spec fn deep_view(&self) -> LicenseView {
        LicenseView { name: self.name.deep_view(), url: self.url.deep_view() }
    }
}

#[derive(Clone, Debug, Default, PartialEq)]
pub struct ExternalDoc {
    pub url: String,
    pub description: Option<String>,
}

#[verifier::ext_equal]
pub struct ExternalDocView {
    pub url: Seq<char>,
    pub description: Option<Seq<char>>,
}

impl DeepView for ExternalDoc {
    type V = ExternalDocView;

    open spec fn deep_view(&self) -> ExternalDocView {
        ExternalDocView { url: self.url.deep_view(), description: self.description.deep_view() }
    }
}

/// General information about the API.
#[derive(Clone, Debug, Default, PartialEq)]
pub struct Info {
    pub title: Option<String>,
    pub description: Option<String>,
    pub terms_of_service: Option<String>,
    pub contact: Option<Contact>,
    pub license: Option<License>,
    pub version: Option<String>,
}

#[verifier::ext_equal]
pub struct InfoView {
    pub title: Option<Seq<char>>,
    pub description: Option<Seq<char>>,
    pub terms_of_service: Option<Seq<char>>,
    pub contact: Option<ContactView>,
    pub license: Option<LicenseView>,
    pub version: Option<Seq<char>>,
}

impl DeepView for Info {
    type V = InfoView;

    open spec fn deep_view(&self) -> InfoView {
        InfoView {
            title: self.title.deep_view(),
            description: self.description.deep_view(),
            terms_of_service: self.terms_of_service.deep_view(),
            contact: self.contact.deep_view(),
            license: self.license.deep_view(),
            version: self.version.deep_view(),
        }
    }
}

#[derive(Clone, Debug, Default, PartialEq)]
pub struct Tag {
    pub name: String,
    pub description: Option<String>,
    pub external_docs: Option<Vec<ExternalDoc>>,
}

#[verifier::ext_equal]
pub struct TagView {
    pub name: Seq<char>,
    pub description: Option<Seq<char>>,
    pub external_docs: Option<Seq<ExternalDocView>>,
}

impl DeepView for Tag {
    type V = TagView;

    open spec fn deep_view(&self) -> TagView {
        TagView {
            name: self.name.deep_view(),
            description: self.description.deep_view(),
            external_docs: self.external_docs.deep_view(),
        }
    }
}

// ---------------------------------------------------------------------
// Property defaults.
// ---------------------------------------------------------------------

/// A scalar default value: an integer, a boolean, or a string, classified
/// in that priority order.
#[derive(Clone, Debug, PartialEq)]
pub enum PropertyDefault {
    Integer(i32),
    Boolean(bool),
    String(String),
}

#[verifier::ext_equal]
pub enum PropertyDefaultView {
    Integer(i32),
    Boolean(bool),
    String(Seq<char>),
}

impl DeepView for PropertyDefault {
    type V = PropertyDefaultView;

    open spec fn deep_view(&self) -> PropertyDefaultView {
        match *self {
            PropertyDefault::Integer(i) => PropertyDefaultView::Integer(i),
            PropertyDefault::Boolean(b) => PropertyDefaultView::Boolean(b),
            PropertyDefault::String(ref s) => PropertyDefaultView::String(s@),
        }
    }
}

impl From<i32> for PropertyDefault {
    fn from(item: i32) -> Self {
        PropertyDefault::Integer(item)
    }
}

impl vstd::std_specs::convert::FromSpecImpl<i32> for PropertyDefault {
    open spec fn obeys_from_spec() -> bool {
        true
    }

    open spec fn from_spec(item: i32) -> Self {
        PropertyDefault::Integer(item)
    }
}

impl From<bool> for PropertyDefault {
    fn from(item: bool) -> Self {
        PropertyDefault::Boolean(item)
    }
}

impl vstd::std_specs::convert::FromSpecImpl<bool> for PropertyDefault {
    open spec fn obeys_from_spec() -> bool {
        true
    }

    open spec fn from_spec(item: bool) -> Self {
        PropertyDefault::Boolean(item)
    }
}

impl From<String> for PropertyDefault {
    fn from(item: String) -> Self {
        PropertyDefault::String(item)
    }
}

impl vstd::std_specs::convert::FromSpecImpl<String> for PropertyDefault {
    open spec fn obeys_from_spec() -> bool {
        true
    }

    open spec fn from_spec(item: String) -> Self {
        PropertyDefault::String(item)
    }
}

impl From<PropertyDefault> for i32 {
    fn from(item: PropertyDefault) -> Self {
        match item {
            PropertyDefault::Integer(i) => i,
            _ => 1,
        }
    }
}

impl vstd::std_specs::convert::FromSpecImpl<PropertyDefault> for i32 {
    open spec fn obeys_from_spec() -> bool {
        true
    }

    open spec fn from_spec(item: PropertyDefault) -> Self {
        match item {
            PropertyDefault::Integer(i) => i,
            _ => 1,
        }
    }
}

impl From<PropertyDefault> for bool {
    fn from(item: PropertyDefault) -> Self {
        match item {
            PropertyDefault::Boolean(b) => b,
            _ => true,
        }
    }
}

impl vstd::std_specs::convert::FromSpecImpl<PropertyDefault> for bool {
    open spec fn obeys_from_spec() -> bool {
        true
    }

    open spec fn from_spec(item: PropertyDefault) -> Self {
        match item {
            PropertyDefault::Boolean(b) => b,
            _ => true,
        }
    }
}

impl From<PropertyDefault> for String {
    fn from(item: PropertyDefault) -> (r: String)
        ensures
            r@ == (match item.deep_view() {
                PropertyDefaultView::String(s) => s,
                _ => Seq::<char>::empty(),
            }),
    {
        match item {
            PropertyDefault::String(s) => s,
            _ => String::new(),
        }
    }
}

impl vstd::std_specs::convert::FromSpecImpl<PropertyDefault> for String {
    open spec fn obeys_from_spec() -> bool {
        false
    }

    open spec fn from_spec(item: PropertyDefault) -> Self {
        match item {
            PropertyDefault::String(s) => s,
            _ => arbitrary(),
        }
    }
}

// ---------------------------------------------------------------------
// Schema: the recursive node.
// ---------------------------------------------------------------------

/// A JSON-schema-like definition describing the shape of a value. `items`
/// holds the single child of an array schema; `properties` the named
/// children of an object schema. `ref_path` is an opaque reference path,
/// never dereferenced here.
#[derive(Debug, Default, PartialEq)]
pub struct Schema {
    pub ref_path: Option<String>,
    pub description: Option<String>,
    pub schema_type: Option<String>,
    pub format: Option<String>,
    pub enum_values: Option<Vec<String>>,
    pub required: Option<Vec<String>>,
    pub items: Option<Box<Schema>>,
    pub properties: Option<Vec<(String, Schema)>>,
}

#[verifier::ext_equal]
pub struct SchemaView {
    pub ref_path: Option<Seq<char>>,
    pub description: Option<Seq<char>>,
    pub schema_type: Option<Seq<char>>,
    pub format: Option<Seq<char>>,
    pub enum_values: Option<Seq<Seq<char>>>,
    pub required: Option<Seq<Seq<char>>>,
    pub items: Option<Box<SchemaView>>,
    pub properties: Option<Seq<(Seq<char>, SchemaView)>>,
}

pub open spec fn view_schema(s: Schema) -> SchemaView
    decreases s,
{
    SchemaView {
        ref_path: s.ref_path.deep_view(),
        description: s.description.deep_view(),
        schema_type: s.schema_type.deep_view(),
        format: s.format.deep_view(),
        enum_values: s.enum_values.deep_view(),
        required: s.required.deep_view(),
        items: match s.items {
            Some(child) => Some(Box::new(view_schema(*child))),
            None => None,
        },
        properties: match s.properties {
            Some(props) => Some(view_schema_entries(props@)),
            None => None,
        },
    }
}

pub open spec fn view_schema_entries(ps: Seq<(String, Schema)>) -> Seq<(Seq<char>, SchemaView)>
    decreases ps,
{
    Seq::new(
        ps.len(),
        |i: int|
            if 0 <= i < ps.len() {
                (ps[i].0@, view_schema(ps[i].1))
            } else {
                (Seq::empty(), SchemaView::default_view())
            },
    )
}

impl SchemaView {
    /// The placeholder for out-of-range indexes in `view_schema_entries`.
    pub open spec fn default_view() -> SchemaView {
        SchemaView {
            ref_path: None,
            description: None,
            schema_type: None,
            format: None,
            enum_values: None,
            required: None,
            items: None,
            properties: None,
        }
    }

    /// Property names are unique, here and in every child.
    pub open spec fn wf(self) -> bool
        decreases self,
    {
        &&& (self.items matches Some(child) ==> child.wf())
        &&& (self.properties matches Some(ps) ==> {
            &&& keys_unique(ps)
            &&& forall|i: int|
                0 <= i < ps.len() ==> (#[trigger] ps[i].1).wf()
        })
    }
}

impl DeepView for Schema {
    type V = SchemaView;

    open spec fn deep_view(&self) -> SchemaView {
        view_schema(*self)
    }
}

fn clone_opt_string(o: &Option<String>) -> (r: Option<String>)
    ensures
        r.deep_view() == o.deep_view(),
{
    match o {
        Some(s) => Some(s.clone()),
        None => None,
    }
}

fn clone_string_list(v: &Vec<String>) -> (r: Vec<String>)
    ensures
        r.deep_view() == v.deep_view(),
{
    let n = v.len();
    let mut out: Vec<String> = Vec::new();
    let mut i: usize = 0;
    while i < n
        invariant
            i <= n,
            n == v.len(),
            out@.len() == i,
            forall|j: int| 0 <= j < i ==> out@[j]@ == v@[j]@,
        decreases n - i,
    {
        out.push(v[i].clone());
        i = i + 1;
    }
    proof {
        assert(out.deep_view() =~= v.deep_view());
    }
    out
}

fn clone_opt_string_list(o: &Option<Vec<String>>) -> (r: Option<Vec<String>>)
    ensures
        r.deep_view() == o.deep_view(),
{
    match o {
        Some(v) => Some(clone_string_list(v)),
        None => None,
    }
}

#[verifier::loop_isolation(false)]
fn clone_schema(s: &Schema) -> (r: Schema)
    ensures
        r.deep_view() == s.deep_view(),
    decreases *s,
{
    let items: Option<Box<Schema>> = match &s.items {
        Some(child) => Some(Box::new(clone_schema(child))),
        None => None,
    };
    let properties: Option<Vec<(String, Schema)>> = match &s.properties {
        Some(props) => {
            let n = props.len();
            let mut out: Vec<(String, Schema)> = Vec::new();
            let mut i: usize = 0;
            while i < n
                invariant
                    i <= n,
                    n == props.len(),
                    out@.len() == i,
                    forall|j: int|
                        0 <= j < i ==> out@[j].0@ == props@[j].0@ && out@[j].1.deep_view()
                            == props@[j].1.deep_view(),
                decreases n - i,
            {
                let k = props[i].0.clone();
                let v = clone_schema(&props[i].1);
                out.push((k, v));
                i = i + 1;
            }
            proof {
                assert(view_schema_entries(out@) =~= view_schema_entries(props@));
            }
            Some(out)
        },
        None => None,
    };
    let r = Schema {
        ref_path: clone_opt_string(&s.ref_path),
        description: clone_opt_string(&s.description),
        schema_type: clone_opt_string(&s.schema_type),
        format: clone_opt_string(&s.format),
        enum_values: clone_opt_string_list(&s.enum_values),
        required: clone_opt_string_list(&s.required),
        items,
        properties,
    };
    proof {
        assert(r.deep_view() =~~= s.deep_view());
    }
    r
}

impl Clone for Schema {
    fn clone(&self) -> (r: Self)
        ensures
            r.deep_view() == self.deep_view(),
    {
        clone_schema(self)
    }
}

// ---------------------------------------------------------------------
// Parameter, Response, ParameterOrRef, Security.
// ---------------------------------------------------------------------

/// A fully specified operation parameter.
#[derive(Clone, Debug, Default, PartialEq)]
pub struct Parameter {
    /// The name of the parameter.
    pub name: String,
    /// Where the parameter lives: "query", "header", "path", "formData" or
    /// "body".
    pub location: String,
    pub required: Option<bool>,
    pub schema: Option<Schema>,
    pub unique_items: Option<bool>,
    /// string, number, boolean, integer, array, or file.
    pub param_type: Option<String>,
    pub format: Option<String>,
    pub description: Option<String>,
    pub default: Option<PropertyDefault>,
    pub minimum: Option<i32>,
    pub maximum: Option<i32>,
    pub enum_values: Option<Vec<String>>,
}

#[verifier::ext_equal]
pub struct ParameterView {
    pub name: Seq<char>,
    pub location: Seq<char>,
    pub required: Option<bool>,
    pub schema: Option<SchemaView>,
    pub unique_items: Option<bool>,
    pub param_type: Option<Seq<char>>,
    pub format: Option<Seq<char>>,
    pub description: Option<Seq<char>>,
    pub default: Option<PropertyDefaultView>,
    pub minimum: Option<i32>,
    pub maximum: Option<i32>,
    pub enum_values: Option<Seq<Seq<char>>>,
}

impl DeepView for Parameter {
    type V = ParameterView;

    open spec fn deep_view(&self) -> ParameterView {
        ParameterView {
            name: self.name.deep_view(),
            location: self.location.deep_view(),
            required: self.required,
            schema: self.schema.deep_view(),
            unique_items: self.unique_items,
            param_type: self.param_type.deep_view(),
            format: self.format.deep_view(),
            description: self.description.deep_view(),
            default: self.default.deep_view(),
            minimum: self.minimum,
            maximum: self.maximum,
            enum_values: self.enum_values.deep_view(),
        }
    }
}

impl ParameterView {
    pub open spec fn wf(self) -> bool {
        self.schema matches Some(s) ==> s.wf()
    }
}

#[derive(Clone, Debug, Default, PartialEq)]
pub struct Response {
    pub description: String,
    pub schema: Option<Schema>,
}

#[verifier::ext_equal]
pub struct ResponseView {
    pub description: Seq<char>,
    pub schema: Option<SchemaView>,
}

impl DeepView for Response {
    type V = ResponseView;

    open spec fn deep_view(&self) -> ResponseView {
        ResponseView { description: self.description.deep_view(), schema: self.schema.deep_view() }
    }
}

impl ResponseView {
    pub open spec fn wf(self) -> bool {
        self.schema matches Some(s) ==> s.wf()
    }
}

/// Either a fully specified parameter or a reference to one; exactly one
/// shape applies per instance.
#[derive(Clone, Debug, PartialEq)]
pub enum ParameterOrRef {
    Parameter(Parameter),
    Ref { ref_path: String },
}

#[verifier::ext_equal]
pub enum ParameterOrRefView {
    Parameter(ParameterView),
    Ref { ref_path: Seq<char> },
}

impl DeepView for ParameterOrRef {
    type V = ParameterOrRefView;

    open spec fn deep_view(&self) -> ParameterOrRefView {
        match *self {
            ParameterOrRef::Parameter(ref p) => ParameterOrRefView::Parameter(p.deep_view()),
            ParameterOrRef::Ref { ref ref_path } => ParameterOrRefView::Ref {
                ref_path: ref_path@,
            },
        }
    }
}

impl ParameterOrRefView {
    pub open spec fn wf(self) -> bool {
        self matches ParameterOrRefView::Parameter(p) ==> p.wf()
    }
}

/// A security scheme, dispatched on its "type" tag.
#[derive(Clone, Debug, PartialEq)]
pub enum Security {
    ApiKey { name: String, location: String },
    Oauth2 {
        flow: String,
        authorization_url: String,
        token_url: Option<String>,
        scopes: Vec<(String, String)>,
    },
    Basic,
}

#[verifier::ext_equal]
pub enum SecurityView {
    ApiKey { name: Seq<char>, location: Seq<char> },
    Oauth2 {
        flow: Seq<char>,
        authorization_url: Seq<char>,
        token_url: Option<Seq<char>>,
        scopes: Seq<(Seq<char>, Seq<char>)>,
    },
    Basic,
}

impl DeepView for Security {
    type V = SecurityView;

    open spec fn deep_view(&self) -> SecurityView {
        match *self {
            Security::ApiKey { ref name, ref location } => SecurityView::ApiKey {
                name: name@,
                location: location@,
            },
            Security::Oauth2 { ref flow, ref authorization_url, ref token_url, ref scopes } => SecurityView::Oauth2 {
                flow: flow@,
                authorization_url: authorization_url@,
                token_url: token_url.deep_view(),
                scopes: scopes.deep_view(),
            },
            Security::Basic => SecurityView::Basic,
        }
    }
}

impl SecurityView {
    pub open spec fn wf(self) -> bool {
        self matches SecurityView::Oauth2 { scopes, .. } ==> keys_unique(scopes)
    }
}

// ---------------------------------------------------------------------
// Operation, PathItem, Spec.
// ---------------------------------------------------------------------

/// One operation on a path. Vendor extension fields on the operation
/// object are captured verbatim beside the typed fields.
#[derive(Clone, Debug, Default, PartialEq)]
pub struct Operation {
    pub summary: Option<String>,
    pub description: Option<String>,
    pub consumes: Option<Vec<String>>,
    pub produces: Option<Vec<String>>,
    pub schemes: Option<Vec<String>>,
    pub tags: Option<Vec<String>>,
    pub operation_id: Option<String>,
    /// Mapping from HTTP response code, or "default", to the response.
    pub responses: Vec<(String, Response)>,
    pub parameters: Option<Vec<ParameterOrRef>>,
    pub extensions: Extensions,
}

#[verifier::ext_equal]
pub struct OperationView {
    pub summary: Option<Seq<char>>,
    pub description: Option<Seq<char>>,
    pub consumes: Option<Seq<Seq<char>>>,
    pub produces: Option<Seq<Seq<char>>>,
    pub schemes: Option<Seq<Seq<char>>>,
    pub tags: Option<Seq<Seq<char>>>,
    pub operation_id: Option<Seq<char>>,
    pub responses: Seq<(Seq<char>, ResponseView)>,
    pub parameters: Option<Seq<ParameterOrRefView>>,
    pub extensions: Seq<(Seq<char>, JsonView)>,
}

impl DeepView for Operation {
    type V = OperationView;

    open spec fn deep_view(&self) -> OperationView {
        OperationView {
            summary: self.summary.deep_view(),
            description: self.description.deep_view(),
            consumes: self.consumes.deep_view(),
            produces: self.produces.deep_view(),
            schemes: self.schemes.deep_view(),
            tags: self.tags.deep_view(),
            operation_id: self.operation_id.deep_view(),
            responses: self.responses.deep_view(),
            parameters: self.parameters.deep_view(),
            extensions: self.extensions.deep_view(),
        }
    }
}

impl OperationView {
    pub open spec fn wf(self) -> bool {
        &&& keys_unique(self.responses)
        &&& forall|i: int|
            0 <= i < self.responses.len() ==> (#[trigger] self.responses[i].1).wf()
        &&& (self.parameters matches Some(ps) ==> forall|i: int|
            0 <= i < ps.len() ==> (#[trigger] ps[i]).wf())
        &&& ext_wf(self.extensions)
    }
}

/// The operations available on a single path, one per HTTP method, plus
/// parameters shared by all of them.
#[derive(Clone, Debug, Default, PartialEq)]
pub struct PathItem {
    pub get: Option<Operation>,
    pub post: Option<Operation>,
    pub put: Option<Operation>,
    pub patch: Option<Operation>,
    pub delete: Option<Operation>,
    pub options: Option<Operation>,
    pub head: Option<Operation>,
    pub parameters: Option<Vec<ParameterOrRef>>,
}

#[verifier::ext_equal]
pub struct PathItemView {
    pub get: Option<OperationView>,
    pub post: Option<OperationView>,
    pub put: Option<OperationView>,
    pub patch: Option<OperationView>,
    pub delete: Option<OperationView>,
    pub options: Option<OperationView>,
    pub head: Option<OperationView>,
    pub parameters: Option<Seq<ParameterOrRefView>>,
}

impl DeepView for PathItem {
    type V = PathItemView;

    open spec fn deep_view(&self) -> PathItemView {
        PathItemView {
            get: self.get.deep_view(),
            post: self.post.deep_view(),
            put: self.put.deep_view(),
            patch: self.patch.deep_view(),
            delete: self.delete.deep_view(),
            options: self.options.deep_view(),
            head: self.head.deep_view(),
            parameters: self.parameters.deep_view(),
        }
    }
}

impl PathItemView {
    pub open spec fn wf(self) -> bool {
        &&& (self.get matches Some(op) ==> op.wf())
        &&& (self.post matches Some(op) ==> op.wf())
        &&& (self.put matches Some(op) ==> op.wf())
        &&& (self.patch matches Some(op) ==> op.wf())
        &&& (self.delete matches Some(op) ==> op.wf())
        &&& (self.options matches Some(op) ==> op.wf())
        &&& (self.head matches Some(op) ==> op.wf())
        &&& (self.parameters matches Some(ps) ==> forall|i: int|
            0 <= i < ps.len() ==> (#[trigger] ps[i]).wf())
    }
}

/// A version 2.0 document. Vendor extension fields on the document
/// object are captured verbatim beside the typed fields.
#[derive(Clone, Debug, Default, PartialEq)]
pub struct Spec {
    /// The Swagger version of this document.
    pub swagger: String,
    pub info: Info,
    /// The host (name or ip) of the API, e.g. 'swagger.io'.
    pub host: Option<String>,
    /// The base path to the API, e.g. '/api'.
    pub base_path: Option<String>,
    pub schemes: Option<Vec<Scheme>>,
    /// MIME types accepted by the API.
    pub consumes: Option<Vec<String>>,
    /// MIME types the API can produce.
    pub produces: Option<Vec<String>>,
    pub tags: Option<Vec<Tag>>,
    /// Relative paths to the individual endpoints, relative to `base_path`.
    pub paths: Vec<(String, PathItem)>,
    pub definitions: Option<Vec<(String, Schema)>>,
    pub parameters: Option<Vec<(String, Parameter)>>,
    /// Mapping from HTTP response code, or "default", to a reusable
    /// response.
    pub responses: Option<Vec<(String, Response)>>,
    pub security_definitions: Option<Vec<(String, Security)>>,
    pub external_docs: Option<Vec<ExternalDoc>>,
    pub extensions: Extensions,
}

#[verifier::ext_equal]
pub struct SpecView {
    pub swagger: Seq<char>,
    pub info: InfoView,
    pub host: Option<Seq<char>>,
    pub base_path: Option<Seq<char>>,
    pub schemes: Option<Seq<Scheme>>,
    pub consumes: Option<Seq<Seq<char>>>,
    pub produces: Option<Seq<Seq<char>>>,
    pub tags: Option<Seq<TagView>>,
    pub paths: Seq<(Seq<char>, PathItemView)>,
    pub definitions: Option<Seq<(Seq<char>, SchemaView)>>,
    pub parameters: Option<Seq<(Seq<char>, ParameterView)>>,
    pub responses: Option<Seq<(Seq<char>, ResponseView)>>,
    pub security_definitions: Option<Seq<(Seq<char>, SecurityView)>>,
    pub external_docs: Option<Seq<ExternalDocView>>,
    pub extensions: Seq<(Seq<char>, JsonView)>,
}

impl DeepView for Scheme {
    type V = Scheme;

    open spec fn deep_view(&self) -> Scheme {
        *self
    }
}

impl DeepView for Spec {
    type V = SpecView;

    open spec fn deep_view(&self) -> SpecView {
        SpecView {
            swagger: self.swagger.deep_view(),
            info: self.info.deep_view(),
            host: self.host.deep_view(),
            base_path: self.base_path.deep_view(),
            schemes: self.schemes.deep_view(),
            consumes: self.consumes.deep_view(),
            produces: self.produces.deep_view(),
            tags: self.tags.deep_view(),
            paths: self.paths.deep_view(),
            definitions: self.definitions.deep_view(),
            parameters: self.parameters.deep_view(),
            responses: self.responses.deep_view(),
            security_definitions: self.security_definitions.deep_view(),
            external_docs: self.external_docs.deep_view(),
            extensions: self.extensions.deep_view(),
        }
    }
}

impl SpecView {
    pub open spec fn wf(self) -> bool {
        &&& ext_wf(self.extensions)
        &&& keys_unique(self.paths)
        &&& forall|i: int|
            0 <= i < self.paths.len() ==> (#[trigger] self.paths[i].1).wf()
        &&& (self.definitions matches Some(ds) ==> {
            &&& keys_unique(ds)
            &&& forall|i: int| 0 <= i < ds.len() ==> (#[trigger] ds[i].1).wf()
        })
        &&& (self.parameters matches Some(ps) ==> {
            &&& keys_unique(ps)
            &&& forall|i: int| 0 <= i < ps.len() ==> (#[trigger] ps[i].1).wf()
        })
        &&& (self.responses matches Some(rs) ==> {
            &&& keys_unique(rs)
            &&& forall|i: int| 0 <= i < rs.len() ==> (#[trigger] rs[i].1).wf()
        })
        &&& (self.security_definitions matches Some(sd) ==> {
            &&& keys_unique(sd)
            &&& forall|i: int| 0 <= i < sd.len() ==> (#[trigger] sd[i].1).wf()
        })
    }
}

} // verus!
