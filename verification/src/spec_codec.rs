//! Decoding and encoding of the version 2.0 document: the top-level
//! object that gathers metadata, paths, and reusable definitions.

use vstd::prelude::*;
use crate::codec::{
    entry_lookup, get_opt_str, get_opt_str_list, get_req_str, lemma_lookup_drop_back,
    lemma_lookup_skip_front, lemma_str_list_round_trip, opt_entry, opt_str_entry, opt_str_field,
    opt_str_list_entry, opt_str_list_field, push_opt_str, push_opt_str_list, push_req, push_str,
    req_entry, req_str_field, str_entry, Entries,
};
use crate::doc_codec::{
    get_opt_extdoc_list, opt_extdoc_list_entry,
    opt_extdoc_list_field, push_opt_extdoc_list, lemma_extdoc_list_round_trip,
};
use crate::error::{rv, Error, ErrorView};
use crate::json::{lookup, obj_get, view_entries, view_items, Json, JsonView};
use crate::op_codec::{
    dec_path_item_map, dec_response_map, decode_path_item_map, decode_response_map,
    enc_path_item_map, enc_response_map, encode_path_item_map, encode_response_map,
    lemma_path_item_map_round_trip, lemma_response_map_round_trip,
};
use crate::param_codec::{
    dec_parameter_map, decode_parameter_map, enc_parameter_map, encode_parameter_map,
    lemma_parameter_map_round_trip,
};
use crate::scalar_codec::{
    get_opt_scheme_list, lemma_scheme_list_round_trip, opt_scheme_list_entry,
    opt_scheme_list_field, push_opt_scheme_list,
};
use crate::schema::{ext_wf, Info, InfoView, Spec, SpecView, Tag, TagView};
use crate::schema_codec::{
    get_opt_schema_map, opt_schema_map_entry,
    opt_schema_map_field, push_opt_schema_map, lemma_schema_map_round_trip,
};
use crate::v3_0::{
    capture_extensions, lemma_capture_all, lemma_capture_append, lemma_capture_none,
    push_extensions, spec_capture,
};
use crate::security_codec::{
    dec_security_map, decode_security_map, enc_security_map, encode_security_map,
    lemma_security_map_round_trip,
};

verus! {

broadcast use crate::codec::lemma_req_entry_key, crate::codec::lemma_opt_entry_key;

pub open spec fn dec_tag_list(items: Seq<JsonView>) -> Result<Seq<TagView>, ErrorView>
    decreases items.len(),
{
    if items.len() == 0 {
        Ok(Seq::empty())
    } else {
        match dec_tag_list(items.drop_last()) {
            Ok(init) => match TagView::decode(items.last()) {
                Ok(d) => Ok(init.push(d)),
                Err(e) => Err(e),
            },
            Err(e) => Err(e),
        }
    }
}

pub open spec fn enc_tag_list(ds: Seq<TagView>) -> Seq<JsonView> {
    Seq::new(ds.len(), |i: int| ds[i].encode())
}

/// Once a prefix fails to decode, the whole list reports that failure.
pub proof fn lemma_dec_tag_list_err(items: Seq<JsonView>, j: int)
    requires
        0 <= j <= items.len(),
        dec_tag_list(items.take(j)) is Err,
    ensures
        dec_tag_list(items) == dec_tag_list(items.take(j)),
    decreases items.len() - j,
{
    if j == items.len() {
        assert(items.take(j) =~= items);
    } else {
        assert(items.take(j + 1).drop_last() =~= items.take(j));
        lemma_dec_tag_list_err(items, j + 1);
    }
}

/// A tag list reads back from its own encoding.
pub proof fn lemma_tag_list_round_trip(ds: Seq<TagView>)
    ensures
        dec_tag_list(enc_tag_list(ds)) == Ok::<_, ErrorView>(ds),
    decreases ds.len(),
{
    if ds.len() == 0 {
        assert(enc_tag_list(ds) =~= Seq::<JsonView>::empty());
        assert(ds =~= Seq::<TagView>::empty());
    } else {
        assert(enc_tag_list(ds).drop_last() =~= enc_tag_list(ds.drop_last()));
        lemma_tag_list_round_trip(ds.drop_last());
        ds.last().lemma_round_trip();
        assert(ds.drop_last().push(ds.last()) =~= ds);
    }
}

pub fn decode_tag_list(items: &Vec<Json>) -> (r: Result<Vec<Tag>, Error>)
    ensures
        rv(r) == dec_tag_list(view_items(items@)),
{
    let iv = Ghost(view_items(items@));
    let n = items.len();
    let mut out: Vec<Tag> = Vec::new();
    let mut i: usize = 0;
    proof {
        assert(iv@.take(0) =~= Seq::<JsonView>::empty());
        assert(out.deep_view() =~= Seq::<TagView>::empty());
    }
    while i < n
        invariant
            i <= n,
            n == items.len(),
            iv@ == view_items(items@),
            dec_tag_list(iv@.take(i as int)) == Ok::<_, ErrorView>(out.deep_view()),
        decreases n - i,
    {
        proof {
            assert(iv@.take(i + 1 as int).drop_last() =~= iv@.take(i as int));
            assert(iv@.take(i + 1 as int).last() == iv@[i as int]);
        }
        let prev = Ghost(out.deep_view());
        match Tag::decode(&items[i]) {
            Ok(d) => {
                let dv = Ghost(d.deep_view());
                out.push(d);
                proof {
                    assert(out.deep_view() =~= prev@.push(dv@));
                }
            },
            Err(e) => {
                proof {
                    lemma_dec_tag_list_err(iv@, i + 1 as int);
                }
                return Err(e);
            },
        }
        i = i + 1;
    }
    proof {
        assert(iv@.take(n as int) =~= iv@);
    }
    Ok(out)
}

pub fn encode_tag_list(ds: &Vec<Tag>) -> (r: Json)
    ensures
        r@ == JsonView::Arr(enc_tag_list(ds.deep_view())),
{
    let n = ds.len();
    let mut out: Vec<Json> = Vec::new();
    let mut i: usize = 0;
    while i < n
        invariant
            i <= n,
            n == ds.len(),
            out@.len() == i,
            forall|j: int| 0 <= j < i ==> out@[j]@ == ds@[j].deep_view().encode(),
        decreases n - i,
    {
        let d = ds[i].encode();
        out.push(d);
        i = i + 1;
    }
    proof {
        assert(view_items(out@) =~= enc_tag_list(ds.deep_view()));
    }
    Json::Arr(out)
}

pub open spec fn opt_tag_list_field(es: Entries, k: Seq<char>) -> Result<
    Option<Seq<TagView>>,
    ErrorView,
> {
    match lookup(es, k) {
        Some(JsonView::Arr(items)) => match dec_tag_list(items) {
            Ok(ts) => Ok(Some(ts)),
            Err(e) => Err(e),
        },
        Some(_) => Err(ErrorView::SchemaMismatch(k)),
        None => Ok(None),
    }
}

pub open spec fn opt_tag_list_entry(k: Seq<char>, v: Option<Seq<TagView>>) -> Entries {
    opt_entry(
        k,
        match v {
            Some(ts) => Some(JsonView::Arr(enc_tag_list(ts))),
            None => None,
        },
    )
}

pub fn get_opt_tag_list(es: &Vec<(String, Json)>, k: &str) -> (r: Result<Option<Vec<Tag>>, Error>)
    ensures
        rv(r) == opt_tag_list_field(view_entries(es@), k@),
{
    match obj_get(es, k) {
        Some(v) => match v {
            Json::Arr(items) => match decode_tag_list(items) {
                Ok(ts) => Ok(Some(ts)),
                Err(e) => Err(e),
            },
            _ => Err(Error::SchemaMismatch(k.to_owned())),
        },
        None => Ok(None),
    }
}

pub fn push_opt_tag_list(out: &mut Vec<(String, Json)>, k: &str, v: &Option<Vec<Tag>>)
    ensures
        view_entries(final(out)@) == view_entries(old(out)@) + opt_tag_list_entry(
            k@,
            v.deep_view(),
        ),
{
    match v {
        Some(ts) => {
            let j = encode_tag_list(ts);
            out.push((k.to_owned(), j));
        },
        None => {},
    }
    proof {
        assert(view_entries(out@) =~= view_entries(old(out)@) + opt_tag_list_entry(
            k@,
            v.deep_view(),
        ));
    }
}

pub open spec fn opt_parameter_map_field(es: Entries, k: Seq<char>) -> Result<
    Option<Seq<(Seq<char>, crate::schema::ParameterView)>>,
    ErrorView,
> {
    match lookup(es, k) {
        Some(JsonView::Obj(ps)) => match dec_parameter_map(ps) {
            Ok(m) => Ok(Some(m)),
            Err(e) => Err(e),
        },
        Some(_) => Err(ErrorView::SchemaMismatch(k)),
        None => Ok(None),
    }
}

pub open spec fn opt_parameter_map_entry(
    k: Seq<char>,
    v: Option<Seq<(Seq<char>, crate::schema::ParameterView)>>,
) -> Entries {
    opt_entry(
        k,
        match v {
            Some(m) => Some(JsonView::Obj(enc_parameter_map(m))),
            None => None,
        },
    )
}

pub fn get_opt_parameter_map(es: &Vec<(String, Json)>, k: &str) -> (r: Result<
    Option<Vec<(String, crate::schema::Parameter)>>,
    Error,
>)
    ensures
        rv(r) == opt_parameter_map_field(view_entries(es@), k@),
{
    match obj_get(es, k) {
        Some(v) => match v {
            Json::Obj(ps) => match decode_parameter_map(ps) {
                Ok(m) => Ok(Some(m)),
                Err(e) => Err(e),
            },
            _ => Err(Error::SchemaMismatch(k.to_owned())),
        },
        None => Ok(None),
    }
}

pub fn push_opt_parameter_map(
    out: &mut Vec<(String, Json)>,
    k: &str,
    v: &Option<Vec<(String, crate::schema::Parameter)>>,
)
    ensures
        view_entries(final(out)@) == view_entries(old(out)@) + opt_parameter_map_entry(
            k@,
            v.deep_view(),
        ),
{
    match v {
        Some(m) => {
            let j = encode_parameter_map(m);
            out.push((k.to_owned(), j));
        },
        None => {},
    }
    proof {
        assert(view_entries(out@) =~= view_entries(old(out)@) + opt_parameter_map_entry(
            k@,
            v.deep_view(),
        ));
    }
}

pub open spec fn opt_response_map_field(es: Entries, k: Seq<char>) -> Result<
    Option<Seq<(Seq<char>, crate::schema::ResponseView)>>,
    ErrorView,
> {
    match lookup(es, k) {
        Some(JsonView::Obj(ps)) => match dec_response_map(ps) {
            Ok(m) => Ok(Some(m)),
            Err(e) => Err(e),
        },
        Some(_) => Err(ErrorView::SchemaMismatch(k)),
        None => Ok(None),
    }
}

pub open spec fn opt_response_map_entry(
    k: Seq<char>,
    v: Option<Seq<(Seq<char>, crate::schema::ResponseView)>>,
) -> Entries {
    opt_entry(
        k,
        match v {
            Some(m) => Some(JsonView::Obj(enc_response_map(m))),
            None => None,
        },
    )
}

pub fn get_opt_response_map(es: &Vec<(String, Json)>, k: &str) -> (r: Result<
    Option<Vec<(String, crate::schema::Response)>>,
    Error,
>)
    ensures
        rv(r) == opt_response_map_field(view_entries(es@), k@),
{
    match obj_get(es, k) {
        Some(v) => match v {
            Json::Obj(ps) => match decode_response_map(ps) {
                Ok(m) => Ok(Some(m)),
                Err(e) => Err(e),
            },
            _ => Err(Error::SchemaMismatch(k.to_owned())),
        },
        None => Ok(None),
    }
}

pub fn push_opt_response_map(
    out: &mut Vec<(String, Json)>,
    k: &str,
    v: &Option<Vec<(String, crate::schema::Response)>>,
)
    ensures
        view_entries(final(out)@) == view_entries(old(out)@) + opt_response_map_entry(
            k@,
            v.deep_view(),
        ),
{
    match v {
        Some(m) => {
            let j = encode_response_map(m);
            out.push((k.to_owned(), j));
        },
        None => {},
    }
    proof {
        assert(view_entries(out@) =~= view_entries(old(out)@) + opt_response_map_entry(
            k@,
            v.deep_view(),
        ));
    }
}

pub open spec fn opt_security_map_field(es: Entries, k: Seq<char>) -> Result<
    Option<Seq<(Seq<char>, crate::schema::SecurityView)>>,
    ErrorView,
> {
    match lookup(es, k) {
        Some(JsonView::Obj(ps)) => match dec_security_map(ps) {
            Ok(m) => Ok(Some(m)),
            Err(e) => Err(e),
        },
        Some(_) => Err(ErrorView::SchemaMismatch(k)),
        None => Ok(None),
    }
}

pub open spec fn opt_security_map_entry(
    k: Seq<char>,
    v: Option<Seq<(Seq<char>, crate::schema::SecurityView)>>,
) -> Entries {
    opt_entry(
        k,
        match v {
            Some(m) => Some(JsonView::Obj(enc_security_map(m))),
            None => None,
        },
    )
}

pub fn get_opt_security_map(es: &Vec<(String, Json)>, k: &str) -> (r: Result<
    Option<Vec<(String, crate::schema::Security)>>,
    Error,
>)
    ensures
        rv(r) == opt_security_map_field(view_entries(es@), k@),
{
    match obj_get(es, k) {
        Some(v) => match v {
            Json::Obj(ps) => match decode_security_map(ps) {
                Ok(m) => Ok(Some(m)),
                Err(e) => Err(e),
            },
            _ => Err(Error::SchemaMismatch(k.to_owned())),
        },
        None => Ok(None),
    }
}

pub fn push_opt_security_map(
    out: &mut Vec<(String, Json)>,
    k: &str,
    v: &Option<Vec<(String, crate::schema::Security)>>,
)
    ensures
        view_entries(final(out)@) == view_entries(old(out)@) + opt_security_map_entry(
            k@,
            v.deep_view(),
        ),
{
    match v {
        Some(m) => {
            let j = encode_security_map(m);
            out.push((k.to_owned(), j));
        },
        None => {},
    }
    proof {
        assert(view_entries(out@) =~= view_entries(old(out)@) + opt_security_map_entry(
            k@,
            v.deep_view(),
        ));
    }
}

// ---------------------------------------------------------------------
// The version 2.0 document.
// ---------------------------------------------------------------------
impl SpecView {
    pub open spec fn enc(self) -> Entries {
        str_entry("swagger"@, self.swagger) + req_entry("info"@, self.info.encode())
            + opt_str_entry("host"@, self.host) + opt_str_entry("basePath"@, self.base_path)
            + opt_scheme_list_entry("schemes"@, self.schemes) + opt_str_list_entry(
            "consumes"@,
            self.consumes,
        ) + opt_str_list_entry("produces"@, self.produces) + opt_tag_list_entry(
            "tags"@,
            self.tags,
        ) + req_entry("paths"@, JsonView::Obj(enc_path_item_map(self.paths)))
            + opt_schema_map_entry("definitions"@, self.definitions) + opt_parameter_map_entry(
            "parameters"@,
            self.parameters,
        ) + opt_response_map_entry("responses"@, self.responses) + opt_security_map_entry(
            "securityDefinitions"@,
            self.security_definitions,
        ) + opt_extdoc_list_entry("externalDocs"@, self.external_docs) + self.extensions
    }

    pub open spec fn encode(self) -> JsonView {
        JsonView::Obj(self.enc())
    }

    pub open spec fn decode(v: JsonView) -> Result<SpecView, ErrorView> {
        match v {
            JsonView::Obj(es) => Self::decode_obj(es),
            _ => Err(ErrorView::SchemaMismatch("document"@)),
        }
    }

    pub open spec fn info_field(es: Entries) -> Result<InfoView, ErrorView> {
        match lookup(es, "info"@) {
            Some(iv) => InfoView::decode(iv),
            None => Err(ErrorView::SchemaMismatch("info"@)),
        }
    }

    pub open spec fn paths_field(es: Entries) -> Result<
        Seq<(Seq<char>, crate::schema::PathItemView)>,
        ErrorView,
    > {
        match lookup(es, "paths"@) {
            Some(JsonView::Obj(ps)) => dec_path_item_map(ps),
            Some(_) => Err(ErrorView::SchemaMismatch("paths"@)),
            None => Err(ErrorView::SchemaMismatch("paths"@)),
        }
    }

    pub open spec fn decode_obj(es: Entries) -> Result<SpecView, ErrorView> {
        match req_str_field(es, "swagger"@) {
            Err(e) => Err(e),
            Ok(swagger) => match Self::info_field(es) {
                Err(e) => Err(e),
                Ok(info) => match opt_str_field(es, "host"@) {
                    Err(e) => Err(e),
                    Ok(host) => match opt_str_field(es, "basePath"@) {
                        Err(e) => Err(e),
                        Ok(base_path) => match opt_scheme_list_field(es, "schemes"@) {
                            Err(e) => Err(e),
                            Ok(schemes) => match opt_str_list_field(es, "consumes"@) {
                                Err(e) => Err(e),
                                Ok(consumes) => match opt_str_list_field(es, "produces"@) {
                                    Err(e) => Err(e),
                                    Ok(produces) => match opt_tag_list_field(es, "tags"@) {
                                        Err(e) => Err(e),
                                        Ok(tags) => match Self::paths_field(es) {
                                            Err(e) => Err(e),
                                            Ok(paths) => match opt_schema_map_field(
                                                es,
                                                "definitions"@,
                                            ) {
                                                Err(e) => Err(e),
                                                Ok(definitions) => match opt_parameter_map_field(
                                                    es,
                                                    "parameters"@,
                                                ) {
                                                    Err(e) => Err(e),
                                                    Ok(parameters) => match opt_response_map_field(
                                                        es,
                                                        "responses"@,
                                                    ) {
                                                        Err(e) => Err(e),
                                                        Ok(responses) => match opt_security_map_field(
                                                            es,
                                                            "securityDefinitions"@,
                                                        ) {
                                                            Err(e) => Err(e),
                                                            Ok(security_definitions) => match opt_extdoc_list_field(
                                                                es,
                                                                "externalDocs"@,
                                                            ) {
                                                                Err(e) => Err(e),
                                                                Ok(external_docs) => Ok(
                                                                    SpecView {
                                                                        swagger,
                                                                        info,
                                                                        host,
                                                                        base_path,
                                                                        schemes,
                                                                        consumes,
                                                                        produces,
                                                                        tags,
                                                                        paths,
                                                                        definitions,
                                                                        parameters,
                                                                        responses,
                                                                        security_definitions,
                                                                        external_docs,
                                                                        extensions: spec_capture(
                                                                            es,
                                                                        ),
                                                                    },
                                                                ),
                                                            },
                                                        },
                                                    },
                                                },
                                            },
                                        },
                                    },
                                },
                            },
                        },
                    },
                },
            },
        }
    }

    #[verifier::rlimit(100)]
    proof fn lemma_lookups_a(self)
    requires
        ext_wf(self.extensions),
        ensures
            lookup(self.enc(), "swagger"@) == entry_lookup(str_entry("swagger"@, self.swagger)),
            lookup(self.enc(), "info"@) == entry_lookup(req_entry("info"@, self.info.encode())),
            lookup(self.enc(), "host"@) == entry_lookup(opt_str_entry("host"@, self.host)),
    {
        reveal_strlit("swagger");
        reveal_strlit("info");
        reveal_strlit("host");
        reveal_strlit("basePath");
        reveal_strlit("schemes");
        reveal_strlit("consumes");
        reveal_strlit("produces");
        reveal_strlit("tags");
        reveal_strlit("paths");
        reveal_strlit("definitions");
        reveal_strlit("parameters");
        reveal_strlit("responses");
        reveal_strlit("securityDefinitions");
        reveal_strlit("externalDocs");
        assert("swagger"@.len() == 7);
        assert("info"@.len() == 4);
        assert("host"@.len() == 4);
        assert("basePath"@.len() == 8);
        assert("schemes"@.len() == 7);
        assert("consumes"@.len() == 8);
        assert("produces"@.len() == 8);
        assert("tags"@.len() == 4);
        assert("paths"@.len() == 5);
        assert("definitions"@.len() == 11);
        assert("parameters"@.len() == 10);
        assert("responses"@.len() == 9);
        assert("securityDefinitions"@.len() == 19);
        assert("externalDocs"@.len() == 12);
        assert("swagger"@[0] == 's');
        assert("schemes"@[0] == 's');
        assert("swagger"@[1] == 'w');
        assert("schemes"@[1] == 'c');
        assert("info"@[0] == 'i');
        assert("host"@[0] == 'h');
        assert("tags"@[0] == 't');
        assert("basePath"@[0] == 'b');
        assert("consumes"@[0] == 'c');
        assert("produces"@[0] == 'p');
        assert("paths"@[0] == 'p');
        assert("definitions"@[0] == 'd');
        assert("responses"@[0] == 'r');
        assert("securityDefinitions"@[0] == 's');
        assert("externalDocs"@[0] == 'e');
        let e1 = str_entry("swagger"@, self.swagger);
        let e2 = req_entry("info"@, self.info.encode());
        let e3 = opt_str_entry("host"@, self.host);
        let e4 = opt_str_entry("basePath"@, self.base_path);
        let e5 = opt_scheme_list_entry("schemes"@, self.schemes);
        let e6 = opt_str_list_entry("consumes"@, self.consumes);
        let e7 = opt_str_list_entry("produces"@, self.produces);
        let e8 = opt_tag_list_entry("tags"@, self.tags);
        let e9 = req_entry("paths"@, JsonView::Obj(enc_path_item_map(self.paths)));
        let e10 = opt_schema_map_entry("definitions"@, self.definitions);
        let e11 = opt_parameter_map_entry("parameters"@, self.parameters);
        let e12 = opt_response_map_entry("responses"@, self.responses);
        let e13 = opt_security_map_entry("securityDefinitions"@, self.security_definitions);
        let e14 = opt_extdoc_list_entry("externalDocs"@, self.external_docs);
        let ext = self.extensions;
        lemma_lookup_drop_back(e1 + e2 + e3 + e4 + e5 + e6 + e7 + e8 + e9 + e10 + e11 + e12 + e13 + e14, ext, "swagger"@);
        lemma_lookup_drop_back(e1 + e2 + e3 + e4 + e5 + e6 + e7 + e8 + e9 + e10 + e11 + e12 + e13, e14, "swagger"@);
        lemma_lookup_drop_back(e1 + e2 + e3 + e4 + e5 + e6 + e7 + e8 + e9 + e10 + e11 + e12, e13, "swagger"@);
        lemma_lookup_drop_back(e1 + e2 + e3 + e4 + e5 + e6 + e7 + e8 + e9 + e10 + e11, e12, "swagger"@);
        lemma_lookup_drop_back(e1 + e2 + e3 + e4 + e5 + e6 + e7 + e8 + e9 + e10, e11, "swagger"@);
        lemma_lookup_drop_back(e1 + e2 + e3 + e4 + e5 + e6 + e7 + e8 + e9, e10, "swagger"@);
        lemma_lookup_drop_back(e1 + e2 + e3 + e4 + e5 + e6 + e7 + e8, e9, "swagger"@);
        lemma_lookup_drop_back(e1 + e2 + e3 + e4 + e5 + e6 + e7, e8, "swagger"@);
        lemma_lookup_drop_back(e1 + e2 + e3 + e4 + e5 + e6, e7, "swagger"@);
        lemma_lookup_drop_back(e1 + e2 + e3 + e4 + e5, e6, "swagger"@);
        lemma_lookup_drop_back(e1 + e2 + e3 + e4, e5, "swagger"@);
        lemma_lookup_drop_back(e1 + e2 + e3, e4, "swagger"@);
        lemma_lookup_drop_back(e1 + e2, e3, "swagger"@);
        lemma_lookup_drop_back(e1, e2, "swagger"@);
        lemma_lookup_drop_back(e1 + e2 + e3 + e4 + e5 + e6 + e7 + e8 + e9 + e10 + e11 + e12 + e13 + e14, ext, "info"@);
        lemma_lookup_drop_back(e1 + e2 + e3 + e4 + e5 + e6 + e7 + e8 + e9 + e10 + e11 + e12 + e13, e14, "info"@);
        lemma_lookup_drop_back(e1 + e2 + e3 + e4 + e5 + e6 + e7 + e8 + e9 + e10 + e11 + e12, e13, "info"@);
        lemma_lookup_drop_back(e1 + e2 + e3 + e4 + e5 + e6 + e7 + e8 + e9 + e10 + e11, e12, "info"@);
        lemma_lookup_drop_back(e1 + e2 + e3 + e4 + e5 + e6 + e7 + e8 + e9 + e10, e11, "info"@);
        lemma_lookup_drop_back(e1 + e2 + e3 + e4 + e5 + e6 + e7 + e8 + e9, e10, "info"@);
        lemma_lookup_drop_back(e1 + e2 + e3 + e4 + e5 + e6 + e7 + e8, e9, "info"@);
        lemma_lookup_drop_back(e1 + e2 + e3 + e4 + e5 + e6 + e7, e8, "info"@);
        lemma_lookup_drop_back(e1 + e2 + e3 + e4 + e5 + e6, e7, "info"@);
        lemma_lookup_drop_back(e1 + e2 + e3 + e4 + e5, e6, "info"@);
        lemma_lookup_drop_back(e1 + e2 + e3 + e4, e5, "info"@);
        lemma_lookup_drop_back(e1 + e2 + e3, e4, "info"@);
        lemma_lookup_drop_back(e1 + e2, e3, "info"@);
        lemma_lookup_skip_front(e1, e2, "info"@);
        lemma_lookup_drop_back(e1 + e2 + e3 + e4 + e5 + e6 + e7 + e8 + e9 + e10 + e11 + e12 + e13 + e14, ext, "host"@);
        lemma_lookup_drop_back(e1 + e2 + e3 + e4 + e5 + e6 + e7 + e8 + e9 + e10 + e11 + e12 + e13, e14, "host"@);
        lemma_lookup_drop_back(e1 + e2 + e3 + e4 + e5 + e6 + e7 + e8 + e9 + e10 + e11 + e12, e13, "host"@);
        lemma_lookup_drop_back(e1 + e2 + e3 + e4 + e5 + e6 + e7 + e8 + e9 + e10 + e11, e12, "host"@);
        lemma_lookup_drop_back(e1 + e2 + e3 + e4 + e5 + e6 + e7 + e8 + e9 + e10, e11, "host"@);
        lemma_lookup_drop_back(e1 + e2 + e3 + e4 + e5 + e6 + e7 + e8 + e9, e10, "host"@);
        lemma_lookup_drop_back(e1 + e2 + e3 + e4 + e5 + e6 + e7 + e8, e9, "host"@);
        lemma_lookup_drop_back(e1 + e2 + e3 + e4 + e5 + e6 + e7, e8, "host"@);
        lemma_lookup_drop_back(e1 + e2 + e3 + e4 + e5 + e6, e7, "host"@);
        lemma_lookup_drop_back(e1 + e2 + e3 + e4 + e5, e6, "host"@);
        lemma_lookup_drop_back(e1 + e2 + e3 + e4, e5, "host"@);
        lemma_lookup_drop_back(e1 + e2 + e3, e4, "host"@);
        lemma_lookup_skip_front(e1 + e2, e3, "host"@);
    }

    #[verifier::rlimit(100)]
    proof fn lemma_lookups_b(self)
    requires
        ext_wf(self.extensions),
        ensures
            lookup(self.enc(), "basePath"@) == entry_lookup(opt_str_entry("basePath"@, self.base_path)),
            lookup(self.enc(), "schemes"@) == entry_lookup(opt_scheme_list_entry("schemes"@, self.schemes)),
            lookup(self.enc(), "consumes"@) == entry_lookup(opt_str_list_entry("consumes"@, self.consumes)),
    {
        reveal_strlit("swagger");
        reveal_strlit("info");
        reveal_strlit("host");
        reveal_strlit("basePath");
        reveal_strlit("schemes");
        reveal_strlit("consumes");
        reveal_strlit("produces");
        reveal_strlit("tags");
        reveal_strlit("paths");
        reveal_strlit("definitions");
        reveal_strlit("parameters");
        reveal_strlit("responses");
        reveal_strlit("securityDefinitions");
        reveal_strlit("externalDocs");
        assert("swagger"@.len() == 7);
        assert("info"@.len() == 4);
        assert("host"@.len() == 4);
        assert("basePath"@.len() == 8);
        assert("schemes"@.len() == 7);
        assert("consumes"@.len() == 8);
        assert("produces"@.len() == 8);
        assert("tags"@.len() == 4);
        assert("paths"@.len() == 5);
        assert("definitions"@.len() == 11);
        assert("parameters"@.len() == 10);
        assert("responses"@.len() == 9);
        assert("securityDefinitions"@.len() == 19);
        assert("externalDocs"@.len() == 12);
        assert("swagger"@[0] == 's');
        assert("schemes"@[0] == 's');
        assert("swagger"@[1] == 'w');
        assert("schemes"@[1] == 'c');
        assert("info"@[0] == 'i');
        assert("host"@[0] == 'h');
        assert("tags"@[0] == 't');
        assert("basePath"@[0] == 'b');
        assert("consumes"@[0] == 'c');
        assert("produces"@[0] == 'p');
        assert("paths"@[0] == 'p');
        assert("definitions"@[0] == 'd');
        assert("responses"@[0] == 'r');
        assert("securityDefinitions"@[0] == 's');
        assert("externalDocs"@[0] == 'e');
        let e1 = str_entry("swagger"@, self.swagger);
        let e2 = req_entry("info"@, self.info.encode());
        let e3 = opt_str_entry("host"@, self.host);
        let e4 = opt_str_entry("basePath"@, self.base_path);
        let e5 = opt_scheme_list_entry("schemes"@, self.schemes);
        let e6 = opt_str_list_entry("consumes"@, self.consumes);
        let e7 = opt_str_list_entry("produces"@, self.produces);
        let e8 = opt_tag_list_entry("tags"@, self.tags);
        let e9 = req_entry("paths"@, JsonView::Obj(enc_path_item_map(self.paths)));
        let e10 = opt_schema_map_entry("definitions"@, self.definitions);
        let e11 = opt_parameter_map_entry("parameters"@, self.parameters);
        let e12 = opt_response_map_entry("responses"@, self.responses);
        let e13 = opt_security_map_entry("securityDefinitions"@, self.security_definitions);
        let e14 = opt_extdoc_list_entry("externalDocs"@, self.external_docs);
        let ext = self.extensions;
        lemma_lookup_drop_back(e1 + e2 + e3 + e4 + e5 + e6 + e7 + e8 + e9 + e10 + e11 + e12 + e13 + e14, ext, "basePath"@);
        lemma_lookup_drop_back(e1 + e2 + e3 + e4 + e5 + e6 + e7 + e8 + e9 + e10 + e11 + e12 + e13, e14, "basePath"@);
        lemma_lookup_drop_back(e1 + e2 + e3 + e4 + e5 + e6 + e7 + e8 + e9 + e10 + e11 + e12, e13, "basePath"@);
        lemma_lookup_drop_back(e1 + e2 + e3 + e4 + e5 + e6 + e7 + e8 + e9 + e10 + e11, e12, "basePath"@);
        lemma_lookup_drop_back(e1 + e2 + e3 + e4 + e5 + e6 + e7 + e8 + e9 + e10, e11, "basePath"@);
        lemma_lookup_drop_back(e1 + e2 + e3 + e4 + e5 + e6 + e7 + e8 + e9, e10, "basePath"@);
        lemma_lookup_drop_back(e1 + e2 + e3 + e4 + e5 + e6 + e7 + e8, e9, "basePath"@);
        lemma_lookup_drop_back(e1 + e2 + e3 + e4 + e5 + e6 + e7, e8, "basePath"@);
        lemma_lookup_drop_back(e1 + e2 + e3 + e4 + e5 + e6, e7, "basePath"@);
        lemma_lookup_drop_back(e1 + e2 + e3 + e4 + e5, e6, "basePath"@);
        lemma_lookup_drop_back(e1 + e2 + e3 + e4, e5, "basePath"@);
        lemma_lookup_skip_front(e1 + e2 + e3, e4, "basePath"@);
        lemma_lookup_drop_back(e1 + e2 + e3 + e4 + e5 + e6 + e7 + e8 + e9 + e10 + e11 + e12 + e13 + e14, ext, "schemes"@);
        lemma_lookup_drop_back(e1 + e2 + e3 + e4 + e5 + e6 + e7 + e8 + e9 + e10 + e11 + e12 + e13, e14, "schemes"@);
        lemma_lookup_drop_back(e1 + e2 + e3 + e4 + e5 + e6 + e7 + e8 + e9 + e10 + e11 + e12, e13, "schemes"@);
        lemma_lookup_drop_back(e1 + e2 + e3 + e4 + e5 + e6 + e7 + e8 + e9 + e10 + e11, e12, "schemes"@);
        lemma_lookup_drop_back(e1 + e2 + e3 + e4 + e5 + e6 + e7 + e8 + e9 + e10, e11, "schemes"@);
        lemma_lookup_drop_back(e1 + e2 + e3 + e4 + e5 + e6 + e7 + e8 + e9, e10, "schemes"@);
        lemma_lookup_drop_back(e1 + e2 + e3 + e4 + e5 + e6 + e7 + e8, e9, "schemes"@);
        lemma_lookup_drop_back(e1 + e2 + e3 + e4 + e5 + e6 + e7, e8, "schemes"@);
        lemma_lookup_drop_back(e1 + e2 + e3 + e4 + e5 + e6, e7, "schemes"@);
        lemma_lookup_drop_back(e1 + e2 + e3 + e4 + e5, e6, "schemes"@);
        lemma_lookup_skip_front(e1 + e2 + e3 + e4, e5, "schemes"@);
        lemma_lookup_drop_back(e1 + e2 + e3 + e4 + e5 + e6 + e7 + e8 + e9 + e10 + e11 + e12 + e13 + e14, ext, "consumes"@);
        lemma_lookup_drop_back(e1 + e2 + e3 + e4 + e5 + e6 + e7 + e8 + e9 + e10 + e11 + e12 + e13, e14, "consumes"@);
        lemma_lookup_drop_back(e1 + e2 + e3 + e4 + e5 + e6 + e7 + e8 + e9 + e10 + e11 + e12, e13, "consumes"@);
        lemma_lookup_drop_back(e1 + e2 + e3 + e4 + e5 + e6 + e7 + e8 + e9 + e10 + e11, e12, "consumes"@);
        lemma_lookup_drop_back(e1 + e2 + e3 + e4 + e5 + e6 + e7 + e8 + e9 + e10, e11, "consumes"@);
        lemma_lookup_drop_back(e1 + e2 + e3 + e4 + e5 + e6 + e7 + e8 + e9, e10, "consumes"@);
        lemma_lookup_drop_back(e1 + e2 + e3 + e4 + e5 + e6 + e7 + e8, e9, "consumes"@);
        lemma_lookup_drop_back(e1 + e2 + e3 + e4 + e5 + e6 + e7, e8, "consumes"@);
        lemma_lookup_drop_back(e1 + e2 + e3 + e4 + e5 + e6, e7, "consumes"@);
        lemma_lookup_skip_front(e1 + e2 + e3 + e4 + e5, e6, "consumes"@);
    }

    #[verifier::rlimit(100)]
    proof fn lemma_lookups_c(self)
    requires
        ext_wf(self.extensions),
        ensures
            lookup(self.enc(), "produces"@) == entry_lookup(opt_str_list_entry("produces"@, self.produces)),
            lookup(self.enc(), "tags"@) == entry_lookup(opt_tag_list_entry("tags"@, self.tags)),
            lookup(self.enc(), "paths"@) == entry_lookup(req_entry("paths"@, JsonView::Obj(enc_path_item_map(self.paths)))),
    {
        reveal_strlit("swagger");
        reveal_strlit("info");
        reveal_strlit("host");
        reveal_strlit("basePath");
        reveal_strlit("schemes");
        reveal_strlit("consumes");
        reveal_strlit("produces");
        reveal_strlit("tags");
        reveal_strlit("paths");
        reveal_strlit("definitions");
        reveal_strlit("parameters");
        reveal_strlit("responses");
        reveal_strlit("securityDefinitions");
        reveal_strlit("externalDocs");
        assert("swagger"@.len() == 7);
        assert("info"@.len() == 4);
        assert("host"@.len() == 4);
        assert("basePath"@.len() == 8);
        assert("schemes"@.len() == 7);
        assert("consumes"@.len() == 8);
        assert("produces"@.len() == 8);
        assert("tags"@.len() == 4);
        assert("paths"@.len() == 5);
        assert("definitions"@.len() == 11);
        assert("parameters"@.len() == 10);
        assert("responses"@.len() == 9);
        assert("securityDefinitions"@.len() == 19);
        assert("externalDocs"@.len() == 12);
        assert("swagger"@[0] == 's');
        assert("schemes"@[0] == 's');
        assert("swagger"@[1] == 'w');
        assert("schemes"@[1] == 'c');
        assert("info"@[0] == 'i');
        assert("host"@[0] == 'h');
        assert("tags"@[0] == 't');
        assert("basePath"@[0] == 'b');
        assert("consumes"@[0] == 'c');
        assert("produces"@[0] == 'p');
        assert("paths"@[0] == 'p');
        assert("definitions"@[0] == 'd');
        assert("responses"@[0] == 'r');
        assert("securityDefinitions"@[0] == 's');
        assert("externalDocs"@[0] == 'e');
        let e1 = str_entry("swagger"@, self.swagger);
        let e2 = req_entry("info"@, self.info.encode());
        let e3 = opt_str_entry("host"@, self.host);
        let e4 = opt_str_entry("basePath"@, self.base_path);
        let e5 = opt_scheme_list_entry("schemes"@, self.schemes);
        let e6 = opt_str_list_entry("consumes"@, self.consumes);
        let e7 = opt_str_list_entry("produces"@, self.produces);
        let e8 = opt_tag_list_entry("tags"@, self.tags);
        let e9 = req_entry("paths"@, JsonView::Obj(enc_path_item_map(self.paths)));
        let e10 = opt_schema_map_entry("definitions"@, self.definitions);
        let e11 = opt_parameter_map_entry("parameters"@, self.parameters);
        let e12 = opt_response_map_entry("responses"@, self.responses);
        let e13 = opt_security_map_entry("securityDefinitions"@, self.security_definitions);
        let e14 = opt_extdoc_list_entry("externalDocs"@, self.external_docs);
        let ext = self.extensions;
        lemma_lookup_drop_back(e1 + e2 + e3 + e4 + e5 + e6 + e7 + e8 + e9 + e10 + e11 + e12 + e13 + e14, ext, "produces"@);
        lemma_lookup_drop_back(e1 + e2 + e3 + e4 + e5 + e6 + e7 + e8 + e9 + e10 + e11 + e12 + e13, e14, "produces"@);
        lemma_lookup_drop_back(e1 + e2 + e3 + e4 + e5 + e6 + e7 + e8 + e9 + e10 + e11 + e12, e13, "produces"@);
        lemma_lookup_drop_back(e1 + e2 + e3 + e4 + e5 + e6 + e7 + e8 + e9 + e10 + e11, e12, "produces"@);
        lemma_lookup_drop_back(e1 + e2 + e3 + e4 + e5 + e6 + e7 + e8 + e9 + e10, e11, "produces"@);
        lemma_lookup_drop_back(e1 + e2 + e3 + e4 + e5 + e6 + e7 + e8 + e9, e10, "produces"@);
        lemma_lookup_drop_back(e1 + e2 + e3 + e4 + e5 + e6 + e7 + e8, e9, "produces"@);
        lemma_lookup_drop_back(e1 + e2 + e3 + e4 + e5 + e6 + e7, e8, "produces"@);
        lemma_lookup_skip_front(e1 + e2 + e3 + e4 + e5 + e6, e7, "produces"@);
        lemma_lookup_drop_back(e1 + e2 + e3 + e4 + e5 + e6 + e7 + e8 + e9 + e10 + e11 + e12 + e13 + e14, ext, "tags"@);
        lemma_lookup_drop_back(e1 + e2 + e3 + e4 + e5 + e6 + e7 + e8 + e9 + e10 + e11 + e12 + e13, e14, "tags"@);
        lemma_lookup_drop_back(e1 + e2 + e3 + e4 + e5 + e6 + e7 + e8 + e9 + e10 + e11 + e12, e13, "tags"@);
        lemma_lookup_drop_back(e1 + e2 + e3 + e4 + e5 + e6 + e7 + e8 + e9 + e10 + e11, e12, "tags"@);
        lemma_lookup_drop_back(e1 + e2 + e3 + e4 + e5 + e6 + e7 + e8 + e9 + e10, e11, "tags"@);
        lemma_lookup_drop_back(e1 + e2 + e3 + e4 + e5 + e6 + e7 + e8 + e9, e10, "tags"@);
        lemma_lookup_drop_back(e1 + e2 + e3 + e4 + e5 + e6 + e7 + e8, e9, "tags"@);
        lemma_lookup_skip_front(e1 + e2 + e3 + e4 + e5 + e6 + e7, e8, "tags"@);
        lemma_lookup_drop_back(e1 + e2 + e3 + e4 + e5 + e6 + e7 + e8 + e9 + e10 + e11 + e12 + e13 + e14, ext, "paths"@);
        lemma_lookup_drop_back(e1 + e2 + e3 + e4 + e5 + e6 + e7 + e8 + e9 + e10 + e11 + e12 + e13, e14, "paths"@);
        lemma_lookup_drop_back(e1 + e2 + e3 + e4 + e5 + e6 + e7 + e8 + e9 + e10 + e11 + e12, e13, "paths"@);
        lemma_lookup_drop_back(e1 + e2 + e3 + e4 + e5 + e6 + e7 + e8 + e9 + e10 + e11, e12, "paths"@);
        lemma_lookup_drop_back(e1 + e2 + e3 + e4 + e5 + e6 + e7 + e8 + e9 + e10, e11, "paths"@);
        lemma_lookup_drop_back(e1 + e2 + e3 + e4 + e5 + e6 + e7 + e8 + e9, e10, "paths"@);
        lemma_lookup_skip_front(e1 + e2 + e3 + e4 + e5 + e6 + e7 + e8, e9, "paths"@);
    }

    #[verifier::rlimit(100)]
    proof fn lemma_lookups_d(self)
    requires
        ext_wf(self.extensions),
        ensures
            lookup(self.enc(), "definitions"@) == entry_lookup(opt_schema_map_entry("definitions"@, self.definitions)),
            lookup(self.enc(), "parameters"@) == entry_lookup(opt_parameter_map_entry("parameters"@, self.parameters)),
            lookup(self.enc(), "responses"@) == entry_lookup(opt_response_map_entry("responses"@, self.responses)),
    {
        reveal_strlit("swagger");
        reveal_strlit("info");
        reveal_strlit("host");
        reveal_strlit("basePath");
        reveal_strlit("schemes");
        reveal_strlit("consumes");
        reveal_strlit("produces");
        reveal_strlit("tags");
        reveal_strlit("paths");
        reveal_strlit("definitions");
        reveal_strlit("parameters");
        reveal_strlit("responses");
        reveal_strlit("securityDefinitions");
        reveal_strlit("externalDocs");
        assert("swagger"@.len() == 7);
        assert("info"@.len() == 4);
        assert("host"@.len() == 4);
        assert("basePath"@.len() == 8);
        assert("schemes"@.len() == 7);
        assert("consumes"@.len() == 8);
        assert("produces"@.len() == 8);
        assert("tags"@.len() == 4);
        assert("paths"@.len() == 5);
        assert("definitions"@.len() == 11);
        assert("parameters"@.len() == 10);
        assert("responses"@.len() == 9);
        assert("securityDefinitions"@.len() == 19);
        assert("externalDocs"@.len() == 12);
        assert("swagger"@[0] == 's');
        assert("schemes"@[0] == 's');
        assert("swagger"@[1] == 'w');
        assert("schemes"@[1] == 'c');
        assert("info"@[0] == 'i');
        assert("host"@[0] == 'h');
        assert("tags"@[0] == 't');
        assert("basePath"@[0] == 'b');
        assert("consumes"@[0] == 'c');
        assert("produces"@[0] == 'p');
        assert("paths"@[0] == 'p');
        assert("definitions"@[0] == 'd');
        assert("responses"@[0] == 'r');
        assert("securityDefinitions"@[0] == 's');
        assert("externalDocs"@[0] == 'e');
        let e1 = str_entry("swagger"@, self.swagger);
        let e2 = req_entry("info"@, self.info.encode());
        let e3 = opt_str_entry("host"@, self.host);
        let e4 = opt_str_entry("basePath"@, self.base_path);
        let e5 = opt_scheme_list_entry("schemes"@, self.schemes);
        let e6 = opt_str_list_entry("consumes"@, self.consumes);
        let e7 = opt_str_list_entry("produces"@, self.produces);
        let e8 = opt_tag_list_entry("tags"@, self.tags);
        let e9 = req_entry("paths"@, JsonView::Obj(enc_path_item_map(self.paths)));
        let e10 = opt_schema_map_entry("definitions"@, self.definitions);
        let e11 = opt_parameter_map_entry("parameters"@, self.parameters);
        let e12 = opt_response_map_entry("responses"@, self.responses);
        let e13 = opt_security_map_entry("securityDefinitions"@, self.security_definitions);
        let e14 = opt_extdoc_list_entry("externalDocs"@, self.external_docs);
        let ext = self.extensions;
        lemma_lookup_drop_back(e1 + e2 + e3 + e4 + e5 + e6 + e7 + e8 + e9 + e10 + e11 + e12 + e13 + e14, ext, "definitions"@);
        lemma_lookup_drop_back(e1 + e2 + e3 + e4 + e5 + e6 + e7 + e8 + e9 + e10 + e11 + e12 + e13, e14, "definitions"@);
        lemma_lookup_drop_back(e1 + e2 + e3 + e4 + e5 + e6 + e7 + e8 + e9 + e10 + e11 + e12, e13, "definitions"@);
        lemma_lookup_drop_back(e1 + e2 + e3 + e4 + e5 + e6 + e7 + e8 + e9 + e10 + e11, e12, "definitions"@);
        lemma_lookup_drop_back(e1 + e2 + e3 + e4 + e5 + e6 + e7 + e8 + e9 + e10, e11, "definitions"@);
        lemma_lookup_skip_front(e1 + e2 + e3 + e4 + e5 + e6 + e7 + e8 + e9, e10, "definitions"@);
        lemma_lookup_drop_back(e1 + e2 + e3 + e4 + e5 + e6 + e7 + e8 + e9 + e10 + e11 + e12 + e13 + e14, ext, "parameters"@);
        lemma_lookup_drop_back(e1 + e2 + e3 + e4 + e5 + e6 + e7 + e8 + e9 + e10 + e11 + e12 + e13, e14, "parameters"@);
        lemma_lookup_drop_back(e1 + e2 + e3 + e4 + e5 + e6 + e7 + e8 + e9 + e10 + e11 + e12, e13, "parameters"@);
        lemma_lookup_drop_back(e1 + e2 + e3 + e4 + e5 + e6 + e7 + e8 + e9 + e10 + e11, e12, "parameters"@);
        lemma_lookup_skip_front(e1 + e2 + e3 + e4 + e5 + e6 + e7 + e8 + e9 + e10, e11, "parameters"@);
        lemma_lookup_drop_back(e1 + e2 + e3 + e4 + e5 + e6 + e7 + e8 + e9 + e10 + e11 + e12 + e13 + e14, ext, "responses"@);
        lemma_lookup_drop_back(e1 + e2 + e3 + e4 + e5 + e6 + e7 + e8 + e9 + e10 + e11 + e12 + e13, e14, "responses"@);
        lemma_lookup_drop_back(e1 + e2 + e3 + e4 + e5 + e6 + e7 + e8 + e9 + e10 + e11 + e12, e13, "responses"@);
        lemma_lookup_skip_front(e1 + e2 + e3 + e4 + e5 + e6 + e7 + e8 + e9 + e10 + e11, e12, "responses"@);
    }

    #[verifier::rlimit(100)]
    proof fn lemma_lookups_e(self)
    requires
        ext_wf(self.extensions),
        ensures
            lookup(self.enc(), "securityDefinitions"@) == entry_lookup(opt_security_map_entry("securityDefinitions"@, self.security_definitions)),
            lookup(self.enc(), "externalDocs"@) == entry_lookup(opt_extdoc_list_entry("externalDocs"@, self.external_docs)),
    {
        reveal_strlit("swagger");
        reveal_strlit("info");
        reveal_strlit("host");
        reveal_strlit("basePath");
        reveal_strlit("schemes");
        reveal_strlit("consumes");
        reveal_strlit("produces");
        reveal_strlit("tags");
        reveal_strlit("paths");
        reveal_strlit("definitions");
        reveal_strlit("parameters");
        reveal_strlit("responses");
        reveal_strlit("securityDefinitions");
        reveal_strlit("externalDocs");
        assert("swagger"@.len() == 7);
        assert("info"@.len() == 4);
        assert("host"@.len() == 4);
        assert("basePath"@.len() == 8);
        assert("schemes"@.len() == 7);
        assert("consumes"@.len() == 8);
        assert("produces"@.len() == 8);
        assert("tags"@.len() == 4);
        assert("paths"@.len() == 5);
        assert("definitions"@.len() == 11);
        assert("parameters"@.len() == 10);
        assert("responses"@.len() == 9);
        assert("securityDefinitions"@.len() == 19);
        assert("externalDocs"@.len() == 12);
        assert("swagger"@[0] == 's');
        assert("schemes"@[0] == 's');
        assert("swagger"@[1] == 'w');
        assert("schemes"@[1] == 'c');
        assert("info"@[0] == 'i');
        assert("host"@[0] == 'h');
        assert("tags"@[0] == 't');
        assert("basePath"@[0] == 'b');
        assert("consumes"@[0] == 'c');
        assert("produces"@[0] == 'p');
        assert("paths"@[0] == 'p');
        assert("definitions"@[0] == 'd');
        assert("responses"@[0] == 'r');
        assert("securityDefinitions"@[0] == 's');
        assert("externalDocs"@[0] == 'e');
        let e1 = str_entry("swagger"@, self.swagger);
        let e2 = req_entry("info"@, self.info.encode());
        let e3 = opt_str_entry("host"@, self.host);
        let e4 = opt_str_entry("basePath"@, self.base_path);
        let e5 = opt_scheme_list_entry("schemes"@, self.schemes);
        let e6 = opt_str_list_entry("consumes"@, self.consumes);
        let e7 = opt_str_list_entry("produces"@, self.produces);
        let e8 = opt_tag_list_entry("tags"@, self.tags);
        let e9 = req_entry("paths"@, JsonView::Obj(enc_path_item_map(self.paths)));
        let e10 = opt_schema_map_entry("definitions"@, self.definitions);
        let e11 = opt_parameter_map_entry("parameters"@, self.parameters);
        let e12 = opt_response_map_entry("responses"@, self.responses);
        let e13 = opt_security_map_entry("securityDefinitions"@, self.security_definitions);
        let e14 = opt_extdoc_list_entry("externalDocs"@, self.external_docs);
        let ext = self.extensions;
        lemma_lookup_drop_back(e1 + e2 + e3 + e4 + e5 + e6 + e7 + e8 + e9 + e10 + e11 + e12 + e13 + e14, ext, "securityDefinitions"@);
        lemma_lookup_drop_back(e1 + e2 + e3 + e4 + e5 + e6 + e7 + e8 + e9 + e10 + e11 + e12 + e13, e14, "securityDefinitions"@);
        lemma_lookup_skip_front(e1 + e2 + e3 + e4 + e5 + e6 + e7 + e8 + e9 + e10 + e11 + e12, e13, "securityDefinitions"@);
        lemma_lookup_drop_back(e1 + e2 + e3 + e4 + e5 + e6 + e7 + e8 + e9 + e10 + e11 + e12 + e13 + e14, ext, "externalDocs"@);
        lemma_lookup_skip_front(e1 + e2 + e3 + e4 + e5 + e6 + e7 + e8 + e9 + e10 + e11 + e12 + e13, e14, "externalDocs"@);
    }

    /// The extension entries of an encoded version 2.0 document are
    /// exactly the ones it stores.
    #[verifier::rlimit(100)]
    proof fn lemma_capture_ext(self)
        requires
            ext_wf(self.extensions),
        ensures
            spec_capture(self.enc()) == self.extensions,
    {
        reveal_strlit("swagger");
        reveal_strlit("info");
        reveal_strlit("host");
        reveal_strlit("basePath");
        reveal_strlit("schemes");
        reveal_strlit("consumes");
        reveal_strlit("produces");
        reveal_strlit("tags");
        reveal_strlit("paths");
        reveal_strlit("definitions");
        reveal_strlit("parameters");
        reveal_strlit("responses");
        reveal_strlit("securityDefinitions");
        reveal_strlit("externalDocs");
        assert("swagger"@.len() == 7);
        assert("info"@.len() == 4);
        assert("host"@.len() == 4);
        assert("basePath"@.len() == 8);
        assert("schemes"@.len() == 7);
        assert("consumes"@.len() == 8);
        assert("produces"@.len() == 8);
        assert("tags"@.len() == 4);
        assert("paths"@.len() == 5);
        assert("definitions"@.len() == 11);
        assert("parameters"@.len() == 10);
        assert("responses"@.len() == 9);
        assert("securityDefinitions"@.len() == 19);
        assert("externalDocs"@.len() == 12);
        assert("swagger"@[0] == 's');
        assert("schemes"@[0] == 's');
        assert("swagger"@[1] == 'w');
        assert("schemes"@[1] == 'c');
        assert("info"@[0] == 'i');
        assert("host"@[0] == 'h');
        assert("tags"@[0] == 't');
        assert("basePath"@[0] == 'b');
        assert("consumes"@[0] == 'c');
        assert("produces"@[0] == 'p');
        assert("paths"@[0] == 'p');
        assert("definitions"@[0] == 'd');
        assert("responses"@[0] == 'r');
        assert("securityDefinitions"@[0] == 's');
        assert("externalDocs"@[0] == 'e');
        let e1 = str_entry("swagger"@, self.swagger);
        let e2 = req_entry("info"@, self.info.encode());
        let e3 = opt_str_entry("host"@, self.host);
        let e4 = opt_str_entry("basePath"@, self.base_path);
        let e5 = opt_scheme_list_entry("schemes"@, self.schemes);
        let e6 = opt_str_list_entry("consumes"@, self.consumes);
        let e7 = opt_str_list_entry("produces"@, self.produces);
        let e8 = opt_tag_list_entry("tags"@, self.tags);
        let e9 = req_entry("paths"@, JsonView::Obj(enc_path_item_map(self.paths)));
        let e10 = opt_schema_map_entry("definitions"@, self.definitions);
        let e11 = opt_parameter_map_entry("parameters"@, self.parameters);
        let e12 = opt_response_map_entry("responses"@, self.responses);
        let e13 = opt_security_map_entry("securityDefinitions"@, self.security_definitions);
        let e14 = opt_extdoc_list_entry("externalDocs"@, self.external_docs);
        let ext = self.extensions;
        let typed = e1 + e2 + e3 + e4 + e5 + e6 + e7 + e8 + e9 + e10 + e11 + e12 + e13 + e14;
        lemma_capture_append(typed, ext);
        lemma_capture_none(typed);
        lemma_capture_all(ext);
        assert(spec_capture(typed) + spec_capture(ext) =~= self.extensions);
    }

    /// A well-formed version 2.0 document reads back from its own
    /// encoding, field for field; its "swagger" key is what the version
    /// dispatch sees.
    #[verifier::rlimit(100)]
    pub proof fn lemma_round_trip(self)
        requires
            self.wf(),
        ensures
            Self::decode(self.encode()) == Ok::<_, ErrorView>(self),
            lookup(self.enc(), "swagger"@) == Some(JsonView::Str(self.swagger)),
    {
        self.lemma_lookups_a();
        self.lemma_lookups_b();
        self.lemma_lookups_c();
        self.lemma_lookups_d();
        self.lemma_lookups_e();
        self.lemma_capture_ext();
        self.info.lemma_round_trip();
        match self.schemes {
            Some(ss) => {
                lemma_scheme_list_round_trip(ss);
            },
            None => {},
        }
        match self.consumes {
            Some(ss) => {
                lemma_str_list_round_trip(ss);
            },
            None => {},
        }
        match self.produces {
            Some(ss) => {
                lemma_str_list_round_trip(ss);
            },
            None => {},
        }
        match self.tags {
            Some(ts) => {
                lemma_tag_list_round_trip(ts);
            },
            None => {},
        }
        lemma_path_item_map_round_trip(self.paths);
        match self.definitions {
            Some(m) => {
                lemma_schema_map_round_trip(m);
            },
            None => {},
        }
        match self.parameters {
            Some(m) => {
                lemma_parameter_map_round_trip(m);
            },
            None => {},
        }
        match self.responses {
            Some(m) => {
                lemma_response_map_round_trip(m);
            },
            None => {},
        }
        match self.security_definitions {
            Some(m) => {
                lemma_security_map_round_trip(m);
            },
            None => {},
        }
        match self.external_docs {
            Some(ds) => {
                lemma_extdoc_list_round_trip(ds);
            },
            None => {},
        }
    }
}

impl Spec {
    pub fn decode(v: &Json) -> (r: Result<Spec, Error>)
        ensures
            rv(r) == SpecView::decode(v@),
    {
        match v {
            Json::Obj(es) => Self::decode_obj(es),
            _ => Err(Error::SchemaMismatch("document".to_owned())),
        }
    }

    pub fn decode_obj(es: &Vec<(String, Json)>) -> (r: Result<Spec, Error>)
        ensures
            rv(r) == SpecView::decode_obj(view_entries(es@)),
    {
        let swagger = match get_req_str(es, "swagger") {
            Ok(x) => x,
            Err(e) => return Err(e),
        };
        let info = match obj_get(es, "info") {
            Some(iv) => match Info::decode(iv) {
                Ok(i) => i,
                Err(e) => return Err(e),
            },
            None => {
                return Err(Error::SchemaMismatch("info".to_owned()));
            },
        };
        let host = match get_opt_str(es, "host") {
            Ok(x) => x,
            Err(e) => return Err(e),
        };
        let base_path = match get_opt_str(es, "basePath") {
            Ok(x) => x,
            Err(e) => return Err(e),
        };
        let schemes = match get_opt_scheme_list(es, "schemes") {
            Ok(x) => x,
            Err(e) => return Err(e),
        };
        let consumes = match get_opt_str_list(es, "consumes") {
            Ok(x) => x,
            Err(e) => return Err(e),
        };
        let produces = match get_opt_str_list(es, "produces") {
            Ok(x) => x,
            Err(e) => return Err(e),
        };
        let tags = match get_opt_tag_list(es, "tags") {
            Ok(x) => x,
            Err(e) => return Err(e),
        };
        let paths = match obj_get(es, "paths") {
            Some(pv) => match pv {
                Json::Obj(ps) => match decode_path_item_map(ps) {
                    Ok(m) => m,
                    Err(e) => return Err(e),
                },
                _ => {
                    return Err(Error::SchemaMismatch("paths".to_owned()));
                },
            },
            None => {
                return Err(Error::SchemaMismatch("paths".to_owned()));
            },
        };
        let definitions = match get_opt_schema_map(es, "definitions") {
            Ok(x) => x,
            Err(e) => return Err(e),
        };
        let parameters = match get_opt_parameter_map(es, "parameters") {
            Ok(x) => x,
            Err(e) => return Err(e),
        };
        let responses = match get_opt_response_map(es, "responses") {
            Ok(x) => x,
            Err(e) => return Err(e),
        };
        let security_definitions = match get_opt_security_map(es, "securityDefinitions") {
            Ok(x) => x,
            Err(e) => return Err(e),
        };
        let external_docs = match get_opt_extdoc_list(es, "externalDocs") {
            Ok(x) => x,
            Err(e) => return Err(e),
        };
        let extensions = capture_extensions(es);
        Ok(
            Spec {
                swagger,
                info,
                host,
                base_path,
                schemes,
                consumes,
                produces,
                tags,
                paths,
                definitions,
                parameters,
                responses,
                security_definitions,
                external_docs,
                extensions,
            },
        )
    }

    #[verifier::rlimit(100)]
    pub fn encode(&self) -> (r: Json)
        ensures
            r@ == self.deep_view().encode(),
    {
        let mut out: Vec<(String, Json)> = Vec::new();
        push_str(&mut out, "swagger", &self.swagger);
        let ij = self.info.encode();
        push_req(&mut out, "info", ij);
        push_opt_str(&mut out, "host", &self.host);
        push_opt_str(&mut out, "basePath", &self.base_path);
        push_opt_scheme_list(&mut out, "schemes", &self.schemes);
        push_opt_str_list(&mut out, "consumes", &self.consumes);
        push_opt_str_list(&mut out, "produces", &self.produces);
        push_opt_tag_list(&mut out, "tags", &self.tags);
        let pj = encode_path_item_map(&self.paths);
        push_req(&mut out, "paths", pj);
        push_opt_schema_map(&mut out, "definitions", &self.definitions);
        push_opt_parameter_map(&mut out, "parameters", &self.parameters);
        push_opt_response_map(&mut out, "responses", &self.responses);
        push_opt_security_map(&mut out, "securityDefinitions", &self.security_definitions);
        push_opt_extdoc_list(&mut out, "externalDocs", &self.external_docs);
        push_extensions(&mut out, &self.extensions);
        proof {
            assert(view_entries(out@) =~= self.deep_view().enc());
        }
        Json::Obj(out)
    }
}

} // verus!
