//! Decoding and encoding of responses, operations, and path items. An
//! operation object carries vendor extension entries beside its typed
//! fields; decoding partitions the two and encoding merges them back.

use vstd::prelude::*;
use crate::codec::{
    entry_lookup, get_opt_str, get_opt_str_list, get_req_str, lemma_lookup_drop_back, lemma_lookup_skip_front,
    lemma_str_list_round_trip, opt_entry, opt_str_entry, opt_str_field, opt_str_list_entry,
    opt_str_list_field, push_opt_str, push_opt_str_list, push_str, req_entry,
    req_str_field, str_entry, Entries,
};
use crate::error::{rv, Error, ErrorView};
use crate::json::{lookup, obj_get, view_entries, Json, JsonView};
use crate::param_codec::{
    dec_param_or_ref_list, decode_param_or_ref_list, enc_param_or_ref_list,
    encode_param_or_ref_list, lemma_param_or_ref_list_round_trip,
};
use crate::schema::{
    ext_wf, Operation, OperationView, PathItem, PathItemView, Response, ResponseView,
};
use crate::schema_codec::{get_opt_schema, opt_schema_entry, opt_schema_field, push_opt_schema};
use crate::v3_0::{
    capture_extensions, lemma_capture_all, lemma_capture_append, lemma_capture_none,
    push_extensions, spec_capture,
};

verus! {

broadcast use crate::codec::lemma_req_entry_key, crate::codec::lemma_opt_entry_key;

// ---------------------------------------------------------------------
// Response.
// ---------------------------------------------------------------------
impl ResponseView {
    pub open spec fn enc(self) -> Entries {
        str_entry("description"@, self.description) + opt_schema_entry("schema"@, self.schema)
    }

    pub open spec fn encode(self) -> JsonView {
        JsonView::Obj(self.enc())
    }

    pub open spec fn decode(v: JsonView) -> Result<ResponseView, ErrorView> {
        match v {
            JsonView::Obj(es) => Self::decode_obj(es),
            _ => Err(ErrorView::SchemaMismatch("responses"@)),
        }
    }

    pub open spec fn decode_obj(es: Entries) -> Result<ResponseView, ErrorView> {
        match req_str_field(es, "description"@) {
            Err(e) => Err(e),
            Ok(description) => match opt_schema_field(es, "schema"@) {
                Err(e) => Err(e),
                Ok(schema) => Ok(ResponseView { description, schema }),
            },
        }
    }

    /// A response reads back from its own encoding.
    pub proof fn lemma_round_trip(self)
        ensures
            Self::decode(self.encode()) == Ok::<_, ErrorView>(self),
    {
        reveal_strlit("description");
        reveal_strlit("schema");
        assert("description"@.len() == 11);
        assert("schema"@.len() == 6);
        let e1 = str_entry("description"@, self.description);
        let e2 = opt_schema_entry("schema"@, self.schema);
        lemma_lookup_drop_back(e1, e2, "description"@);
        lemma_lookup_skip_front(e1, e2, "schema"@);
        match self.schema {
            Some(s) => {
                s.lemma_round_trip();
            },
            None => {},
        }
    }
}

impl Response {
    pub fn decode(v: &Json) -> (r: Result<Response, Error>)
        ensures
            rv(r) == ResponseView::decode(v@),
    {
        match v {
            Json::Obj(es) => {
                let description = match get_req_str(es, "description") {
                    Ok(x) => x,
                    Err(e) => return Err(e),
                };
                let schema = match get_opt_schema(es, "schema") {
                    Ok(x) => x,
                    Err(e) => return Err(e),
                };
                Ok(Response { description, schema })
            },
            _ => Err(Error::SchemaMismatch("responses".to_owned())),
        }
    }

    pub fn encode(&self) -> (r: Json)
        ensures
            r@ == self.deep_view().encode(),
    {
        let mut out: Vec<(String, Json)> = Vec::new();
        push_str(&mut out, "description", &self.description);
        push_opt_schema(&mut out, "schema", &self.schema);
        proof {
            assert(view_entries(out@) =~= self.deep_view().enc());
        }
        Json::Obj(out)
    }
}

pub open spec fn dec_response_map(es: Entries) -> Result<Seq<(Seq<char>, ResponseView)>, ErrorView>
    decreases es.len(),
{
    if es.len() == 0 {
        Ok(Seq::empty())
    } else {
        match dec_response_map(es.drop_last()) {
            Ok(init) => match ResponseView::decode(es.last().1) {
                Ok(x) => Ok(init.push((es.last().0, x))),
                Err(e) => Err(e),
            },
            Err(e) => Err(e),
        }
    }
}

pub open spec fn enc_response_map(ps: Seq<(Seq<char>, ResponseView)>) -> Entries {
    Seq::new(
        ps.len(),
        |i: int|
            if 0 <= i < ps.len() {
                (ps[i].0, ps[i].1.encode())
            } else {
                (Seq::empty(), JsonView::Null)
            },
    )
}

/// Once a prefix fails to decode, the whole mapping reports that failure.
pub proof fn lemma_dec_response_map_err(es: Entries, j: int)
    requires
        0 <= j <= es.len(),
        dec_response_map(es.take(j)) is Err,
    ensures
        dec_response_map(es) == dec_response_map(es.take(j)),
    decreases es.len() - j,
{
    if j == es.len() {
        assert(es.take(j) =~= es);
    } else {
        assert(es.take(j + 1).drop_last() =~= es.take(j));
        lemma_dec_response_map_err(es, j + 1);
    }
}

/// A named response mapping reads back from its own encoding.
pub proof fn lemma_response_map_round_trip(ps: Seq<(Seq<char>, ResponseView)>)
    ensures
        dec_response_map(enc_response_map(ps)) == Ok::<_, ErrorView>(ps),
    decreases ps.len(),
{
    if ps.len() == 0 {
        assert(enc_response_map(ps) =~= Seq::<(Seq<char>, JsonView)>::empty());
        assert(ps =~= Seq::<(Seq<char>, ResponseView)>::empty());
    } else {
        assert(enc_response_map(ps).drop_last() =~= enc_response_map(ps.drop_last()));
        lemma_response_map_round_trip(ps.drop_last());
        ps.last().1.lemma_round_trip();
        assert(ps.drop_last().push(ps.last()) =~= ps);
    }
}

pub fn decode_response_map(es: &Vec<(String, Json)>) -> (r: Result<Vec<(String, Response)>, Error>)
    ensures
        rv(r) == dec_response_map(view_entries(es@)),
{
    let vw = Ghost(view_entries(es@));
    let n = es.len();
    let mut out: Vec<(String, Response)> = Vec::new();
    let mut i: usize = 0;
    proof {
        assert(vw@.take(0) =~= Seq::<(Seq<char>, JsonView)>::empty());
        assert(out.deep_view() =~= Seq::<(Seq<char>, ResponseView)>::empty());
    }
    while i < n
        invariant
            i <= n,
            n == es.len(),
            vw@ == view_entries(es@),
            dec_response_map(vw@.take(i as int)) == Ok::<_, ErrorView>(out.deep_view()),
        decreases n - i,
    {
        proof {
            assert(vw@.take(i + 1 as int).drop_last() =~= vw@.take(i as int));
            assert(vw@.take(i + 1 as int).last() == vw@[i as int]);
        }
        let prev = Ghost(out.deep_view());
        match Response::decode(&es[i].1) {
            Ok(x) => {
                let k = es[i].0.clone();
                let kv = Ghost((k@, x.deep_view()));
                out.push((k, x));
                proof {
                    assert(out.deep_view() =~= prev@.push(kv@));
                }
            },
            Err(e) => {
                proof {
                    lemma_dec_response_map_err(vw@, i + 1 as int);
                }
                return Err(e);
            },
        }
        i = i + 1;
    }
    proof {
        assert(vw@.take(n as int) =~= vw@);
    }
    Ok(out)
}

pub fn encode_response_map(m: &Vec<(String, Response)>) -> (r: Json)
    ensures
        r@ == JsonView::Obj(enc_response_map(m.deep_view())),
{
    let n = m.len();
    let mut out: Vec<(String, Json)> = Vec::new();
    let mut i: usize = 0;
    while i < n
        invariant
            i <= n,
            n == m.len(),
            out@.len() == i,
            forall|j: int|
                0 <= j < i ==> out@[j].0@ == m@[j].0@ && out@[j].1@ == m@[j].1.deep_view().encode(),
        decreases n - i,
    {
        let k = m[i].0.clone();
        let v = m[i].1.encode();
        out.push((k, v));
        i = i + 1;
    }
    proof {
        assert(view_entries(out@) =~= enc_response_map(m.deep_view()));
    }
    Json::Obj(out)
}

// ---------------------------------------------------------------------
// Optional parameter lists.
// ---------------------------------------------------------------------
pub open spec fn opt_por_list_field(es: Entries, k: Seq<char>) -> Result<
    Option<Seq<crate::schema::ParameterOrRefView>>,
    ErrorView,
> {
    match lookup(es, k) {
        Some(JsonView::Arr(items)) => match dec_param_or_ref_list(items) {
            Ok(ps) => Ok(Some(ps)),
            Err(e) => Err(e),
        },
        Some(_) => Err(ErrorView::SchemaMismatch(k)),
        None => Ok(None),
    }
}

pub open spec fn opt_por_list_entry(
    k: Seq<char>,
    v: Option<Seq<crate::schema::ParameterOrRefView>>,
) -> Entries {
    opt_entry(
        k,
        match v {
            Some(ps) => Some(JsonView::Arr(enc_param_or_ref_list(ps))),
            None => None,
        },
    )
}

pub fn get_opt_por_list(es: &Vec<(String, Json)>, k: &str) -> (r: Result<
    Option<Vec<crate::schema::ParameterOrRef>>,
    Error,
>)
    ensures
        rv(r) == opt_por_list_field(view_entries(es@), k@),
{
    match obj_get(es, k) {
        Some(v) => match v {
            Json::Arr(items) => match decode_param_or_ref_list(items) {
                Ok(ps) => Ok(Some(ps)),
                Err(e) => Err(e),
            },
            _ => Err(Error::SchemaMismatch(k.to_owned())),
        },
        None => Ok(None),
    }
}

pub fn push_opt_por_list(
    out: &mut Vec<(String, Json)>,
    k: &str,
    v: &Option<Vec<crate::schema::ParameterOrRef>>,
)
    ensures
        view_entries(final(out)@) == view_entries(old(out)@) + opt_por_list_entry(
            k@,
            v.deep_view(),
        ),
{
    match v {
        Some(ps) => {
            let j = encode_param_or_ref_list(ps);
            out.push((k.to_owned(), j));
        },
        None => {},
    }
    proof {
        assert(view_entries(out@) =~= view_entries(old(out)@) + opt_por_list_entry(
            k@,
            v.deep_view(),
        ));
    }
}

// ---------------------------------------------------------------------
// Operation.
// ---------------------------------------------------------------------
impl OperationView {
    pub open spec fn enc(self) -> Entries {
        opt_str_entry("summary"@, self.summary) + opt_str_entry("description"@, self.description)
            + opt_str_list_entry("consumes"@, self.consumes) + opt_str_list_entry(
            "produces"@,
            self.produces,
        ) + opt_str_list_entry("schemes"@, self.schemes) + opt_str_list_entry("tags"@, self.tags)
            + opt_str_entry("operationId"@, self.operation_id) + req_entry(
            "responses"@,
            JsonView::Obj(enc_response_map(self.responses)),
        ) + opt_por_list_entry("parameters"@, self.parameters) + self.extensions
    }

    pub open spec fn encode(self) -> JsonView {
        JsonView::Obj(self.enc())
    }

    pub open spec fn decode(v: JsonView) -> Result<OperationView, ErrorView> {
        match v {
            JsonView::Obj(es) => Self::decode_obj(es),
            _ => Err(ErrorView::SchemaMismatch("operation"@)),
        }
    }

    pub open spec fn responses_field(es: Entries) -> Result<
        Seq<(Seq<char>, ResponseView)>,
        ErrorView,
    > {
        match lookup(es, "responses"@) {
            Some(JsonView::Obj(rs)) => dec_response_map(rs),
            Some(_) => Err(ErrorView::SchemaMismatch("responses"@)),
            None => Err(ErrorView::SchemaMismatch("responses"@)),
        }
    }

    /// How an operation decodes: typed fields read by key, and every
    /// entry whose key carries the extension prefix captured beside them.
    pub open spec fn decode_obj(es: Entries) -> Result<OperationView, ErrorView> {
        match opt_str_field(es, "summary"@) {
            Err(e) => Err(e),
            Ok(summary) => match opt_str_field(es, "description"@) {
                Err(e) => Err(e),
                Ok(description) => match opt_str_list_field(es, "consumes"@) {
                    Err(e) => Err(e),
                    Ok(consumes) => match opt_str_list_field(es, "produces"@) {
                        Err(e) => Err(e),
                        Ok(produces) => match opt_str_list_field(es, "schemes"@) {
                            Err(e) => Err(e),
                            Ok(schemes) => match opt_str_list_field(es, "tags"@) {
                                Err(e) => Err(e),
                                Ok(tags) => match opt_str_field(es, "operationId"@) {
                                    Err(e) => Err(e),
                                    Ok(operation_id) => match Self::responses_field(es) {
                                        Err(e) => Err(e),
                                        Ok(responses) => match opt_por_list_field(
                                            es,
                                            "parameters"@,
                                        ) {
                                            Err(e) => Err(e),
                                            Ok(parameters) => Ok(
                                                OperationView {
                                                    summary,
                                                    description,
                                                    consumes,
                                                    produces,
                                                    schemes,
                                                    tags,
                                                    operation_id,
                                                    responses,
                                                    parameters,
                                                    extensions: spec_capture(es),
                                                },
                                            ),
                                        },
                                    },
                                },
                            },
                        },
                    },
                },
            },
        }
    }

    #[verifier::rlimit(100)]
    proof fn lemma_lookups_a(self)
    requires
        ext_wf(self.extensions),
        ensures
            lookup(self.enc(), "summary"@) == entry_lookup(opt_str_entry("summary"@, self.summary)),
            lookup(self.enc(), "description"@) == entry_lookup(opt_str_entry("description"@, self.description)),
            lookup(self.enc(), "consumes"@) == entry_lookup(opt_str_list_entry("consumes"@, self.consumes)),
    {
        reveal_strlit("summary");
        reveal_strlit("description");
        reveal_strlit("consumes");
        reveal_strlit("produces");
        reveal_strlit("schemes");
        reveal_strlit("tags");
        reveal_strlit("operationId");
        reveal_strlit("responses");
        reveal_strlit("parameters");
        assert("summary"@.len() == 7);
        assert("description"@.len() == 11);
        assert("consumes"@.len() == 8);
        assert("produces"@.len() == 8);
        assert("schemes"@.len() == 7);
        assert("tags"@.len() == 4);
        assert("operationId"@.len() == 11);
        assert("responses"@.len() == 9);
        assert("parameters"@.len() == 10);
        assert("summary"@[0] == 's');
        assert("schemes"@[0] == 's');
        assert("summary"@[1] == 'u');
        assert("schemes"@[1] == 'c');
        assert("consumes"@[0] == 'c');
        assert("produces"@[0] == 'p');
        assert("description"@[0] == 'd');
        assert("operationId"@[0] == 'o');
        assert("tags"@[0] == 't');
        assert("responses"@[0] == 'r');
        assert("parameters"@[0] == 'p');
        let e1 = opt_str_entry("summary"@, self.summary);
        let e2 = opt_str_entry("description"@, self.description);
        let e3 = opt_str_list_entry("consumes"@, self.consumes);
        let e4 = opt_str_list_entry("produces"@, self.produces);
        let e5 = opt_str_list_entry("schemes"@, self.schemes);
        let e6 = opt_str_list_entry("tags"@, self.tags);
        let e7 = opt_str_entry("operationId"@, self.operation_id);
        let e8 = req_entry("responses"@, JsonView::Obj(enc_response_map(self.responses)));
        let e9 = opt_por_list_entry("parameters"@, self.parameters);
        let ext = self.extensions;
        lemma_lookup_drop_back(e1 + e2 + e3 + e4 + e5 + e6 + e7 + e8 + e9, ext, "summary"@);
        lemma_lookup_drop_back(e1 + e2 + e3 + e4 + e5 + e6 + e7 + e8, e9, "summary"@);
        lemma_lookup_drop_back(e1 + e2 + e3 + e4 + e5 + e6 + e7, e8, "summary"@);
        lemma_lookup_drop_back(e1 + e2 + e3 + e4 + e5 + e6, e7, "summary"@);
        lemma_lookup_drop_back(e1 + e2 + e3 + e4 + e5, e6, "summary"@);
        lemma_lookup_drop_back(e1 + e2 + e3 + e4, e5, "summary"@);
        lemma_lookup_drop_back(e1 + e2 + e3, e4, "summary"@);
        lemma_lookup_drop_back(e1 + e2, e3, "summary"@);
        lemma_lookup_drop_back(e1, e2, "summary"@);
        lemma_lookup_drop_back(e1 + e2 + e3 + e4 + e5 + e6 + e7 + e8 + e9, ext, "description"@);
        lemma_lookup_drop_back(e1 + e2 + e3 + e4 + e5 + e6 + e7 + e8, e9, "description"@);
        lemma_lookup_drop_back(e1 + e2 + e3 + e4 + e5 + e6 + e7, e8, "description"@);
        lemma_lookup_drop_back(e1 + e2 + e3 + e4 + e5 + e6, e7, "description"@);
        lemma_lookup_drop_back(e1 + e2 + e3 + e4 + e5, e6, "description"@);
        lemma_lookup_drop_back(e1 + e2 + e3 + e4, e5, "description"@);
        lemma_lookup_drop_back(e1 + e2 + e3, e4, "description"@);
        lemma_lookup_drop_back(e1 + e2, e3, "description"@);
        lemma_lookup_skip_front(e1, e2, "description"@);
        lemma_lookup_drop_back(e1 + e2 + e3 + e4 + e5 + e6 + e7 + e8 + e9, ext, "consumes"@);
        lemma_lookup_drop_back(e1 + e2 + e3 + e4 + e5 + e6 + e7 + e8, e9, "consumes"@);
        lemma_lookup_drop_back(e1 + e2 + e3 + e4 + e5 + e6 + e7, e8, "consumes"@);
        lemma_lookup_drop_back(e1 + e2 + e3 + e4 + e5 + e6, e7, "consumes"@);
        lemma_lookup_drop_back(e1 + e2 + e3 + e4 + e5, e6, "consumes"@);
        lemma_lookup_drop_back(e1 + e2 + e3 + e4, e5, "consumes"@);
        lemma_lookup_drop_back(e1 + e2 + e3, e4, "consumes"@);
        lemma_lookup_skip_front(e1 + e2, e3, "consumes"@);
    }

    #[verifier::rlimit(100)]
    proof fn lemma_lookups_b(self)
    requires
        ext_wf(self.extensions),
        ensures
            lookup(self.enc(), "produces"@) == entry_lookup(opt_str_list_entry("produces"@, self.produces)),
            lookup(self.enc(), "schemes"@) == entry_lookup(opt_str_list_entry("schemes"@, self.schemes)),
            lookup(self.enc(), "tags"@) == entry_lookup(opt_str_list_entry("tags"@, self.tags)),
    {
        reveal_strlit("summary");
        reveal_strlit("description");
        reveal_strlit("consumes");
        reveal_strlit("produces");
        reveal_strlit("schemes");
        reveal_strlit("tags");
        reveal_strlit("operationId");
        reveal_strlit("responses");
        reveal_strlit("parameters");
        assert("summary"@.len() == 7);
        assert("description"@.len() == 11);
        assert("consumes"@.len() == 8);
        assert("produces"@.len() == 8);
        assert("schemes"@.len() == 7);
        assert("tags"@.len() == 4);
        assert("operationId"@.len() == 11);
        assert("responses"@.len() == 9);
        assert("parameters"@.len() == 10);
        assert("summary"@[0] == 's');
        assert("schemes"@[0] == 's');
        assert("summary"@[1] == 'u');
        assert("schemes"@[1] == 'c');
        assert("consumes"@[0] == 'c');
        assert("produces"@[0] == 'p');
        assert("description"@[0] == 'd');
        assert("operationId"@[0] == 'o');
        assert("tags"@[0] == 't');
        assert("responses"@[0] == 'r');
        assert("parameters"@[0] == 'p');
        let e1 = opt_str_entry("summary"@, self.summary);
        let e2 = opt_str_entry("description"@, self.description);
        let e3 = opt_str_list_entry("consumes"@, self.consumes);
        let e4 = opt_str_list_entry("produces"@, self.produces);
        let e5 = opt_str_list_entry("schemes"@, self.schemes);
        let e6 = opt_str_list_entry("tags"@, self.tags);
        let e7 = opt_str_entry("operationId"@, self.operation_id);
        let e8 = req_entry("responses"@, JsonView::Obj(enc_response_map(self.responses)));
        let e9 = opt_por_list_entry("parameters"@, self.parameters);
        let ext = self.extensions;
        lemma_lookup_drop_back(e1 + e2 + e3 + e4 + e5 + e6 + e7 + e8 + e9, ext, "produces"@);
        lemma_lookup_drop_back(e1 + e2 + e3 + e4 + e5 + e6 + e7 + e8, e9, "produces"@);
        lemma_lookup_drop_back(e1 + e2 + e3 + e4 + e5 + e6 + e7, e8, "produces"@);
        lemma_lookup_drop_back(e1 + e2 + e3 + e4 + e5 + e6, e7, "produces"@);
        lemma_lookup_drop_back(e1 + e2 + e3 + e4 + e5, e6, "produces"@);
        lemma_lookup_drop_back(e1 + e2 + e3 + e4, e5, "produces"@);
        lemma_lookup_skip_front(e1 + e2 + e3, e4, "produces"@);
        lemma_lookup_drop_back(e1 + e2 + e3 + e4 + e5 + e6 + e7 + e8 + e9, ext, "schemes"@);
        lemma_lookup_drop_back(e1 + e2 + e3 + e4 + e5 + e6 + e7 + e8, e9, "schemes"@);
        lemma_lookup_drop_back(e1 + e2 + e3 + e4 + e5 + e6 + e7, e8, "schemes"@);
        lemma_lookup_drop_back(e1 + e2 + e3 + e4 + e5 + e6, e7, "schemes"@);
        lemma_lookup_drop_back(e1 + e2 + e3 + e4 + e5, e6, "schemes"@);
        lemma_lookup_skip_front(e1 + e2 + e3 + e4, e5, "schemes"@);
        lemma_lookup_drop_back(e1 + e2 + e3 + e4 + e5 + e6 + e7 + e8 + e9, ext, "tags"@);
        lemma_lookup_drop_back(e1 + e2 + e3 + e4 + e5 + e6 + e7 + e8, e9, "tags"@);
        lemma_lookup_drop_back(e1 + e2 + e3 + e4 + e5 + e6 + e7, e8, "tags"@);
        lemma_lookup_drop_back(e1 + e2 + e3 + e4 + e5 + e6, e7, "tags"@);
        lemma_lookup_skip_front(e1 + e2 + e3 + e4 + e5, e6, "tags"@);
    }

    #[verifier::rlimit(100)]
    proof fn lemma_lookups_c(self)
    requires
        ext_wf(self.extensions),
        ensures
            lookup(self.enc(), "operationId"@) == entry_lookup(opt_str_entry("operationId"@, self.operation_id)),
            lookup(self.enc(), "responses"@) == entry_lookup(req_entry("responses"@, JsonView::Obj(enc_response_map(self.responses)))),
            lookup(self.enc(), "parameters"@) == entry_lookup(opt_por_list_entry("parameters"@, self.parameters)),
    {
        reveal_strlit("summary");
        reveal_strlit("description");
        reveal_strlit("consumes");
        reveal_strlit("produces");
        reveal_strlit("schemes");
        reveal_strlit("tags");
        reveal_strlit("operationId");
        reveal_strlit("responses");
        reveal_strlit("parameters");
        assert("summary"@.len() == 7);
        assert("description"@.len() == 11);
        assert("consumes"@.len() == 8);
        assert("produces"@.len() == 8);
        assert("schemes"@.len() == 7);
        assert("tags"@.len() == 4);
        assert("operationId"@.len() == 11);
        assert("responses"@.len() == 9);
        assert("parameters"@.len() == 10);
        assert("summary"@[0] == 's');
        assert("schemes"@[0] == 's');
        assert("summary"@[1] == 'u');
        assert("schemes"@[1] == 'c');
        assert("consumes"@[0] == 'c');
        assert("produces"@[0] == 'p');
        assert("description"@[0] == 'd');
        assert("operationId"@[0] == 'o');
        assert("tags"@[0] == 't');
        assert("responses"@[0] == 'r');
        assert("parameters"@[0] == 'p');
        let e1 = opt_str_entry("summary"@, self.summary);
        let e2 = opt_str_entry("description"@, self.description);
        let e3 = opt_str_list_entry("consumes"@, self.consumes);
        let e4 = opt_str_list_entry("produces"@, self.produces);
        let e5 = opt_str_list_entry("schemes"@, self.schemes);
        let e6 = opt_str_list_entry("tags"@, self.tags);
        let e7 = opt_str_entry("operationId"@, self.operation_id);
        let e8 = req_entry("responses"@, JsonView::Obj(enc_response_map(self.responses)));
        let e9 = opt_por_list_entry("parameters"@, self.parameters);
        let ext = self.extensions;
        lemma_lookup_drop_back(e1 + e2 + e3 + e4 + e5 + e6 + e7 + e8 + e9, ext, "operationId"@);
        lemma_lookup_drop_back(e1 + e2 + e3 + e4 + e5 + e6 + e7 + e8, e9, "operationId"@);
        lemma_lookup_drop_back(e1 + e2 + e3 + e4 + e5 + e6 + e7, e8, "operationId"@);
        lemma_lookup_skip_front(e1 + e2 + e3 + e4 + e5 + e6, e7, "operationId"@);
        lemma_lookup_drop_back(e1 + e2 + e3 + e4 + e5 + e6 + e7 + e8 + e9, ext, "responses"@);
        lemma_lookup_drop_back(e1 + e2 + e3 + e4 + e5 + e6 + e7 + e8, e9, "responses"@);
        lemma_lookup_skip_front(e1 + e2 + e3 + e4 + e5 + e6 + e7, e8, "responses"@);
        lemma_lookup_drop_back(e1 + e2 + e3 + e4 + e5 + e6 + e7 + e8 + e9, ext, "parameters"@);
        lemma_lookup_skip_front(e1 + e2 + e3 + e4 + e5 + e6 + e7 + e8, e9, "parameters"@);
    }

    /// The extension entries of an encoded operation are exactly the ones
    /// it stores.
    #[verifier::rlimit(100)]
    proof fn lemma_capture_ext(self)
        requires
            ext_wf(self.extensions),
        ensures
            spec_capture(self.enc()) == self.extensions,
    {
        reveal_strlit("summary");
        reveal_strlit("description");
        reveal_strlit("consumes");
        reveal_strlit("produces");
        reveal_strlit("schemes");
        reveal_strlit("tags");
        reveal_strlit("operationId");
        reveal_strlit("responses");
        reveal_strlit("parameters");
        assert("summary"@.len() == 7);
        assert("description"@.len() == 11);
        assert("consumes"@.len() == 8);
        assert("produces"@.len() == 8);
        assert("schemes"@.len() == 7);
        assert("tags"@.len() == 4);
        assert("operationId"@.len() == 11);
        assert("responses"@.len() == 9);
        assert("parameters"@.len() == 10);
        assert("summary"@[0] == 's');
        assert("schemes"@[0] == 's');
        assert("summary"@[1] == 'u');
        assert("schemes"@[1] == 'c');
        assert("consumes"@[0] == 'c');
        assert("produces"@[0] == 'p');
        assert("description"@[0] == 'd');
        assert("operationId"@[0] == 'o');
        assert("tags"@[0] == 't');
        assert("responses"@[0] == 'r');
        assert("parameters"@[0] == 'p');
        let e1 = opt_str_entry("summary"@, self.summary);
        let e2 = opt_str_entry("description"@, self.description);
        let e3 = opt_str_list_entry("consumes"@, self.consumes);
        let e4 = opt_str_list_entry("produces"@, self.produces);
        let e5 = opt_str_list_entry("schemes"@, self.schemes);
        let e6 = opt_str_list_entry("tags"@, self.tags);
        let e7 = opt_str_entry("operationId"@, self.operation_id);
        let e8 = req_entry("responses"@, JsonView::Obj(enc_response_map(self.responses)));
        let e9 = opt_por_list_entry("parameters"@, self.parameters);
        let ext = self.extensions;
        let typed = e1 + e2 + e3 + e4 + e5 + e6 + e7 + e8 + e9;
        lemma_capture_append(typed, ext);
        lemma_capture_none(typed);
        lemma_capture_all(ext);
        assert(spec_capture(typed) + spec_capture(ext) =~= self.extensions);
    }

    /// A well-formed operation reads back from its own encoding: typed
    /// fields land in their slots and the extension entries are captured
    /// unchanged.
    pub proof fn lemma_round_trip(self)
        requires
            self.wf(),
        ensures
            Self::decode(self.encode()) == Ok::<_, ErrorView>(self),
    {
        self.lemma_lookups_a();
        self.lemma_lookups_b();
        self.lemma_lookups_c();
        self.lemma_capture_ext();
        match self.consumes {
            Some(ss) => {
                lemma_str_list_round_trip(ss);
            },
            None => {},
        }
        match self.produces {
            Some(ss) => {
                lemma_str_list_round_trip(ss);
            },
            None => {},
        }
        match self.schemes {
            Some(ss) => {
                lemma_str_list_round_trip(ss);
            },
            None => {},
        }
        match self.tags {
            Some(ss) => {
                lemma_str_list_round_trip(ss);
            },
            None => {},
        }
        lemma_response_map_round_trip(self.responses);
        match self.parameters {
            Some(ps) => {
                lemma_param_or_ref_list_round_trip(ps);
            },
            None => {},
        }
    }
}

impl Operation {
    pub fn decode(v: &Json) -> (r: Result<Operation, Error>)
        ensures
            rv(r) == OperationView::decode(v@),
    {
        match v {
            Json::Obj(es) => Self::decode_obj(es),
            _ => Err(Error::SchemaMismatch("operation".to_owned())),
        }
    }

    pub fn decode_obj(es: &Vec<(String, Json)>) -> (r: Result<Operation, Error>)
        ensures
            rv(r) == OperationView::decode_obj(view_entries(es@)),
    {
        let summary = match get_opt_str(es, "summary") {
            Ok(x) => x,
            Err(e) => return Err(e),
        };
        let description = match get_opt_str(es, "description") {
            Ok(x) => x,
            Err(e) => return Err(e),
        };
        let consumes = match get_opt_str_list(es, "consumes") {
            Ok(x) => x,
            Err(e) => return Err(e),
        };
        let produces = match get_opt_str_list(es, "produces") {
            Ok(x) => x,
            Err(e) => return Err(e),
        };
        let schemes = match get_opt_str_list(es, "schemes") {
            Ok(x) => x,
            Err(e) => return Err(e),
        };
        let tags = match get_opt_str_list(es, "tags") {
            Ok(x) => x,
            Err(e) => return Err(e),
        };
        let operation_id = match get_opt_str(es, "operationId") {
            Ok(x) => x,
            Err(e) => return Err(e),
        };
        let responses = match obj_get(es, "responses") {
            Some(found) => match found {
                Json::Obj(rs) => match decode_response_map(rs) {
                    Ok(m) => m,
                    Err(e) => return Err(e),
                },
                _ => {
                    return Err(Error::SchemaMismatch("responses".to_owned()));
                },
            },
            None => {
                return Err(Error::SchemaMismatch("responses".to_owned()));
            },
        };
        let parameters = match get_opt_por_list(es, "parameters") {
            Ok(x) => x,
            Err(e) => return Err(e),
        };
        let extensions = capture_extensions(es);
        Ok(
            Operation {
                summary,
                description,
                consumes,
                produces,
                schemes,
                tags,
                operation_id,
                responses,
                parameters,
                extensions,
            },
        )
    }

    pub fn encode(&self) -> (r: Json)
        ensures
            r@ == self.deep_view().encode(),
    {
        let mut out: Vec<(String, Json)> = Vec::new();
        push_opt_str(&mut out, "summary", &self.summary);
        push_opt_str(&mut out, "description", &self.description);
        push_opt_str_list(&mut out, "consumes", &self.consumes);
        push_opt_str_list(&mut out, "produces", &self.produces);
        push_opt_str_list(&mut out, "schemes", &self.schemes);
        push_opt_str_list(&mut out, "tags", &self.tags);
        push_opt_str(&mut out, "operationId", &self.operation_id);
        let rj = encode_response_map(&self.responses);
        crate::codec::push_req(&mut out, "responses", rj);
        push_opt_por_list(&mut out, "parameters", &self.parameters);
        push_extensions(&mut out, &self.extensions);
        proof {
            assert(view_entries(out@) =~= self.deep_view().enc());
        }
        Json::Obj(out)
    }
}

// ---------------------------------------------------------------------
// PathItem.
// ---------------------------------------------------------------------
pub open spec fn opt_op_field(es: Entries, k: Seq<char>) -> Result<Option<OperationView>, ErrorView> {
    match lookup(es, k) {
        Some(ov) => match OperationView::decode(ov) {
            Ok(o) => Ok(Some(o)),
            Err(e) => Err(e),
        },
        None => Ok(None),
    }
}

pub open spec fn opt_op_entry(k: Seq<char>, v: Option<OperationView>) -> Entries {
    opt_entry(
        k,
        match v {
            Some(o) => Some(o.encode()),
            None => None,
        },
    )
}

pub fn get_opt_op(es: &Vec<(String, Json)>, k: &str) -> (r: Result<Option<Operation>, Error>)
    ensures
        rv(r) == opt_op_field(view_entries(es@), k@),
{
    match obj_get(es, k) {
        Some(ov) => match Operation::decode(ov) {
            Ok(o) => Ok(Some(o)),
            Err(e) => Err(e),
        },
        None => Ok(None),
    }
}

pub fn push_opt_op(out: &mut Vec<(String, Json)>, k: &str, v: &Option<Operation>)
    ensures
        view_entries(final(out)@) == view_entries(old(out)@) + opt_op_entry(k@, v.deep_view()),
{
    match v {
        Some(o) => {
            let j = o.encode();
            out.push((k.to_owned(), j));
        },
        None => {},
    }
    proof {
        assert(view_entries(out@) =~= view_entries(old(out)@) + opt_op_entry(k@, v.deep_view()));
    }
}

impl PathItemView {
    pub open spec fn enc(self) -> Entries {
        opt_op_entry("get"@, self.get) + opt_op_entry("post"@, self.post) + opt_op_entry(
            "put"@,
            self.put,
        ) + opt_op_entry("patch"@, self.patch) + opt_op_entry("delete"@, self.delete)
            + opt_op_entry("options"@, self.options) + opt_op_entry("head"@, self.head)
            + opt_por_list_entry("parameters"@, self.parameters)
    }

    pub open spec fn encode(self) -> JsonView {
        JsonView::Obj(self.enc())
    }

    pub open spec fn decode(v: JsonView) -> Result<PathItemView, ErrorView> {
        match v {
            JsonView::Obj(es) => Self::decode_obj(es),
            _ => Err(ErrorView::SchemaMismatch("paths"@)),
        }
    }

    pub open spec fn decode_obj(es: Entries) -> Result<PathItemView, ErrorView> {
        match opt_op_field(es, "get"@) {
            Err(e) => Err(e),
            Ok(get) => match opt_op_field(es, "post"@) {
                Err(e) => Err(e),
                Ok(post) => match opt_op_field(es, "put"@) {
                    Err(e) => Err(e),
                    Ok(put) => match opt_op_field(es, "patch"@) {
                        Err(e) => Err(e),
                        Ok(patch) => match opt_op_field(es, "delete"@) {
                            Err(e) => Err(e),
                            Ok(delete) => match opt_op_field(es, "options"@) {
                                Err(e) => Err(e),
                                Ok(options) => match opt_op_field(es, "head"@) {
                                    Err(e) => Err(e),
                                    Ok(head) => match opt_por_list_field(es, "parameters"@) {
                                        Err(e) => Err(e),
                                        Ok(parameters) => Ok(
                                            PathItemView {
                                                get,
                                                post,
                                                put,
                                                patch,
                                                delete,
                                                options,
                                                head,
                                                parameters,
                                            },
                                        ),
                                    },
                                },
                            },
                        },
                    },
                },
            },
        }
    }

    #[verifier::rlimit(100)]
    proof fn lemma_lookups_a(self)
        ensures
            lookup(self.enc(), "get"@) == entry_lookup(opt_op_entry("get"@, self.get)),
            lookup(self.enc(), "post"@) == entry_lookup(opt_op_entry("post"@, self.post)),
            lookup(self.enc(), "put"@) == entry_lookup(opt_op_entry("put"@, self.put)),
            lookup(self.enc(), "patch"@) == entry_lookup(opt_op_entry("patch"@, self.patch)),
    {
        reveal_strlit("get");
        reveal_strlit("post");
        reveal_strlit("put");
        reveal_strlit("patch");
        reveal_strlit("delete");
        reveal_strlit("options");
        reveal_strlit("head");
        reveal_strlit("parameters");
        assert("get"@.len() == 3);
        assert("post"@.len() == 4);
        assert("put"@.len() == 3);
        assert("patch"@.len() == 5);
        assert("delete"@.len() == 6);
        assert("options"@.len() == 7);
        assert("head"@.len() == 4);
        assert("parameters"@.len() == 10);
        assert("get"@[0] == 'g');
        assert("put"@[0] == 'p');
        assert("post"@[0] == 'p');
        assert("head"@[0] == 'h');
        assert("post"@[1] == 'o');
        assert("put"@[1] == 'u');
        let e1 = opt_op_entry("get"@, self.get);
        let e2 = opt_op_entry("post"@, self.post);
        let e3 = opt_op_entry("put"@, self.put);
        let e4 = opt_op_entry("patch"@, self.patch);
        let e5 = opt_op_entry("delete"@, self.delete);
        let e6 = opt_op_entry("options"@, self.options);
        let e7 = opt_op_entry("head"@, self.head);
        let e8 = opt_por_list_entry("parameters"@, self.parameters);
        lemma_lookup_drop_back(e1 + e2 + e3 + e4 + e5 + e6 + e7, e8, "get"@);
        lemma_lookup_drop_back(e1 + e2 + e3 + e4 + e5 + e6, e7, "get"@);
        lemma_lookup_drop_back(e1 + e2 + e3 + e4 + e5, e6, "get"@);
        lemma_lookup_drop_back(e1 + e2 + e3 + e4, e5, "get"@);
        lemma_lookup_drop_back(e1 + e2 + e3, e4, "get"@);
        lemma_lookup_drop_back(e1 + e2, e3, "get"@);
        lemma_lookup_drop_back(e1, e2, "get"@);
        lemma_lookup_drop_back(e1 + e2 + e3 + e4 + e5 + e6 + e7, e8, "post"@);
        lemma_lookup_drop_back(e1 + e2 + e3 + e4 + e5 + e6, e7, "post"@);
        lemma_lookup_drop_back(e1 + e2 + e3 + e4 + e5, e6, "post"@);
        lemma_lookup_drop_back(e1 + e2 + e3 + e4, e5, "post"@);
        lemma_lookup_drop_back(e1 + e2 + e3, e4, "post"@);
        lemma_lookup_drop_back(e1 + e2, e3, "post"@);
        lemma_lookup_skip_front(e1, e2, "post"@);
        lemma_lookup_drop_back(e1 + e2 + e3 + e4 + e5 + e6 + e7, e8, "put"@);
        lemma_lookup_drop_back(e1 + e2 + e3 + e4 + e5 + e6, e7, "put"@);
        lemma_lookup_drop_back(e1 + e2 + e3 + e4 + e5, e6, "put"@);
        lemma_lookup_drop_back(e1 + e2 + e3 + e4, e5, "put"@);
        lemma_lookup_drop_back(e1 + e2 + e3, e4, "put"@);
        lemma_lookup_skip_front(e1 + e2, e3, "put"@);
        lemma_lookup_drop_back(e1 + e2 + e3 + e4 + e5 + e6 + e7, e8, "patch"@);
        lemma_lookup_drop_back(e1 + e2 + e3 + e4 + e5 + e6, e7, "patch"@);
        lemma_lookup_drop_back(e1 + e2 + e3 + e4 + e5, e6, "patch"@);
        lemma_lookup_drop_back(e1 + e2 + e3 + e4, e5, "patch"@);
        lemma_lookup_skip_front(e1 + e2 + e3, e4, "patch"@);
    }

    #[verifier::rlimit(100)]
    proof fn lemma_lookups_b(self)
        ensures
            lookup(self.enc(), "delete"@) == entry_lookup(opt_op_entry("delete"@, self.delete)),
            lookup(self.enc(), "options"@) == entry_lookup(opt_op_entry("options"@, self.options)),
    {
        reveal_strlit("get");
        reveal_strlit("post");
        reveal_strlit("put");
        reveal_strlit("patch");
        reveal_strlit("delete");
        reveal_strlit("options");
        reveal_strlit("head");
        reveal_strlit("parameters");
        assert("get"@.len() == 3);
        assert("post"@.len() == 4);
        assert("put"@.len() == 3);
        assert("patch"@.len() == 5);
        assert("delete"@.len() == 6);
        assert("options"@.len() == 7);
        assert("head"@.len() == 4);
        assert("parameters"@.len() == 10);
        assert("get"@[0] == 'g');
        assert("put"@[0] == 'p');
        assert("post"@[0] == 'p');
        assert("head"@[0] == 'h');
        assert("post"@[1] == 'o');
        assert("put"@[1] == 'u');
        let e1 = opt_op_entry("get"@, self.get);
        let e2 = opt_op_entry("post"@, self.post);
        let e3 = opt_op_entry("put"@, self.put);
        let e4 = opt_op_entry("patch"@, self.patch);
        let e5 = opt_op_entry("delete"@, self.delete);
        let e6 = opt_op_entry("options"@, self.options);
        let e7 = opt_op_entry("head"@, self.head);
        let e8 = opt_por_list_entry("parameters"@, self.parameters);
        lemma_lookup_drop_back(e1 + e2 + e3 + e4 + e5 + e6 + e7, e8, "delete"@);
        lemma_lookup_drop_back(e1 + e2 + e3 + e4 + e5 + e6, e7, "delete"@);
        lemma_lookup_drop_back(e1 + e2 + e3 + e4 + e5, e6, "delete"@);
        lemma_lookup_skip_front(e1 + e2 + e3 + e4, e5, "delete"@);
        lemma_lookup_drop_back(e1 + e2 + e3 + e4 + e5 + e6 + e7, e8, "options"@);
        lemma_lookup_drop_back(e1 + e2 + e3 + e4 + e5 + e6, e7, "options"@);
        lemma_lookup_skip_front(e1 + e2 + e3 + e4 + e5, e6, "options"@);
    }

    #[verifier::rlimit(100)]
    proof fn lemma_lookups_e(self)
        ensures
            lookup(self.enc(), "head"@) == entry_lookup(opt_op_entry("head"@, self.head)),
            lookup(self.enc(), "parameters"@) == entry_lookup(opt_por_list_entry("parameters"@, self.parameters)),
    {
        reveal_strlit("get");
        reveal_strlit("post");
        reveal_strlit("put");
        reveal_strlit("patch");
        reveal_strlit("delete");
        reveal_strlit("options");
        reveal_strlit("head");
        reveal_strlit("parameters");
        assert("get"@.len() == 3);
        assert("post"@.len() == 4);
        assert("put"@.len() == 3);
        assert("patch"@.len() == 5);
        assert("delete"@.len() == 6);
        assert("options"@.len() == 7);
        assert("head"@.len() == 4);
        assert("parameters"@.len() == 10);
        assert("get"@[0] == 'g');
        assert("put"@[0] == 'p');
        assert("post"@[0] == 'p');
        assert("head"@[0] == 'h');
        assert("post"@[1] == 'o');
        assert("put"@[1] == 'u');
        let e1 = opt_op_entry("get"@, self.get);
        let e2 = opt_op_entry("post"@, self.post);
        let e3 = opt_op_entry("put"@, self.put);
        let e4 = opt_op_entry("patch"@, self.patch);
        let e5 = opt_op_entry("delete"@, self.delete);
        let e6 = opt_op_entry("options"@, self.options);
        let e7 = opt_op_entry("head"@, self.head);
        let e8 = opt_por_list_entry("parameters"@, self.parameters);
        lemma_lookup_drop_back(e1 + e2 + e3 + e4 + e5 + e6 + e7, e8, "head"@);
        lemma_lookup_skip_front(e1 + e2 + e3 + e4 + e5 + e6, e7, "head"@);
        lemma_lookup_skip_front(e1 + e2 + e3 + e4 + e5 + e6 + e7, e8, "parameters"@);
    }

    /// A well-formed path item reads back from its own encoding.
    #[verifier::rlimit(100)]
    pub proof fn lemma_round_trip(self)
        requires
            self.wf(),
        ensures
            Self::decode(self.encode()) == Ok::<_, ErrorView>(self),
    {
        self.lemma_lookups_a();
        self.lemma_lookups_b();
        self.lemma_lookups_e();
        match self.get {
            Some(o) => {
                o.lemma_round_trip();
            },
            None => {},
        }
        match self.post {
            Some(o) => {
                o.lemma_round_trip();
            },
            None => {},
        }
        match self.put {
            Some(o) => {
                o.lemma_round_trip();
            },
            None => {},
        }
        match self.patch {
            Some(o) => {
                o.lemma_round_trip();
            },
            None => {},
        }
        match self.delete {
            Some(o) => {
                o.lemma_round_trip();
            },
            None => {},
        }
        match self.options {
            Some(o) => {
                o.lemma_round_trip();
            },
            None => {},
        }
        match self.head {
            Some(o) => {
                o.lemma_round_trip();
            },
            None => {},
        }
        match self.parameters {
            Some(ps) => {
                lemma_param_or_ref_list_round_trip(ps);
            },
            None => {},
        }
    }
}

impl PathItem {
    pub fn decode(v: &Json) -> (r: Result<PathItem, Error>)
        ensures
            rv(r) == PathItemView::decode(v@),
    {
        match v {
            Json::Obj(es) => {
                let get = match get_opt_op(es, "get") {
                    Ok(x) => x,
                    Err(e) => return Err(e),
                };
                let post = match get_opt_op(es, "post") {
                    Ok(x) => x,
                    Err(e) => return Err(e),
                };
                let put = match get_opt_op(es, "put") {
                    Ok(x) => x,
                    Err(e) => return Err(e),
                };
                let patch = match get_opt_op(es, "patch") {
                    Ok(x) => x,
                    Err(e) => return Err(e),
                };
                let delete = match get_opt_op(es, "delete") {
                    Ok(x) => x,
                    Err(e) => return Err(e),
                };
                let options = match get_opt_op(es, "options") {
                    Ok(x) => x,
                    Err(e) => return Err(e),
                };
                let head = match get_opt_op(es, "head") {
                    Ok(x) => x,
                    Err(e) => return Err(e),
                };
                let parameters = match get_opt_por_list(es, "parameters") {
                    Ok(x) => x,
                    Err(e) => return Err(e),
                };
                Ok(PathItem { get, post, put, patch, delete, options, head, parameters })
            },
            _ => Err(Error::SchemaMismatch("paths".to_owned())),
        }
    }

    pub fn encode(&self) -> (r: Json)
        ensures
            r@ == self.deep_view().encode(),
    {
        let mut out: Vec<(String, Json)> = Vec::new();
        push_opt_op(&mut out, "get", &self.get);
        push_opt_op(&mut out, "post", &self.post);
        push_opt_op(&mut out, "put", &self.put);
        push_opt_op(&mut out, "patch", &self.patch);
        push_opt_op(&mut out, "delete", &self.delete);
        push_opt_op(&mut out, "options", &self.options);
        push_opt_op(&mut out, "head", &self.head);
        push_opt_por_list(&mut out, "parameters", &self.parameters);
        proof {
            assert(view_entries(out@) =~= self.deep_view().enc());
        }
        Json::Obj(out)
    }
}

pub open spec fn dec_path_item_map(es: Entries) -> Result<Seq<(Seq<char>, PathItemView)>, ErrorView>
    decreases es.len(),
{
    if es.len() == 0 {
        Ok(Seq::empty())
    } else {
        match dec_path_item_map(es.drop_last()) {
            Ok(init) => match PathItemView::decode(es.last().1) {
                Ok(x) => Ok(init.push((es.last().0, x))),
                Err(e) => Err(e),
            },
            Err(e) => Err(e),
        }
    }
}

pub open spec fn enc_path_item_map(ps: Seq<(Seq<char>, PathItemView)>) -> Entries {
    Seq::new(
        ps.len(),
        |i: int|
            if 0 <= i < ps.len() {
                (ps[i].0, ps[i].1.encode())
            } else {
                (Seq::empty(), JsonView::Null)
            },
    )
}

/// Once a prefix fails to decode, the whole mapping reports that failure.
pub proof fn lemma_dec_path_item_map_err(es: Entries, j: int)
    requires
        0 <= j <= es.len(),
        dec_path_item_map(es.take(j)) is Err,
    ensures
        dec_path_item_map(es) == dec_path_item_map(es.take(j)),
    decreases es.len() - j,
{
    if j == es.len() {
        assert(es.take(j) =~= es);
    } else {
        assert(es.take(j + 1).drop_last() =~= es.take(j));
        lemma_dec_path_item_map_err(es, j + 1);
    }
}

/// A named path item mapping reads back from its own encoding.
pub proof fn lemma_path_item_map_round_trip(ps: Seq<(Seq<char>, PathItemView)>)
    requires
        forall|i: int| 0 <= i < ps.len() ==> (#[trigger] ps[i].1).wf(),
    ensures
        dec_path_item_map(enc_path_item_map(ps)) == Ok::<_, ErrorView>(ps),
    decreases ps.len(),
{
    if ps.len() == 0 {
        assert(enc_path_item_map(ps) =~= Seq::<(Seq<char>, JsonView)>::empty());
        assert(ps =~= Seq::<(Seq<char>, PathItemView)>::empty());
    } else {
        assert(enc_path_item_map(ps).drop_last() =~= enc_path_item_map(ps.drop_last()));
        assert(forall|i: int|
            0 <= i < ps.drop_last().len() ==> (#[trigger] ps.drop_last()[i]).1.wf());
        lemma_path_item_map_round_trip(ps.drop_last());
        ps.last().1.lemma_round_trip();
        assert(ps.drop_last().push(ps.last()) =~= ps);
    }
}

pub fn decode_path_item_map(es: &Vec<(String, Json)>) -> (r: Result<Vec<(String, PathItem)>, Error>)
    ensures
        rv(r) == dec_path_item_map(view_entries(es@)),
{
    let vw = Ghost(view_entries(es@));
    let n = es.len();
    let mut out: Vec<(String, PathItem)> = Vec::new();
    let mut i: usize = 0;
    proof {
        assert(vw@.take(0) =~= Seq::<(Seq<char>, JsonView)>::empty());
        assert(out.deep_view() =~= Seq::<(Seq<char>, PathItemView)>::empty());
    }
    while i < n
        invariant
            i <= n,
            n == es.len(),
            vw@ == view_entries(es@),
            dec_path_item_map(vw@.take(i as int)) == Ok::<_, ErrorView>(out.deep_view()),
        decreases n - i,
    {
        proof {
            assert(vw@.take(i + 1 as int).drop_last() =~= vw@.take(i as int));
            assert(vw@.take(i + 1 as int).last() == vw@[i as int]);
        }
        let prev = Ghost(out.deep_view());
        match PathItem::decode(&es[i].1) {
            Ok(x) => {
                let k = es[i].0.clone();
                let kv = Ghost((k@, x.deep_view()));
                out.push((k, x));
                proof {
                    assert(out.deep_view() =~= prev@.push(kv@));
                }
            },
            Err(e) => {
                proof {
                    lemma_dec_path_item_map_err(vw@, i + 1 as int);
                }
                return Err(e);
            },
        }
        i = i + 1;
    }
    proof {
        assert(vw@.take(n as int) =~= vw@);
    }
    Ok(out)
}

pub fn encode_path_item_map(m: &Vec<(String, PathItem)>) -> (r: Json)
    ensures
        r@ == JsonView::Obj(enc_path_item_map(m.deep_view())),
{
    let n = m.len();
    let mut out: Vec<(String, Json)> = Vec::new();
    let mut i: usize = 0;
    while i < n
        invariant
            i <= n,
            n == m.len(),
            out@.len() == i,
            forall|j: int|
                0 <= j < i ==> out@[j].0@ == m@[j].0@ && out@[j].1@ == m@[j].1.deep_view().encode(),
        decreases n - i,
    {
        let k = m[i].0.clone();
        let v = m[i].1.encode();
        out.push((k, v));
        i = i + 1;
    }
    proof {
        assert(view_entries(out@) =~= enc_path_item_map(m.deep_view()));
    }
    Json::Obj(out)
}

} // verus!
