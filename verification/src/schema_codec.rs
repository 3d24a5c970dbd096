//! Decoding and encoding of the recursive schema node and of named schema
//! mappings. The decoders recurse through values produced by key lookup,
//! so termination is measured by the value tree's height.

use vstd::prelude::*;
use crate::codec::{
    get_opt_str, get_opt_str_list, lemma_lookup_drop_back, lemma_lookup_skip_front,
    lemma_str_list_round_trip, opt_entry, opt_str_entry, opt_str_field, opt_str_list_entry,
    opt_str_list_field, Entries,
};
use crate::error::{rv, Error, ErrorView};
use crate::json::{
    jheight, jheight_entries, lemma_jheight_drop_last, lemma_jheight_elem, lemma_jheight_lookup,
    lookup, obj_get, view_entries, Json, JsonView,
};
use crate::schema::{view_schema_entries, Schema, SchemaView};

verus! {

broadcast use crate::codec::lemma_req_entry_key, crate::codec::lemma_opt_entry_key;

impl SchemaView {
    pub open spec fn enc(self) -> Entries
        decreases self, 0nat,
    {
        opt_str_entry("$ref"@, self.ref_path) + opt_str_entry("description"@, self.description)
            + opt_str_entry("type"@, self.schema_type) + opt_str_entry("format"@, self.format)
            + opt_str_list_entry("enum"@, self.enum_values) + opt_str_list_entry(
            "required"@,
            self.required,
        ) + opt_entry(
            "items"@,
            match self.items {
                Some(child) => Some(child.encode()),
                None => None,
            },
        ) + opt_entry(
            "properties"@,
            match self.properties {
                Some(ps) => Some(JsonView::Obj(enc_schema_map(ps))),
                None => None,
            },
        )
    }

    pub open spec fn encode(self) -> JsonView
        decreases self, 1nat,
    {
        JsonView::Obj(self.enc())
    }

    /// How a schema node decodes: each field read by key, the `items`
    /// child and every property decoded recursively; a non-object input is
    /// refused.
    pub open spec fn decode(v: JsonView) -> Result<SchemaView, ErrorView>
        decreases jheight(v), 0nat, 0nat,
    {
        match v {
            JsonView::Obj(es) => Self::decode_obj(es),
            _ => Err(ErrorView::SchemaMismatch("schema"@)),
        }
    }

    pub open spec fn items_field(es: Entries) -> Result<Option<Box<SchemaView>>, ErrorView>
        decreases jheight_entries(es), 1nat, 0nat,
    {
        match lookup(es, "items"@) {
            Some(cv) => {
                proof {
                    lemma_jheight_lookup(es, "items"@);
                }
                match Self::decode(cv) {
                    Ok(c) => Ok(Some(Box::new(c))),
                    Err(e) => Err(e),
                }
            },
            None => Ok(None),
        }
    }

    pub open spec fn properties_field(es: Entries) -> Result<
        Option<Seq<(Seq<char>, SchemaView)>>,
        ErrorView,
    >
        decreases jheight_entries(es), 1nat, 0nat,
    {
        match lookup(es, "properties"@) {
            Some(JsonView::Obj(ps)) => {
                proof {
                    lemma_jheight_lookup(es, "properties"@);
                }
                match dec_schema_map(ps) {
                    Ok(m) => Ok(Some(m)),
                    Err(e) => Err(e),
                }
            },
            Some(_) => Err(ErrorView::SchemaMismatch("properties"@)),
            None => Ok(None),
        }
    }

    pub open spec fn decode_obj(es: Entries) -> Result<SchemaView, ErrorView>
        decreases jheight_entries(es), 2nat, 0nat,
    {
        match opt_str_field(es, "$ref"@) {
            Err(e) => Err(e),
            Ok(ref_path) => match opt_str_field(es, "description"@) {
                Err(e) => Err(e),
                Ok(description) => match opt_str_field(es, "type"@) {
                    Err(e) => Err(e),
                    Ok(schema_type) => match opt_str_field(es, "format"@) {
                        Err(e) => Err(e),
                        Ok(format) => match opt_str_list_field(es, "enum"@) {
                            Err(e) => Err(e),
                            Ok(enum_values) => match opt_str_list_field(es, "required"@) {
                                Err(e) => Err(e),
                                Ok(required) => match Self::items_field(es) {
                                    Err(e) => Err(e),
                                    Ok(items) => match Self::properties_field(es) {
                                        Err(e) => Err(e),
                                        Ok(properties) => Ok(
                                            SchemaView {
                                                ref_path,
                                                description,
                                                schema_type,
                                                format,
                                                enum_values,
                                                required,
                                                items,
                                                properties,
                                            },
                                        ),
                                    },
                                },
                            },
                        },
                    },
                },
            },
        }
    }

    /// A schema node reads back from its own encoding.
    #[verifier::rlimit(100)]
    pub proof fn lemma_round_trip(self)
        ensures
            Self::decode(self.encode()) == Ok::<_, ErrorView>(self),
        decreases self,
    {
        reveal_strlit("$ref");
        reveal_strlit("description");
        reveal_strlit("type");
        reveal_strlit("format");
        reveal_strlit("enum");
        reveal_strlit("required");
        reveal_strlit("items");
        reveal_strlit("properties");
        assert("$ref"@.len() == 4);
        assert("description"@.len() == 11);
        assert("type"@.len() == 4);
        assert("format"@.len() == 6);
        assert("enum"@.len() == 4);
        assert("required"@.len() == 8);
        assert("items"@.len() == 5);
        assert("properties"@.len() == 10);
        assert("$ref"@[0] == '$');
        assert("type"@[0] == 't');
        assert("enum"@[0] == 'e');
        let e1 = opt_str_entry("$ref"@, self.ref_path);
        let e2 = opt_str_entry("description"@, self.description);
        let e3 = opt_str_entry("type"@, self.schema_type);
        let e4 = opt_str_entry("format"@, self.format);
        let e5 = opt_str_list_entry("enum"@, self.enum_values);
        let e6 = opt_str_list_entry("required"@, self.required);
        let e7 = opt_entry(
            "items"@,
            match self.items {
                Some(child) => Some(child.encode()),
                None => None,
            },
        );
        let e8 = opt_entry(
            "properties"@,
            match self.properties {
                Some(ps) => Some(JsonView::Obj(enc_schema_map(ps))),
                None => None,
            },
        );
        lemma_lookup_drop_back(e1 + e2 + e3 + e4 + e5 + e6 + e7, e8, "$ref"@);
        lemma_lookup_drop_back(e1 + e2 + e3 + e4 + e5 + e6, e7, "$ref"@);
        lemma_lookup_drop_back(e1 + e2 + e3 + e4 + e5, e6, "$ref"@);
        lemma_lookup_drop_back(e1 + e2 + e3 + e4, e5, "$ref"@);
        lemma_lookup_drop_back(e1 + e2 + e3, e4, "$ref"@);
        lemma_lookup_drop_back(e1 + e2, e3, "$ref"@);
        lemma_lookup_drop_back(e1, e2, "$ref"@);
        lemma_lookup_drop_back(e1 + e2 + e3 + e4 + e5 + e6 + e7, e8, "description"@);
        lemma_lookup_drop_back(e1 + e2 + e3 + e4 + e5 + e6, e7, "description"@);
        lemma_lookup_drop_back(e1 + e2 + e3 + e4 + e5, e6, "description"@);
        lemma_lookup_drop_back(e1 + e2 + e3 + e4, e5, "description"@);
        lemma_lookup_drop_back(e1 + e2 + e3, e4, "description"@);
        lemma_lookup_drop_back(e1 + e2, e3, "description"@);
        lemma_lookup_skip_front(e1, e2, "description"@);
        lemma_lookup_drop_back(e1 + e2 + e3 + e4 + e5 + e6 + e7, e8, "type"@);
        lemma_lookup_drop_back(e1 + e2 + e3 + e4 + e5 + e6, e7, "type"@);
        lemma_lookup_drop_back(e1 + e2 + e3 + e4 + e5, e6, "type"@);
        lemma_lookup_drop_back(e1 + e2 + e3 + e4, e5, "type"@);
        lemma_lookup_drop_back(e1 + e2 + e3, e4, "type"@);
        lemma_lookup_skip_front(e1 + e2, e3, "type"@);
        lemma_lookup_drop_back(e1 + e2 + e3 + e4 + e5 + e6 + e7, e8, "format"@);
        lemma_lookup_drop_back(e1 + e2 + e3 + e4 + e5 + e6, e7, "format"@);
        lemma_lookup_drop_back(e1 + e2 + e3 + e4 + e5, e6, "format"@);
        lemma_lookup_drop_back(e1 + e2 + e3 + e4, e5, "format"@);
        lemma_lookup_skip_front(e1 + e2 + e3, e4, "format"@);
        lemma_lookup_drop_back(e1 + e2 + e3 + e4 + e5 + e6 + e7, e8, "enum"@);
        lemma_lookup_drop_back(e1 + e2 + e3 + e4 + e5 + e6, e7, "enum"@);
        lemma_lookup_drop_back(e1 + e2 + e3 + e4 + e5, e6, "enum"@);
        lemma_lookup_skip_front(e1 + e2 + e3 + e4, e5, "enum"@);
        lemma_lookup_drop_back(e1 + e2 + e3 + e4 + e5 + e6 + e7, e8, "required"@);
        lemma_lookup_drop_back(e1 + e2 + e3 + e4 + e5 + e6, e7, "required"@);
        lemma_lookup_skip_front(e1 + e2 + e3 + e4 + e5, e6, "required"@);
        lemma_lookup_drop_back(e1 + e2 + e3 + e4 + e5 + e6 + e7, e8, "items"@);
        lemma_lookup_skip_front(e1 + e2 + e3 + e4 + e5 + e6, e7, "items"@);
        lemma_lookup_skip_front(e1 + e2 + e3 + e4 + e5 + e6 + e7, e8, "properties"@);
        match self.enum_values {
            Some(ss) => {
                lemma_str_list_round_trip(ss);
            },
            None => {},
        }
        match self.required {
            Some(ss) => {
                lemma_str_list_round_trip(ss);
            },
            None => {},
        }
        match self.items {
            Some(child) => {
                child.lemma_round_trip();
            },
            None => {},
        }
        match self.properties {
            Some(ps) => {
                lemma_schema_map_round_trip(ps);
            },
            None => {},
        }
    }
}

pub open spec fn dec_schema_map(es: Entries) -> Result<Seq<(Seq<char>, SchemaView)>, ErrorView>
    decreases jheight_entries(es), 3nat, es.len(),
{
    if es.len() == 0 {
        Ok(Seq::empty())
    } else {
        proof {
            lemma_jheight_drop_last(es);
            lemma_jheight_elem(es, es.len() - 1);
        }
        match dec_schema_map(es.drop_last()) {
            Ok(init) => match SchemaView::decode(es.last().1) {
                Ok(s) => Ok(init.push((es.last().0, s))),
                Err(e) => Err(e),
            },
            Err(e) => Err(e),
        }
    }
}

pub open spec fn enc_schema_map(ps: Seq<(Seq<char>, SchemaView)>) -> Entries
    decreases ps, 0nat,
{
    Seq::new(
        ps.len(),
        |i: int|
            if 0 <= i < ps.len() {
                (ps[i].0, ps[i].1.encode())
            } else {
                (Seq::empty(), JsonView::Null)
            },
    )
}

/// Once a prefix fails to decode, the whole mapping reports that failure.
pub proof fn lemma_dec_schema_map_err(es: Entries, j: int)
    requires
        0 <= j <= es.len(),
        dec_schema_map(es.take(j)) is Err,
    ensures
        dec_schema_map(es) == dec_schema_map(es.take(j)),
    decreases es.len() - j,
{
    if j == es.len() {
        assert(es.take(j) =~= es);
    } else {
        assert(es.take(j + 1).drop_last() =~= es.take(j));
        lemma_dec_schema_map_err(es, j + 1);
    }
}

/// A named schema mapping reads back from its own encoding.
pub proof fn lemma_schema_map_round_trip(ps: Seq<(Seq<char>, SchemaView)>)
    ensures
        dec_schema_map(enc_schema_map(ps)) == Ok::<_, ErrorView>(ps),
    decreases ps,
{
    if ps.len() == 0 {
        assert(enc_schema_map(ps) =~= Seq::<(Seq<char>, JsonView)>::empty());
        assert(ps =~= Seq::<(Seq<char>, SchemaView)>::empty());
    } else {
        assert(enc_schema_map(ps).drop_last() =~= enc_schema_map(ps.drop_last()));
        lemma_schema_map_round_trip(ps.drop_last());
        ps.last().1.lemma_round_trip();
        assert(ps.drop_last().push(ps.last()) =~= ps);
    }
}

impl Schema {
    #[verifier::loop_isolation(false)]
    pub fn decode(v: &Json) -> (r: Result<Schema, Error>)
        ensures
            rv(r) == SchemaView::decode(v@),
        decreases jheight(v@), 0nat, 0nat,
    {
        match v {
            Json::Obj(es) => decode_schema_obj(es),
            _ => Err(Error::SchemaMismatch("schema".to_owned())),
        }
    }

    #[verifier::loop_isolation(false)]
    pub fn encode(&self) -> (r: Json)
        ensures
            r@ == self.deep_view().encode(),
        decreases *self, 1nat,
    {
        let mut out: Vec<(String, Json)> = Vec::new();
        crate::codec::push_opt_str(&mut out, "$ref", &self.ref_path);
        crate::codec::push_opt_str(&mut out, "description", &self.description);
        crate::codec::push_opt_str(&mut out, "type", &self.schema_type);
        crate::codec::push_opt_str(&mut out, "format", &self.format);
        crate::codec::push_opt_str_list(&mut out, "enum", &self.enum_values);
        crate::codec::push_opt_str_list(&mut out, "required", &self.required);
        let items: Option<Json> = match &self.items {
            Some(child) => Some(child.encode()),
            None => None,
        };
        crate::codec::push_opt(&mut out, "items", items);
        let properties: Option<Json> = match &self.properties {
            Some(props) => {
                let n = props.len();
                let mut pout: Vec<(String, Json)> = Vec::new();
                let mut i: usize = 0;
                while i < n
                    invariant
                        i <= n,
                        n == props.len(),
                        pout@.len() == i,
                        forall|j: int|
                            0 <= j < i ==> pout@[j].0@ == props@[j].0@ && pout@[j].1@
                                == props@[j].1.deep_view().encode(),
                    decreases n - i,
                {
                    let k = props[i].0.clone();
                    let pv = props[i].1.encode();
                    pout.push((k, pv));
                    i = i + 1;
                }
                proof {
                    assert(view_entries(pout@) =~= enc_schema_map(
                        view_schema_entries(props@),
                    ));
                }
                Some(Json::Obj(pout))
            },
            None => None,
        };
        crate::codec::push_opt(&mut out, "properties", properties);
        proof {
            assert(view_entries(out@) =~= self.deep_view().enc());
        }
        Json::Obj(out)
    }
}

#[verifier::loop_isolation(false)]
fn decode_schema_obj(es: &Vec<(String, Json)>) -> (r: Result<Schema, Error>)
    ensures
        rv(r) == SchemaView::decode_obj(view_entries(es@)),
    decreases jheight_entries(view_entries(es@)), 2nat, 0nat,
{
    let ref_path = match get_opt_str(es, "$ref") {
        Ok(x) => x,
        Err(e) => return Err(e),
    };
    let description = match get_opt_str(es, "description") {
        Ok(x) => x,
        Err(e) => return Err(e),
    };
    let schema_type = match get_opt_str(es, "type") {
        Ok(x) => x,
        Err(e) => return Err(e),
    };
    let format = match get_opt_str(es, "format") {
        Ok(x) => x,
        Err(e) => return Err(e),
    };
    let enum_values = match get_opt_str_list(es, "enum") {
        Ok(x) => x,
        Err(e) => return Err(e),
    };
    let required = match get_opt_str_list(es, "required") {
        Ok(x) => x,
        Err(e) => return Err(e),
    };
    let items: Option<Box<Schema>> = match obj_get(es, "items") {
        Some(cv) => {
            proof {
                lemma_jheight_lookup(view_entries(es@), "items"@);
            }
            match Schema::decode(cv) {
                Ok(c) => Some(Box::new(c)),
                Err(e) => return Err(e),
            }
        },
        None => None,
    };
    let properties: Option<Vec<(String, Schema)>> = match obj_get(es, "properties") {
        Some(pv) => {
            proof {
                lemma_jheight_lookup(view_entries(es@), "properties"@);
            }
            match pv {
                Json::Obj(ps) => match decode_schema_map(ps) {
                    Ok(m) => Some(m),
                    Err(e) => return Err(e),
                },
                _ => {
                    return Err(Error::SchemaMismatch("properties".to_owned()));
                },
            }
        },
        None => None,
    };
    proof {
        match &properties {
            Some(props) => {
                assert(view_schema_entries(props@) =~= props.deep_view());
            },
            None => {},
        }
    }
    Ok(
        Schema {
            ref_path,
            description,
            schema_type,
            format,
            enum_values,
            required,
            items,
            properties,
        },
    )
}

#[verifier::loop_isolation(false)]
fn decode_schema_map(es: &Vec<(String, Json)>) -> (r: Result<Vec<(String, Schema)>, Error>)
    ensures
        rv(r) == dec_schema_map(view_entries(es@)),
    decreases jheight_entries(view_entries(es@)), 3nat, 0nat,
{
    let vw = Ghost(view_entries(es@));
    let n = es.len();
    let mut out: Vec<(String, Schema)> = Vec::new();
    let mut i: usize = 0;
    proof {
        assert(vw@.take(0) =~= Seq::<(Seq<char>, JsonView)>::empty());
        assert(out.deep_view() =~= Seq::<(Seq<char>, SchemaView)>::empty());
    }
    while i < n
        invariant
            i <= n,
            n == es.len(),
            vw@ == view_entries(es@),
            dec_schema_map(vw@.take(i as int)) == Ok::<_, ErrorView>(out.deep_view()),
        decreases n - i,
    {
        proof {
            assert(vw@.take(i + 1 as int).drop_last() =~= vw@.take(i as int));
            assert(vw@.take(i + 1 as int).last() == vw@[i as int]);
            lemma_jheight_elem(vw@, i as int);
        }
        let prev = Ghost(out.deep_view());
        match Schema::decode(&es[i].1) {
            Ok(s) => {
                let k = es[i].0.clone();
                let kv = Ghost((k@, s.deep_view()));
                out.push((k, s));
                proof {
                    assert(out.deep_view() =~= prev@.push(kv@));
                }
            },
            Err(e) => {
                proof {
                    lemma_dec_schema_map_err(vw@, i + 1 as int);
                }
                return Err(e);
            },
        }
        i = i + 1;
    }
    proof {
        assert(vw@.take(n as int) =~= vw@);
    }
    Ok(out)
}

// ---------------------------------------------------------------------
// Field helpers for nested schemas and named schema mappings.
// ---------------------------------------------------------------------
pub open spec fn opt_schema_field(es: Entries, k: Seq<char>) -> Result<
    Option<SchemaView>,
    ErrorView,
> {
    match lookup(es, k) {
        Some(sv) => match SchemaView::decode(sv) {
            Ok(s) => Ok(Some(s)),
            Err(e) => Err(e),
        },
        None => Ok(None),
    }
}

pub open spec fn opt_schema_entry(k: Seq<char>, v: Option<SchemaView>) -> Entries {
    opt_entry(
        k,
        match v {
            Some(s) => Some(s.encode()),
            None => None,
        },
    )
}

pub fn get_opt_schema(es: &Vec<(String, Json)>, k: &str) -> (r: Result<Option<Schema>, Error>)
    ensures
        rv(r) == opt_schema_field(view_entries(es@), k@),
{
    match obj_get(es, k) {
        Some(sv) => match Schema::decode(sv) {
            Ok(s) => Ok(Some(s)),
            Err(e) => Err(e),
        },
        None => Ok(None),
    }
}

pub fn push_opt_schema(out: &mut Vec<(String, Json)>, k: &str, v: &Option<Schema>)
    ensures
        view_entries(final(out)@) == view_entries(old(out)@) + opt_schema_entry(
            k@,
            v.deep_view(),
        ),
{
    match v {
        Some(s) => {
            let j = s.encode();
            out.push((k.to_owned(), j));
        },
        None => {},
    }
    proof {
        assert(view_entries(out@) =~= view_entries(old(out)@) + opt_schema_entry(
            k@,
            v.deep_view(),
        ));
    }
}

pub open spec fn opt_schema_map_field(es: Entries, k: Seq<char>) -> Result<
    Option<Seq<(Seq<char>, SchemaView)>>,
    ErrorView,
> {
    match lookup(es, k) {
        Some(JsonView::Obj(ps)) => match dec_schema_map(ps) {
            Ok(m) => Ok(Some(m)),
            Err(e) => Err(e),
        },
        Some(_) => Err(ErrorView::SchemaMismatch(k)),
        None => Ok(None),
    }
}

pub open spec fn opt_schema_map_entry(k: Seq<char>, v: Option<Seq<(Seq<char>, SchemaView)>>) -> Entries {
    opt_entry(
        k,
        match v {
            Some(m) => Some(JsonView::Obj(enc_schema_map(m))),
            None => None,
        },
    )
}

pub fn get_opt_schema_map(es: &Vec<(String, Json)>, k: &str) -> (r: Result<
    Option<Vec<(String, Schema)>>,
    Error,
>)
    ensures
        rv(r) == opt_schema_map_field(view_entries(es@), k@),
{
    match obj_get(es, k) {
        Some(v) => match v {
            Json::Obj(ps) => match decode_schema_map(ps) {
                Ok(m) => Ok(Some(m)),
                Err(e) => Err(e),
            },
            _ => Err(Error::SchemaMismatch(k.to_owned())),
        },
        None => Ok(None),
    }
}

pub fn encode_schema_map(m: &Vec<(String, Schema)>) -> (r: Json)
    ensures
        r@ == JsonView::Obj(enc_schema_map(m.deep_view())),
{
    let n = m.len();
    let mut out: Vec<(String, Json)> = Vec::new();
    let mut i: usize = 0;
    while i < n
        invariant
            i <= n,
            n == m.len(),
            out@.len() == i,
            forall|j: int|
                0 <= j < i ==> out@[j].0@ == m@[j].0@ && out@[j].1@ == m@[j].1.deep_view().encode(),
        decreases n - i,
    {
        let k = m[i].0.clone();
        let v = m[i].1.encode();
        out.push((k, v));
        i = i + 1;
    }
    proof {
        assert(view_entries(out@) =~= enc_schema_map(m.deep_view()));
    }
    Json::Obj(out)
}

pub fn push_opt_schema_map(out: &mut Vec<(String, Json)>, k: &str, v: &Option<Vec<(String, Schema)>>)
    ensures
        view_entries(final(out)@) == view_entries(old(out)@) + opt_schema_map_entry(
            k@,
            v.deep_view(),
        ),
{
    match v {
        Some(m) => {
            let j = encode_schema_map(m);
            out.push((k.to_owned(), j));
        },
        None => {},
    }
    proof {
        assert(view_entries(out@) =~= view_entries(old(out)@) + opt_schema_map_entry(
            k@,
            v.deep_view(),
        ));
    }
}

} // verus!
