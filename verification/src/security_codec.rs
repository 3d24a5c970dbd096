//! Decoding and encoding of security schemes: the "type" tag dispatches
//! among the apiKey, oauth2, and basic shapes.

use vstd::prelude::*;
use crate::codec::{
    get_opt_str, get_req_str, lemma_lookup_drop_back, lemma_lookup_skip_front, opt_str_entry,
    opt_str_field, req_entry, req_str_field, str_entry, Entries,
};
use crate::error::{rv, Error, ErrorView};
use crate::json::{lookup, obj_get, str_eq, view_entries, Json, JsonView};
use crate::schema::{Security, SecurityView};

verus! {

broadcast use crate::codec::lemma_req_entry_key, crate::codec::lemma_opt_entry_key;

// ---------------------------------------------------------------------
// Scope mappings: string keys to string values.
// ---------------------------------------------------------------------
pub open spec fn dec_str_map(es: Entries) -> Result<Seq<(Seq<char>, Seq<char>)>, ErrorView>
    decreases es.len(),
{
    if es.len() == 0 {
        Ok(Seq::empty())
    } else {
        match dec_str_map(es.drop_last()) {
            Ok(init) => match es.last().1 {
                JsonView::Str(s) => Ok(init.push((es.last().0, s))),
                _ => Err(ErrorView::SchemaMismatch(es.last().0)),
            },
            Err(e) => Err(e),
        }
    }
}

pub open spec fn enc_str_map(ps: Seq<(Seq<char>, Seq<char>)>) -> Entries {
    Seq::new(
        ps.len(),
        |i: int|
            if 0 <= i < ps.len() {
                (ps[i].0, JsonView::Str(ps[i].1))
            } else {
                (Seq::empty(), JsonView::Null)
            },
    )
}

/// Once a prefix fails to read as a string mapping, the whole mapping
/// reports that failure.
pub proof fn lemma_dec_str_map_err(es: Entries, j: int)
    requires
        0 <= j <= es.len(),
        dec_str_map(es.take(j)) is Err,
    ensures
        dec_str_map(es) == dec_str_map(es.take(j)),
    decreases es.len() - j,
{
    if j == es.len() {
        assert(es.take(j) =~= es);
    } else {
        assert(es.take(j + 1).drop_last() =~= es.take(j));
        lemma_dec_str_map_err(es, j + 1);
    }
}

/// A string mapping reads back from its own encoding.
pub proof fn lemma_str_map_round_trip(ps: Seq<(Seq<char>, Seq<char>)>)
    ensures
        dec_str_map(enc_str_map(ps)) == Ok::<_, ErrorView>(ps),
    decreases ps.len(),
{
    if ps.len() == 0 {
        assert(enc_str_map(ps) =~= Seq::<(Seq<char>, JsonView)>::empty());
        assert(ps =~= Seq::<(Seq<char>, Seq<char>)>::empty());
    } else {
        assert(enc_str_map(ps).drop_last() =~= enc_str_map(ps.drop_last()));
        lemma_str_map_round_trip(ps.drop_last());
        assert(ps.drop_last().push(ps.last()) =~= ps);
    }
}

fn decode_scopes(es: &Vec<(String, Json)>) -> (r: Result<Vec<(String, String)>, Error>)
    ensures
        rv(r) == dec_str_map(view_entries(es@)),
{
    let vw = Ghost(view_entries(es@));
    let n = es.len();
    let mut out: Vec<(String, String)> = Vec::new();
    let mut i: usize = 0;
    proof {
        assert(vw@.take(0) =~= Seq::<(Seq<char>, JsonView)>::empty());
        assert(out.deep_view() =~= Seq::<(Seq<char>, Seq<char>)>::empty());
    }
    while i < n
        invariant
            i <= n,
            n == es.len(),
            vw@ == view_entries(es@),
            dec_str_map(vw@.take(i as int)) == Ok::<_, ErrorView>(out.deep_view()),
        decreases n - i,
    {
        proof {
            assert(vw@.take(i + 1 as int).drop_last() =~= vw@.take(i as int));
            assert(vw@.take(i + 1 as int).last() == vw@[i as int]);
        }
        let prev = Ghost(out.deep_view());
        match &es[i].1 {
            Json::Str(s) => {
                let k = es[i].0.clone();
                let kv = Ghost((k@, s@));
                out.push((k, s.clone()));
                proof {
                    assert(out.deep_view() =~= prev@.push(kv@));
                }
            },
            _ => {
                proof {
                    lemma_dec_str_map_err(vw@, i + 1 as int);
                }
                return Err(Error::SchemaMismatch(es[i].0.clone()));
            },
        }
        i = i + 1;
    }
    proof {
        assert(vw@.take(n as int) =~= vw@);
    }
    Ok(out)
}

fn encode_scopes(m: &Vec<(String, String)>) -> (r: Json)
    ensures
        r@ == JsonView::Obj(enc_str_map(m.deep_view())),
{
    let n = m.len();
    let mut out: Vec<(String, Json)> = Vec::new();
    let mut i: usize = 0;
    while i < n
        invariant
            i <= n,
            n == m.len(),
            out@.len() == i,
            forall|j: int|
                0 <= j < i ==> out@[j].0@ == m@[j].0@ && out@[j].1@ == JsonView::Str(m@[j].1@),
        decreases n - i,
    {
        let k = m[i].0.clone();
        let v = Json::Str(m[i].1.clone());
        out.push((k, v));
        i = i + 1;
    }
    proof {
        assert(view_entries(out@) =~= enc_str_map(m.deep_view()));
    }
    Json::Obj(out)
}

// ---------------------------------------------------------------------
// Security.
// ---------------------------------------------------------------------
impl SecurityView {
    pub open spec fn enc(self) -> Entries {
        match self {
            SecurityView::ApiKey { name, location } => str_entry("type"@, "apiKey"@) + str_entry(
                "name"@,
                name,
            ) + str_entry("in"@, location),
            SecurityView::Oauth2 { flow, authorization_url, token_url, scopes } => str_entry(
                "type"@,
                "oauth2"@,
            ) + str_entry("flow"@, flow) + str_entry("authorizationUrl"@, authorization_url)
                + opt_str_entry("tokenUrl"@, token_url) + req_entry(
                "scopes"@,
                JsonView::Obj(enc_str_map(scopes)),
            ),
            SecurityView::Basic => str_entry("type"@, "basic"@),
        }
    }

    pub open spec fn encode(self) -> JsonView {
        JsonView::Obj(self.enc())
    }

    /// How a security scheme decodes: the mandatory "type" tag routes to
    /// the apiKey, oauth2, or basic shape; any other tag is refused with
    /// the offending value.
    pub open spec fn decode(v: JsonView) -> Result<SecurityView, ErrorView> {
        match v {
            JsonView::Obj(es) => Self::decode_obj(es),
            _ => Err(ErrorView::SchemaMismatch("security"@)),
        }
    }

    pub open spec fn decode_obj(es: Entries) -> Result<SecurityView, ErrorView> {
        match lookup(es, "type"@) {
            Some(JsonView::Str(t)) => if t == "apiKey"@ {
                Self::decode_api_key(es)
            } else if t == "oauth2"@ {
                Self::decode_oauth2(es)
            } else if t == "basic"@ {
                Ok(SecurityView::Basic)
            } else {
                Err(ErrorView::UnrecognizedTag(t))
            },
            Some(_) => Err(ErrorView::SchemaMismatch("type"@)),
            None => Err(ErrorView::SchemaMismatch("type"@)),
        }
    }

    pub open spec fn decode_api_key(es: Entries) -> Result<SecurityView, ErrorView> {
        match req_str_field(es, "name"@) {
            Err(e) => Err(e),
            Ok(name) => match req_str_field(es, "in"@) {
                Err(e) => Err(e),
                Ok(location) => Ok(SecurityView::ApiKey { name, location }),
            },
        }
    }

    pub open spec fn scopes_field(es: Entries) -> Result<Seq<(Seq<char>, Seq<char>)>, ErrorView> {
        match lookup(es, "scopes"@) {
            Some(JsonView::Obj(ss)) => dec_str_map(ss),
            Some(_) => Err(ErrorView::SchemaMismatch("scopes"@)),
            None => Err(ErrorView::SchemaMismatch("scopes"@)),
        }
    }

    pub open spec fn decode_oauth2(es: Entries) -> Result<SecurityView, ErrorView> {
        match req_str_field(es, "flow"@) {
            Err(e) => Err(e),
            Ok(flow) => match req_str_field(es, "authorizationUrl"@) {
                Err(e) => Err(e),
                Ok(authorization_url) => match opt_str_field(es, "tokenUrl"@) {
                    Err(e) => Err(e),
                    Ok(token_url) => match Self::scopes_field(es) {
                        Err(e) => Err(e),
                        Ok(scopes) => Ok(
                            SecurityView::Oauth2 { flow, authorization_url, token_url, scopes },
                        ),
                    },
                },
            },
        }
    }

    /// A security scheme reads back from its own encoding.
    pub proof fn lemma_round_trip(self)
        ensures
            Self::decode(self.encode()) == Ok::<_, ErrorView>(self),
    {
        reveal_strlit("type");
        reveal_strlit("name");
        reveal_strlit("in");
        reveal_strlit("apiKey");
        reveal_strlit("oauth2");
        reveal_strlit("basic");
        reveal_strlit("flow");
        reveal_strlit("authorizationUrl");
        reveal_strlit("tokenUrl");
        reveal_strlit("scopes");
        assert("type"@.len() == 4);
        assert("name"@.len() == 4);
        assert("in"@.len() == 2);
        assert("apiKey"@.len() == 6);
        assert("oauth2"@.len() == 6);
        assert("basic"@.len() == 5);
        assert("flow"@.len() == 4);
        assert("authorizationUrl"@.len() == 16);
        assert("tokenUrl"@.len() == 8);
        assert("scopes"@.len() == 6);
        assert("type"@[0] == 't');
        assert("name"@[0] == 'n');
        assert("flow"@[0] == 'f');
        assert("apiKey"@[0] == 'a');
        assert("oauth2"@[0] == 'o');
        match self {
            SecurityView::ApiKey { name, location } => {
                let e1 = str_entry("type"@, "apiKey"@);
                let e2 = str_entry("name"@, name);
                let e3 = str_entry("in"@, location);
        lemma_lookup_drop_back(e1 + e2, e3, "type"@);
        lemma_lookup_drop_back(e1, e2, "type"@);
        lemma_lookup_drop_back(e1 + e2, e3, "name"@);
        lemma_lookup_skip_front(e1, e2, "name"@);
        lemma_lookup_skip_front(e1 + e2, e3, "in"@);
            },
            SecurityView::Oauth2 { flow, authorization_url, token_url, scopes } => {
                let e1 = str_entry("type"@, "oauth2"@);
                let e2 = str_entry("flow"@, flow);
                let e3 = str_entry("authorizationUrl"@, authorization_url);
                let e4 = opt_str_entry("tokenUrl"@, token_url);
                let e5 = req_entry("scopes"@, JsonView::Obj(enc_str_map(scopes)));
        lemma_lookup_drop_back(e1 + e2 + e3 + e4, e5, "type"@);
        lemma_lookup_drop_back(e1 + e2 + e3, e4, "type"@);
        lemma_lookup_drop_back(e1 + e2, e3, "type"@);
        lemma_lookup_drop_back(e1, e2, "type"@);
        lemma_lookup_drop_back(e1 + e2 + e3 + e4, e5, "flow"@);
        lemma_lookup_drop_back(e1 + e2 + e3, e4, "flow"@);
        lemma_lookup_drop_back(e1 + e2, e3, "flow"@);
        lemma_lookup_skip_front(e1, e2, "flow"@);
        lemma_lookup_drop_back(e1 + e2 + e3 + e4, e5, "authorizationUrl"@);
        lemma_lookup_drop_back(e1 + e2 + e3, e4, "authorizationUrl"@);
        lemma_lookup_skip_front(e1 + e2, e3, "authorizationUrl"@);
        lemma_lookup_drop_back(e1 + e2 + e3 + e4, e5, "tokenUrl"@);
        lemma_lookup_skip_front(e1 + e2 + e3, e4, "tokenUrl"@);
        lemma_lookup_skip_front(e1 + e2 + e3 + e4, e5, "scopes"@);
                lemma_str_map_round_trip(scopes);
            },
            SecurityView::Basic => {},
        }
    }
}

impl Security {
    pub fn decode(v: &Json) -> (r: Result<Security, Error>)
        ensures
            rv(r) == SecurityView::decode(v@),
    {
        match v {
            Json::Obj(es) => {
                match obj_get(es, "type") {
                    Some(tv) => match tv {
                        Json::Str(t) => {
                            if str_eq(t.as_str(), "apiKey") {
                                let name = match get_req_str(es, "name") {
                                    Ok(x) => x,
                                    Err(e) => return Err(e),
                                };
                                let location = match get_req_str(es, "in") {
                                    Ok(x) => x,
                                    Err(e) => return Err(e),
                                };
                                Ok(Security::ApiKey { name, location })
                            } else if str_eq(t.as_str(), "oauth2") {
                                let flow = match get_req_str(es, "flow") {
                                    Ok(x) => x,
                                    Err(e) => return Err(e),
                                };
                                let authorization_url = match get_req_str(es, "authorizationUrl") {
                                    Ok(x) => x,
                                    Err(e) => return Err(e),
                                };
                                let token_url = match get_opt_str(es, "tokenUrl") {
                                    Ok(x) => x,
                                    Err(e) => return Err(e),
                                };
                                let scopes = match obj_get(es, "scopes") {
                                    Some(sv) => match sv {
                                        Json::Obj(ss) => match decode_scopes(ss) {
                                            Ok(m) => m,
                                            Err(e) => return Err(e),
                                        },
                                        _ => {
                                            return Err(
                                                Error::SchemaMismatch("scopes".to_owned()),
                                            );
                                        },
                                    },
                                    None => {
                                        return Err(Error::SchemaMismatch("scopes".to_owned()));
                                    },
                                };
                                Ok(Security::Oauth2 { flow, authorization_url, token_url, scopes })
                            } else if str_eq(t.as_str(), "basic") {
                                Ok(Security::Basic)
                            } else {
                                Err(Error::UnrecognizedTag(t.clone()))
                            }
                        },
                        _ => Err(Error::SchemaMismatch("type".to_owned())),
                    },
                    None => Err(Error::SchemaMismatch("type".to_owned())),
                }
            },
            _ => Err(Error::SchemaMismatch("security".to_owned())),
        }
    }

    pub fn encode(&self) -> (r: Json)
        ensures
            r@ == self.deep_view().encode(),
    {
        match self {
            Security::ApiKey { name, location } => {
                let mut out: Vec<(String, Json)> = Vec::new();
                crate::codec::push_req(&mut out, "type", Json::Str("apiKey".to_owned()));
                crate::codec::push_str(&mut out, "name", name);
                crate::codec::push_str(&mut out, "in", location);
                proof {
                    assert(view_entries(out@) =~= self.deep_view().enc());
                }
                Json::Obj(out)
            },
            Security::Oauth2 { flow, authorization_url, token_url, scopes } => {
                let mut out: Vec<(String, Json)> = Vec::new();
                crate::codec::push_req(&mut out, "type", Json::Str("oauth2".to_owned()));
                crate::codec::push_str(&mut out, "flow", flow);
                crate::codec::push_str(&mut out, "authorizationUrl", authorization_url);
                crate::codec::push_opt_str(&mut out, "tokenUrl", token_url);
                let sj = encode_scopes(scopes);
                crate::codec::push_req(&mut out, "scopes", sj);
                proof {
                    assert(view_entries(out@) =~= self.deep_view().enc());
                }
                Json::Obj(out)
            },
            Security::Basic => {
                let mut out: Vec<(String, Json)> = Vec::new();
                crate::codec::push_req(&mut out, "type", Json::Str("basic".to_owned()));
                proof {
                    assert(view_entries(out@) =~= self.deep_view().enc());
                }
                Json::Obj(out)
            },
        }
    }
}

pub open spec fn dec_security_map(es: Entries) -> Result<Seq<(Seq<char>, SecurityView)>, ErrorView>
    decreases es.len(),
{
    if es.len() == 0 {
        Ok(Seq::empty())
    } else {
        match dec_security_map(es.drop_last()) {
            Ok(init) => match SecurityView::decode(es.last().1) {
                Ok(x) => Ok(init.push((es.last().0, x))),
                Err(e) => Err(e),
            },
            Err(e) => Err(e),
        }
    }
}

pub open spec fn enc_security_map(ps: Seq<(Seq<char>, SecurityView)>) -> Entries {
    Seq::new(
        ps.len(),
        |i: int|
            if 0 <= i < ps.len() {
                (ps[i].0, ps[i].1.encode())
            } else {
                (Seq::empty(), JsonView::Null)
            },
    )
}

/// Once a prefix fails to decode, the whole mapping reports that failure.
pub proof fn lemma_dec_security_map_err(es: Entries, j: int)
    requires
        0 <= j <= es.len(),
        dec_security_map(es.take(j)) is Err,
    ensures
        dec_security_map(es) == dec_security_map(es.take(j)),
    decreases es.len() - j,
{
    if j == es.len() {
        assert(es.take(j) =~= es);
    } else {
        assert(es.take(j + 1).drop_last() =~= es.take(j));
        lemma_dec_security_map_err(es, j + 1);
    }
}

/// A named security scheme mapping reads back from its own encoding.
pub proof fn lemma_security_map_round_trip(ps: Seq<(Seq<char>, SecurityView)>)
    ensures
        dec_security_map(enc_security_map(ps)) == Ok::<_, ErrorView>(ps),
    decreases ps.len(),
{
    if ps.len() == 0 {
        assert(enc_security_map(ps) =~= Seq::<(Seq<char>, JsonView)>::empty());
        assert(ps =~= Seq::<(Seq<char>, SecurityView)>::empty());
    } else {
        assert(enc_security_map(ps).drop_last() =~= enc_security_map(ps.drop_last()));
        lemma_security_map_round_trip(ps.drop_last());
        ps.last().1.lemma_round_trip();
        assert(ps.drop_last().push(ps.last()) =~= ps);
    }
}

pub fn decode_security_map(es: &Vec<(String, Json)>) -> (r: Result<Vec<(String, Security)>, Error>)
    ensures
        rv(r) == dec_security_map(view_entries(es@)),
{
    let vw = Ghost(view_entries(es@));
    let n = es.len();
    let mut out: Vec<(String, Security)> = Vec::new();
    let mut i: usize = 0;
    proof {
        assert(vw@.take(0) =~= Seq::<(Seq<char>, JsonView)>::empty());
        assert(out.deep_view() =~= Seq::<(Seq<char>, SecurityView)>::empty());
    }
    while i < n
        invariant
            i <= n,
            n == es.len(),
            vw@ == view_entries(es@),
            dec_security_map(vw@.take(i as int)) == Ok::<_, ErrorView>(out.deep_view()),
        decreases n - i,
    {
        proof {
            assert(vw@.take(i + 1 as int).drop_last() =~= vw@.take(i as int));
            assert(vw@.take(i + 1 as int).last() == vw@[i as int]);
        }
        let prev = Ghost(out.deep_view());
        match Security::decode(&es[i].1) {
            Ok(x) => {
                let k = es[i].0.clone();
                let kv = Ghost((k@, x.deep_view()));
                out.push((k, x));
                proof {
                    assert(out.deep_view() =~= prev@.push(kv@));
                }
            },
            Err(e) => {
                proof {
                    lemma_dec_security_map_err(vw@, i + 1 as int);
                }
                return Err(e);
            },
        }
        i = i + 1;
    }
    proof {
        assert(vw@.take(n as int) =~= vw@);
    }
    Ok(out)
}

pub fn encode_security_map(m: &Vec<(String, Security)>) -> (r: Json)
    ensures
        r@ == JsonView::Obj(enc_security_map(m.deep_view())),
{
    let n = m.len();
    let mut out: Vec<(String, Json)> = Vec::new();
    let mut i: usize = 0;
    while i < n
        invariant
            i <= n,
            n == m.len(),
            out@.len() == i,
            forall|j: int|
                0 <= j < i ==> out@[j].0@ == m@[j].0@ && out@[j].1@ == m@[j].1.deep_view().encode(),
        decreases n - i,
    {
        let k = m[i].0.clone();
        let v = m[i].1.encode();
        out.push((k, v));
        i = i + 1;
    }
    proof {
        assert(view_entries(out@) =~= enc_security_map(m.deep_view()));
    }
    Json::Obj(out)
}

} // verus!
