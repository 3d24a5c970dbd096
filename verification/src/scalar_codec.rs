//! Decoding and encoding of the scalar pieces: transport schemes and
//! heterogeneous default values.

use vstd::prelude::*;
use crate::codec::{opt_entry, Entries};
use crate::error::{rv, Error, ErrorView};
use crate::json::{lookup, obj_get, str_eq, view_entries, view_items, Json, JsonView};
use crate::schema::{PropertyDefault, PropertyDefaultView, Scheme};

verus! {

// ---------------------------------------------------------------------
// PropertyDefault: integer first, then boolean, then string.
// ---------------------------------------------------------------------
impl PropertyDefaultView {
    pub open spec fn encode(self) -> JsonView {
        match self {
            PropertyDefaultView::Integer(i) => JsonView::Int(i as i64),
            PropertyDefaultView::Boolean(b) => JsonView::Bool(b),
            PropertyDefaultView::String(s) => JsonView::Str(s),
        }
    }

    /// A scalar is classified by its exact type: an integer stays an
    /// integer (when it fits), a boolean a boolean, and a string is the
    /// catch-all for the remaining scalar forms; no cross-type coercion
    /// happens.
    pub open spec fn decode(v: JsonView) -> Result<PropertyDefaultView, ErrorView> {
        match v {
            JsonView::Int(i) => if i32::MIN as i64 <= i <= i32::MAX as i64 {
                Ok(PropertyDefaultView::Integer(i as i32))
            } else {
                Err(ErrorView::SchemaMismatch("default"@))
            },
            JsonView::Bool(b) => Ok(PropertyDefaultView::Boolean(b)),
            JsonView::Str(s) => Ok(PropertyDefaultView::String(s)),
            _ => Err(ErrorView::SchemaMismatch("default"@)),
        }
    }

    /// A default value reads back from its own encoding.
    pub proof fn lemma_round_trip(self)
        ensures
            Self::decode(self.encode()) == Ok::<_, ErrorView>(self),
    {
    }
}

impl PropertyDefault {
    pub fn decode(v: &Json) -> (r: Result<PropertyDefault, Error>)
        ensures
            rv(r) == PropertyDefaultView::decode(v@),
    {
        match v {
            Json::Int(i) => {
                let i = *i;
                if i32::MIN as i64 <= i && i <= i32::MAX as i64 {
                    Ok(PropertyDefault::Integer(i as i32))
                } else {
                    Err(Error::SchemaMismatch("default".to_owned()))
                }
            },
            Json::Bool(b) => Ok(PropertyDefault::Boolean(*b)),
            Json::Str(s) => Ok(PropertyDefault::String(s.clone())),
            _ => Err(Error::SchemaMismatch("default".to_owned())),
        }
    }

    pub fn encode(&self) -> (r: Json)
        ensures
            r@ == self.deep_view().encode(),
    {
        match self {
            PropertyDefault::Integer(i) => Json::Int(*i as i64),
            PropertyDefault::Boolean(b) => Json::Bool(*b),
            PropertyDefault::String(s) => Json::Str(s.clone()),
        }
    }
}

pub open spec fn opt_default_field(es: Entries, k: Seq<char>) -> Result<
    Option<PropertyDefaultView>,
    ErrorView,
> {
    match lookup(es, k) {
        Some(v) => match PropertyDefaultView::decode(v) {
            Ok(d) => Ok(Some(d)),
            Err(e) => Err(e),
        },
        None => Ok(None),
    }
}

pub open spec fn opt_default_entry(k: Seq<char>, v: Option<PropertyDefaultView>) -> Entries {
    opt_entry(
        k,
        match v {
            Some(d) => Some(d.encode()),
            None => None,
        },
    )
}

pub fn get_opt_default(es: &Vec<(String, Json)>, k: &str) -> (r: Result<
    Option<PropertyDefault>,
    Error,
>)
    ensures
        rv(r) == opt_default_field(view_entries(es@), k@),
{
    match obj_get(es, k) {
        Some(v) => match PropertyDefault::decode(v) {
            Ok(d) => Ok(Some(d)),
            Err(e) => Err(e),
        },
        None => Ok(None),
    }
}

pub fn push_opt_default(out: &mut Vec<(String, Json)>, k: &str, v: &Option<PropertyDefault>)
    ensures
        view_entries(final(out)@) == view_entries(old(out)@) + opt_default_entry(
            k@,
            v.deep_view(),
        ),
{
    match v {
        Some(d) => {
            let j = d.encode();
            out.push((k.to_owned(), j));
        },
        None => {},
    }
    proof {
        assert(view_entries(out@) =~= view_entries(old(out)@) + opt_default_entry(
            k@,
            v.deep_view(),
        ));
    }
}

// ---------------------------------------------------------------------
// Scheme: a closed set of lowercase names.
// ---------------------------------------------------------------------
impl Scheme {
    pub open spec fn spec_encode(self) -> JsonView {
        match self {
            Scheme::Http => JsonView::Str("http"@),
            Scheme::Https => JsonView::Str("https"@),
            Scheme::Ws => JsonView::Str("ws"@),
            Scheme::Wss => JsonView::Str("wss"@),
        }
    }

    /// A scheme decodes from one of the four lowercase names; anything
    /// else is refused.
    pub open spec fn spec_decode(v: JsonView) -> Result<Scheme, ErrorView> {
        match v {
            JsonView::Str(s) => if s == "http"@ {
                Ok(Scheme::Http)
            } else if s == "https"@ {
                Ok(Scheme::Https)
            } else if s == "ws"@ {
                Ok(Scheme::Ws)
            } else if s == "wss"@ {
                Ok(Scheme::Wss)
            } else {
                Err(ErrorView::SchemaMismatch("schemes"@))
            },
            _ => Err(ErrorView::SchemaMismatch("schemes"@)),
        }
    }

    /// A scheme reads back from its own encoding.
    pub proof fn lemma_round_trip(self)
        ensures
            Self::spec_decode(self.spec_encode()) == Ok::<_, ErrorView>(self),
    {
        reveal_strlit("http");
        reveal_strlit("https");
        reveal_strlit("ws");
        reveal_strlit("wss");
        assert("http"@.len() == 4);
        assert("https"@.len() == 5);
        assert("ws"@.len() == 2);
        assert("wss"@.len() == 3);
    }

    pub fn decode(v: &Json) -> (r: Result<Scheme, Error>)
        ensures
            rv(r) == Scheme::spec_decode(v@),
    {
        match v {
            Json::Str(s) => {
                if str_eq(s.as_str(), "http") {
                    Ok(Scheme::Http)
                } else if str_eq(s.as_str(), "https") {
                    Ok(Scheme::Https)
                } else if str_eq(s.as_str(), "ws") {
                    Ok(Scheme::Ws)
                } else if str_eq(s.as_str(), "wss") {
                    Ok(Scheme::Wss)
                } else {
                    Err(Error::SchemaMismatch("schemes".to_owned()))
                }
            },
            _ => Err(Error::SchemaMismatch("schemes".to_owned())),
        }
    }

    pub fn encode(&self) -> (r: Json)
        ensures
            r@ == self.spec_encode(),
    {
        match self {
            Scheme::Http => Json::Str("http".to_owned()),
            Scheme::Https => Json::Str("https".to_owned()),
            Scheme::Ws => Json::Str("ws".to_owned()),
            Scheme::Wss => Json::Str("wss".to_owned()),
        }
    }
}

pub open spec fn dec_scheme_list(items: Seq<JsonView>) -> Result<Seq<Scheme>, ErrorView>
    decreases items.len(),
{
    if items.len() == 0 {
        Ok(Seq::empty())
    } else {
        match dec_scheme_list(items.drop_last()) {
            Ok(init) => match Scheme::spec_decode(items.last()) {
                Ok(s) => Ok(init.push(s)),
                Err(e) => Err(e),
            },
            Err(e) => Err(e),
        }
    }
}

pub open spec fn enc_scheme_list(ss: Seq<Scheme>) -> Seq<JsonView> {
    Seq::new(ss.len(), |i: int| ss[i].spec_encode())
}

/// Once a prefix fails to decode, the whole list reports that failure.
pub proof fn lemma_dec_scheme_list_err(items: Seq<JsonView>, j: int)
    requires
        0 <= j <= items.len(),
        dec_scheme_list(items.take(j)) is Err,
    ensures
        dec_scheme_list(items) == dec_scheme_list(items.take(j)),
    decreases items.len() - j,
{
    if j == items.len() {
        assert(items.take(j) =~= items);
    } else {
        assert(items.take(j + 1).drop_last() =~= items.take(j));
        lemma_dec_scheme_list_err(items, j + 1);
    }
}

/// A scheme list reads back from its own encoding.
pub proof fn lemma_scheme_list_round_trip(ss: Seq<Scheme>)
    ensures
        dec_scheme_list(enc_scheme_list(ss)) == Ok::<_, ErrorView>(ss),
    decreases ss.len(),
{
    if ss.len() == 0 {
        assert(enc_scheme_list(ss) =~= Seq::<JsonView>::empty());
        assert(ss =~= Seq::<Scheme>::empty());
    } else {
        assert(enc_scheme_list(ss).drop_last() =~= enc_scheme_list(ss.drop_last()));
        lemma_scheme_list_round_trip(ss.drop_last());
        ss.last().lemma_round_trip();
        assert(ss.drop_last().push(ss.last()) =~= ss);
    }
}

fn decode_scheme_list(items: &Vec<Json>) -> (r: Result<Vec<Scheme>, Error>)
    ensures
        rv(r) == dec_scheme_list(view_items(items@)),
{
    let iv = Ghost(view_items(items@));
    let n = items.len();
    let mut out: Vec<Scheme> = Vec::new();
    let mut i: usize = 0;
    proof {
        assert(iv@.take(0) =~= Seq::<JsonView>::empty());
        assert(out.deep_view() =~= Seq::<Scheme>::empty());
    }
    while i < n
        invariant
            i <= n,
            n == items.len(),
            iv@ == view_items(items@),
            dec_scheme_list(iv@.take(i as int)) == Ok::<_, ErrorView>(out.deep_view()),
        decreases n - i,
    {
        proof {
            assert(iv@.take(i + 1 as int).drop_last() =~= iv@.take(i as int));
            assert(iv@.take(i + 1 as int).last() == iv@[i as int]);
        }
        let prev = Ghost(out.deep_view());
        match Scheme::decode(&items[i]) {
            Ok(s) => {
                out.push(s);
                proof {
                    assert(out.deep_view() =~= prev@.push(s));
                }
            },
            Err(e) => {
                proof {
                    lemma_dec_scheme_list_err(iv@, i + 1 as int);
                }
                return Err(e);
            },
        }
        i = i + 1;
    }
    proof {
        assert(iv@.take(n as int) =~= iv@);
    }
    Ok(out)
}

fn encode_scheme_list(ss: &Vec<Scheme>) -> (r: Json)
    ensures
        r@ == JsonView::Arr(enc_scheme_list(ss.deep_view())),
{
    let n = ss.len();
    let mut out: Vec<Json> = Vec::new();
    let mut i: usize = 0;
    while i < n
        invariant
            i <= n,
            n == ss.len(),
            out@.len() == i,
            forall|j: int| 0 <= j < i ==> out@[j]@ == ss@[j].spec_encode(),
        decreases n - i,
    {
        let s = ss[i].encode();
        out.push(s);
        i = i + 1;
    }
    proof {
        assert(view_items(out@) =~= enc_scheme_list(ss.deep_view()));
    }
    Json::Arr(out)
}

pub open spec fn opt_scheme_list_field(es: Entries, k: Seq<char>) -> Result<
    Option<Seq<Scheme>>,
    ErrorView,
> {
    match lookup(es, k) {
        Some(JsonView::Arr(items)) => match dec_scheme_list(items) {
            Ok(ss) => Ok(Some(ss)),
            Err(e) => Err(e),
        },
        Some(_) => Err(ErrorView::SchemaMismatch(k)),
        None => Ok(None),
    }
}

pub open spec fn opt_scheme_list_entry(k: Seq<char>, v: Option<Seq<Scheme>>) -> Entries {
    opt_entry(
        k,
        match v {
            Some(ss) => Some(JsonView::Arr(enc_scheme_list(ss))),
            None => None,
        },
    )
}

pub fn get_opt_scheme_list(es: &Vec<(String, Json)>, k: &str) -> (r: Result<
    Option<Vec<Scheme>>,
    Error,
>)
    ensures
        rv(r) == opt_scheme_list_field(view_entries(es@), k@),
{
    match obj_get(es, k) {
        Some(v) => match v {
            Json::Arr(items) => match decode_scheme_list(items) {
                Ok(ss) => Ok(Some(ss)),
                Err(e) => Err(e),
            },
            _ => Err(Error::SchemaMismatch(k.to_owned())),
        },
        None => Ok(None),
    }
}

pub fn push_opt_scheme_list(out: &mut Vec<(String, Json)>, k: &str, v: &Option<Vec<Scheme>>)
    ensures
        view_entries(final(out)@) == view_entries(old(out)@) + opt_scheme_list_entry(
            k@,
            v.deep_view(),
        ),
{
    match v {
        Some(ss) => {
            let j = encode_scheme_list(ss);
            out.push((k.to_owned(), j));
        },
        None => {},
    }
    proof {
        assert(view_entries(out@) =~= view_entries(old(out)@) + opt_scheme_list_entry(
            k@,
            v.deep_view(),
        ));
    }
}

} // verus!
