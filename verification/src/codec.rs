//! Shared machinery for decoding typed fields out of an object's entry
//! list and for building entry lists back up, with the lemmas that relate
//! a built list to what lookup finds in it.

use vstd::prelude::*;
use crate::error::{rv, Error, ErrorView};
use crate::json::{
    key_absent, lemma_lookup_absent, lemma_lookup_append, lookup, obj_get,
    view_entries, view_items, Json, JsonView,
};

verus! {

pub type Entries = Seq<(Seq<char>, JsonView)>;

// ---------------------------------------------------------------------
// Entry builders: what an encoder appends for one field.
// ---------------------------------------------------------------------
pub open spec fn req_entry(k: Seq<char>, v: JsonView) -> Entries {
    seq![(k, v)]
}

pub open spec fn str_entry(k: Seq<char>, s: Seq<char>) -> Entries {
    req_entry(k, JsonView::Str(s))
}

pub open spec fn opt_entry(k: Seq<char>, v: Option<JsonView>) -> Entries {
    match v {
        Some(j) => seq![(k, j)],
        None => seq![],
    }
}

pub open spec fn opt_str_entry(k: Seq<char>, v: Option<Seq<char>>) -> Entries {
    opt_entry(
        k,
        match v {
            Some(s) => Some(JsonView::Str(s)),
            None => None,
        },
    )
}

pub open spec fn opt_bool_entry(k: Seq<char>, v: Option<bool>) -> Entries {
    opt_entry(
        k,
        match v {
            Some(b) => Some(JsonView::Bool(b)),
            None => None,
        },
    )
}

pub open spec fn opt_i32_entry(k: Seq<char>, v: Option<i32>) -> Entries {
    opt_entry(
        k,
        match v {
            Some(i) => Some(JsonView::Int(i as i64)),
            None => None,
        },
    )
}

/// Every entry that `req_entry` builds carries the key it was built with.
pub broadcast proof fn lemma_req_entry_key(k: Seq<char>, v: JsonView, i: int)
    requires
        0 <= i < req_entry(k, v).len(),
    ensures
        (#[trigger] req_entry(k, v)[i]).0 == k,
{
}

/// Every entry that `opt_entry` builds carries the key it was built with.
pub broadcast proof fn lemma_opt_entry_key(k: Seq<char>, v: Option<JsonView>, i: int)
    requires
        0 <= i < opt_entry(k, v).len(),
    ensures
        (#[trigger] opt_entry(k, v)[i]).0 == k,
{
}

/// The value a one-field entry group offers: nothing where the field was
/// omitted, its single value otherwise.
pub open spec fn entry_lookup(e: Entries) -> Option<JsonView> {
    if e.len() == 0 {
        None
    } else {
        Some(e[0].1)
    }
}

// ---------------------------------------------------------------------
// Field extractors: what a decoder reads for one field.
// ---------------------------------------------------------------------
pub open spec fn req_str_field(es: Entries, k: Seq<char>) -> Result<Seq<char>, ErrorView> {
    match lookup(es, k) {
        Some(JsonView::Str(s)) => Ok(s),
        Some(_) => Err(ErrorView::SchemaMismatch(k)),
        None => Err(ErrorView::SchemaMismatch(k)),
    }
}

pub open spec fn opt_str_field(es: Entries, k: Seq<char>) -> Result<Option<Seq<char>>, ErrorView> {
    match lookup(es, k) {
        Some(JsonView::Str(s)) => Ok(Some(s)),
        Some(_) => Err(ErrorView::SchemaMismatch(k)),
        None => Ok(None),
    }
}

pub open spec fn opt_bool_field(es: Entries, k: Seq<char>) -> Result<Option<bool>, ErrorView> {
    match lookup(es, k) {
        Some(JsonView::Bool(b)) => Ok(Some(b)),
        Some(_) => Err(ErrorView::SchemaMismatch(k)),
        None => Ok(None),
    }
}

pub open spec fn opt_i32_field(es: Entries, k: Seq<char>) -> Result<Option<i32>, ErrorView> {
    match lookup(es, k) {
        Some(JsonView::Int(i)) => if i32::MIN as i64 <= i <= i32::MAX as i64 {
            Ok(Some(i as i32))
        } else {
            Err(ErrorView::SchemaMismatch(k))
        },
        Some(_) => Err(ErrorView::SchemaMismatch(k)),
        None => Ok(None),
    }
}

// ---------------------------------------------------------------------
// Lists of strings.
// ---------------------------------------------------------------------

/// The string elements of `items`, or nothing where some element is not a
/// string.
pub open spec fn dec_str_list(items: Seq<JsonView>) -> Option<Seq<Seq<char>>>
    decreases items.len(),
{
    if items.len() == 0 {
        Some(Seq::empty())
    } else {
        match dec_str_list(items.drop_last()) {
            Some(init) => match items.last() {
                JsonView::Str(s) => Some(init.push(s)),
                _ => None,
            },
            None => None,
        }
    }
}

pub open spec fn enc_str_list(ss: Seq<Seq<char>>) -> Seq<JsonView> {
    Seq::new(ss.len(), |i: int| JsonView::Str(ss[i]))
}

pub open spec fn opt_str_list_field(es: Entries, k: Seq<char>) -> Result<
    Option<Seq<Seq<char>>>,
    ErrorView,
> {
    match lookup(es, k) {
        Some(JsonView::Arr(items)) => match dec_str_list(items) {
            Some(ss) => Ok(Some(ss)),
            None => Err(ErrorView::SchemaMismatch(k)),
        },
        Some(_) => Err(ErrorView::SchemaMismatch(k)),
        None => Ok(None),
    }
}

pub open spec fn opt_str_list_entry(k: Seq<char>, v: Option<Seq<Seq<char>>>) -> Entries {
    opt_entry(
        k,
        match v {
            Some(ss) => Some(JsonView::Arr(enc_str_list(ss))),
            None => None,
        },
    )
}

/// Once a prefix of `items` fails to read as a string list, the whole list
/// does.
pub proof fn lemma_dec_str_list_none(items: Seq<JsonView>, j: int)
    requires
        0 <= j <= items.len(),
        dec_str_list(items.take(j)) is None,
    ensures
        dec_str_list(items) is None,
    decreases items.len() - j,
{
    if j == items.len() {
        assert(items.take(j) =~= items);
    } else {
        assert(items.take(j + 1).drop_last() =~= items.take(j));
        lemma_dec_str_list_none(items, j + 1);
    }
}

/// A string list reads back from its own encoding.
pub proof fn lemma_str_list_round_trip(ss: Seq<Seq<char>>)
    ensures
        dec_str_list(enc_str_list(ss)) == Some(ss),
    decreases ss.len(),
{
    if ss.len() == 0 {
        assert(enc_str_list(ss) =~= Seq::<JsonView>::empty());
    } else {
        assert(enc_str_list(ss).drop_last() =~= enc_str_list(ss.drop_last()));
        lemma_str_list_round_trip(ss.drop_last());
        assert(ss.drop_last().push(ss.last()) =~= ss);
    }
}

// ---------------------------------------------------------------------
// Lookup framing: where a built entry list is split as `a + b + c` and
// the key is absent from `a` and `c`, lookup lands in `b`.
// ---------------------------------------------------------------------
/// Dropping a trailing group without the key leaves lookup unchanged.
pub proof fn lemma_lookup_drop_back(a: Entries, b: Entries, k: Seq<char>)
    requires
        key_absent(b, k),
    ensures
        lookup(a + b, k) == lookup(a, k),
{
    lemma_lookup_absent(b, k);
    lemma_lookup_append(a, b, k);
}

/// Dropping a leading group without the key leaves lookup unchanged.
pub proof fn lemma_lookup_skip_front(a: Entries, b: Entries, k: Seq<char>)
    requires
        key_absent(a, k),
    ensures
        lookup(a + b, k) == lookup(b, k),
{
    lemma_lookup_absent(a, k);
    lemma_lookup_append(a, b, k);
}

pub proof fn lemma_lookup_frame(a: Entries, b: Entries, c: Entries, k: Seq<char>)
    requires
        key_absent(a, k),
        key_absent(c, k),
    ensures
        lookup(a + b + c, k) == lookup(b, k),
{
    lemma_lookup_absent(a, k);
    lemma_lookup_absent(c, k);
    lemma_lookup_append(a, b, k);
    lemma_lookup_append(a + b, c, k);
}

// ---------------------------------------------------------------------
// Exec field getters.
// ---------------------------------------------------------------------
pub fn get_req_str(es: &Vec<(String, Json)>, k: &str) -> (r: Result<String, Error>)
    ensures
        rv(r) == req_str_field(view_entries(es@), k@),
{
    match obj_get(es, k) {
        Some(v) => match v {
            Json::Str(s) => Ok(s.clone()),
            _ => Err(Error::SchemaMismatch(k.to_owned())),
        },
        None => Err(Error::SchemaMismatch(k.to_owned())),
    }
}

pub fn get_opt_str(es: &Vec<(String, Json)>, k: &str) -> (r: Result<Option<String>, Error>)
    ensures
        rv(r) == opt_str_field(view_entries(es@), k@),
{
    match obj_get(es, k) {
        Some(v) => match v {
            Json::Str(s) => Ok(Some(s.clone())),
            _ => Err(Error::SchemaMismatch(k.to_owned())),
        },
        None => Ok(None),
    }
}

pub fn get_opt_bool(es: &Vec<(String, Json)>, k: &str) -> (r: Result<Option<bool>, Error>)
    ensures
        rv(r) == opt_bool_field(view_entries(es@), k@),
{
    match obj_get(es, k) {
        Some(v) => match v {
            Json::Bool(b) => Ok(Some(*b)),
            _ => Err(Error::SchemaMismatch(k.to_owned())),
        },
        None => Ok(None),
    }
}

pub fn get_opt_i32(es: &Vec<(String, Json)>, k: &str) -> (r: Result<Option<i32>, Error>)
    ensures
        rv(r) == opt_i32_field(view_entries(es@), k@),
{
    match obj_get(es, k) {
        Some(v) => match v {
            Json::Int(i) => {
                let i = *i;
                if i32::MIN as i64 <= i && i <= i32::MAX as i64 {
                    Ok(Some(i as i32))
                } else {
                    Err(Error::SchemaMismatch(k.to_owned()))
                }
            },
            _ => Err(Error::SchemaMismatch(k.to_owned())),
        },
        None => Ok(None),
    }
}

fn decode_str_list(items: &Vec<Json>, k: &str) -> (r: Result<Vec<String>, Error>)
    ensures
        match r {
            Ok(ss) => dec_str_list(view_items(items@)) == Some(ss.deep_view()),
            Err(e) => dec_str_list(view_items(items@)) is None && e@ == ErrorView::SchemaMismatch(
                k@,
            ),
        },
{
    let iv = Ghost(view_items(items@));
    let n = items.len();
    let mut out: Vec<String> = Vec::new();
    let mut i: usize = 0;
    while i < n
        invariant
            i <= n,
            n == items.len(),
            iv@ == view_items(items@),
            dec_str_list(iv@.take(i as int)) == Some(out.deep_view()),
        decreases n - i,
    {
        proof {
            assert(iv@.take(i + 1 as int).drop_last() =~= iv@.take(i as int));
            assert(iv@.take(i + 1 as int).last() == iv@[i as int]);
        }
        let prev = Ghost(out.deep_view());
        match &items[i] {
            Json::Str(s) => {
                let sv = Ghost(s@);
                out.push(s.clone());
                proof {
                    assert(out.deep_view() =~= prev@.push(sv@));
                }
            },
            _ => {
                proof {
                    lemma_dec_str_list_none(iv@, i + 1 as int);
                }
                return Err(Error::SchemaMismatch(k.to_owned()));
            },
        }
        i = i + 1;
    }
    proof {
        assert(iv@.take(n as int) =~= iv@);
    }
    Ok(out)
}

pub fn get_opt_str_list(es: &Vec<(String, Json)>, k: &str) -> (r: Result<
    Option<Vec<String>>,
    Error,
>)
    ensures
        rv(r) == opt_str_list_field(view_entries(es@), k@),
{
    match obj_get(es, k) {
        Some(v) => match v {
            Json::Arr(items) => match decode_str_list(items, k) {
                Ok(ss) => Ok(Some(ss)),
                Err(e) => Err(e),
            },
            _ => Err(Error::SchemaMismatch(k.to_owned())),
        },
        None => Ok(None),
    }
}

// ---------------------------------------------------------------------
// Exec entry builders.
// ---------------------------------------------------------------------
pub fn push_req(out: &mut Vec<(String, Json)>, k: &str, v: Json)
    ensures
        view_entries(final(out)@) == view_entries(old(out)@) + req_entry(k@, v@),
{
    let gv = Ghost(v@);
    out.push((k.to_owned(), v));
    proof {
        assert(view_entries(out@) =~= view_entries(old(out)@) + req_entry(k@, gv@));
    }
}

pub fn push_str(out: &mut Vec<(String, Json)>, k: &str, s: &String)
    ensures
        view_entries(final(out)@) == view_entries(old(out)@) + str_entry(k@, s@),
{
    out.push((k.to_owned(), Json::Str(s.clone())));
    proof {
        assert(view_entries(out@) =~= view_entries(old(out)@) + str_entry(k@, s@));
    }
}

pub fn push_opt(out: &mut Vec<(String, Json)>, k: &str, v: Option<Json>)
    ensures
        view_entries(final(out)@) == view_entries(old(out)@) + opt_entry(
            k@,
            match v {
                Some(j) => Some(j@),
                None => None,
            },
        ),
{
    let gv = Ghost(
        match &v {
            Some(j) => Some(j@),
            None => None::<JsonView>,
        },
    );
    match v {
        Some(j) => {
            out.push((k.to_owned(), j));
        },
        None => {},
    }
    proof {
        assert(view_entries(out@) =~= view_entries(old(out)@) + opt_entry(k@, gv@));
    }
}

pub fn push_opt_str(out: &mut Vec<(String, Json)>, k: &str, v: &Option<String>)
    ensures
        view_entries(final(out)@) == view_entries(old(out)@) + opt_str_entry(k@, v.deep_view()),
{
    match v {
        Some(s) => {
            out.push((k.to_owned(), Json::Str(s.clone())));
        },
        None => {},
    }
    proof {
        assert(view_entries(out@) =~= view_entries(old(out)@) + opt_str_entry(k@, v.deep_view()));
    }
}

pub fn push_opt_bool(out: &mut Vec<(String, Json)>, k: &str, v: &Option<bool>)
    ensures
        view_entries(final(out)@) == view_entries(old(out)@) + opt_bool_entry(k@, *v),
{
    match v {
        Some(b) => {
            out.push((k.to_owned(), Json::Bool(*b)));
        },
        None => {},
    }
    proof {
        assert(view_entries(out@) =~= view_entries(old(out)@) + opt_bool_entry(k@, *v));
    }
}

pub fn push_opt_i32(out: &mut Vec<(String, Json)>, k: &str, v: &Option<i32>)
    ensures
        view_entries(final(out)@) == view_entries(old(out)@) + opt_i32_entry(k@, *v),
{
    match v {
        Some(i) => {
            out.push((k.to_owned(), Json::Int(*i as i64)));
        },
        None => {},
    }
    proof {
        assert(view_entries(out@) =~= view_entries(old(out)@) + opt_i32_entry(k@, *v));
    }
}

fn encode_str_list(ss: &Vec<String>) -> (r: Json)
    ensures
        r@ == JsonView::Arr(enc_str_list(ss.deep_view())),
{
    let n = ss.len();
    let mut out: Vec<Json> = Vec::new();
    let mut i: usize = 0;
    while i < n
        invariant
            i <= n,
            n == ss.len(),
            out@.len() == i,
            forall|j: int| 0 <= j < i ==> out@[j]@ == JsonView::Str(ss@[j]@),
        decreases n - i,
    {
        out.push(Json::Str(ss[i].clone()));
        i = i + 1;
    }
    proof {
        assert(view_items(out@) =~= enc_str_list(ss.deep_view()));
    }
    Json::Arr(out)
}

pub fn push_opt_str_list(out: &mut Vec<(String, Json)>, k: &str, v: &Option<Vec<String>>)
    ensures
        view_entries(final(out)@) == view_entries(old(out)@) + opt_str_list_entry(
            k@,
            v.deep_view(),
        ),
{
    match v {
        Some(ss) => {
            let j = encode_str_list(ss);
            out.push((k.to_owned(), j));
        },
        None => {},
    }
    proof {
        assert(view_entries(out@) =~= view_entries(old(out)@) + opt_str_list_entry(
            k@,
            v.deep_view(),
        ));
    }
}

} // verus!
