//! The generic value tree that stands between textual JSON/YAML and the
//! typed document model: scalars, arrays, and objects held as ordered
//! key/value entry lists. YAML input is read into the same tree.

use vstd::prelude::*;
use vstd::string::StrSliceExecFns;

verus! {

/// Mathematical model of a value tree: object entries are an ordered
/// sequence of key/value pairs.
#[verifier::ext_equal]
pub enum JsonView {
    Null,
    Bool(bool),
    Int(i64),
    Str(Seq<char>),
    Arr(Seq<JsonView>),
    Obj(Seq<(Seq<char>, JsonView)>),
}

/// A scalar, array, or object decoded from JSON or YAML text.
/// An object keeps its entries in source order.
#[derive(Debug, PartialEq)]
pub enum Json {
    Null,
    Bool(bool),
    Int(i64),
    Str(String),
    Arr(Vec<Json>),
    Obj(Vec<(String, Json)>),
}

pub open spec fn view_items(s: Seq<Json>) -> Seq<JsonView>
    decreases s,
{
    Seq::new(
        s.len(),
        |i: int|
            if 0 <= i < s.len() {
                view_value(s[i])
            } else {
                JsonView::Null
            },
    )
}

pub open spec fn view_entries(s: Seq<(String, Json)>) -> Seq<(Seq<char>, JsonView)>
    decreases s,
{
    Seq::new(
        s.len(),
        |i: int|
            if 0 <= i < s.len() {
                (s[i].0@, view_value(s[i].1))
            } else {
                (Seq::empty(), JsonView::Null)
            },
    )
}

pub open spec fn view_value(v: Json) -> JsonView
    decreases v,
{
    match v {
        Json::Null => JsonView::Null,
        Json::Bool(b) => JsonView::Bool(b),
        Json::Int(i) => JsonView::Int(i),
        Json::Str(s) => JsonView::Str(s@),
        Json::Arr(items) => JsonView::Arr(view_items(items@)),
        Json::Obj(entries) => JsonView::Obj(view_entries(entries@)),
    }
}

impl View for Json {
    type V = JsonView;

    open spec fn view(&self) -> JsonView {
        view_value(*self)
    }
}

impl DeepView for Json {
    type V = JsonView;

    open spec fn deep_view(&self) -> JsonView {
        view_value(*self)
    }
}

/// First entry in `es` whose key is `k`, if any.
pub open spec fn lookup(es: Seq<(Seq<char>, JsonView)>, k: Seq<char>) -> Option<JsonView>
    decreases es.len(),
{
    if es.len() == 0 {
        None
    } else if es[0].0 == k {
        Some(es[0].1)
    } else {
        lookup(es.drop_first(), k)
    }
}

/// No entry in `es` carries the key `k`.
pub open spec fn key_absent(es: Seq<(Seq<char>, JsonView)>, k: Seq<char>) -> bool {
    forall|i: int| 0 <= i < es.len() ==> es[i].0 != k
}

pub proof fn lemma_lookup_absent(es: Seq<(Seq<char>, JsonView)>, k: Seq<char>)
    ensures
        (lookup(es, k) is None) == key_absent(es, k),
    decreases es.len(),
{
    if es.len() > 0 {
        lemma_lookup_absent(es.drop_first(), k);
        if es[0].0 != k {
            if key_absent(es.drop_first(), k) {
                assert forall|i: int| 0 <= i < es.len() implies es[i].0 != k by {
                    if i >= 1 {
                        assert(es.drop_first()[i - 1] == es[i]);
                    }
                }
            }
            if key_absent(es, k) {
                assert forall|i: int|
                    0 <= i < es.drop_first().len() implies es.drop_first()[i].0 != k by {
                    assert(es.drop_first()[i] == es[i + 1]);
                }
            }
        }
    }
}

pub proof fn lemma_lookup_append(a: Seq<(Seq<char>, JsonView)>, b: Seq<(Seq<char>, JsonView)>, k: Seq<char>)
    ensures
        lookup(a + b, k) == (match lookup(a, k) {
            Some(v) => Some(v),
            None => lookup(b, k),
        }),
    decreases a.len(),
{
    if a.len() == 0 {
        assert(a + b =~= b);
    } else {
        assert((a + b).drop_first() =~= a.drop_first() + b);
        lemma_lookup_append(a.drop_first(), b, k);
    }
}

/// If the first `i` entries miss `k` and entry `i` carries it, lookup finds
/// entry `i`.
pub proof fn lemma_lookup_at(es: Seq<(Seq<char>, JsonView)>, k: Seq<char>, i: int)
    requires
        0 <= i < es.len(),
        key_absent(es.take(i), k),
        es[i].0 == k,
    ensures
        lookup(es, k) == Some(es[i].1),
{
    lemma_lookup_absent(es.take(i), k);
    lemma_lookup_append(es.take(i), es.skip(i), k);
    assert(es.take(i) + es.skip(i) =~= es);
    assert(es.skip(i)[0] == es[i]);
}

/// Whether two string slices hold the same character sequence.
pub fn str_eq(a: &str, b: &str) -> (r: bool)
    ensures
        r == (a@ == b@),
{
    let na = a.unicode_len();
    let nb = b.unicode_len();
    if na != nb {
        return false;
    }
    let mut i: usize = 0;
    while i < na
        invariant
            i <= na,
            na == a@.len(),
            nb == b@.len(),
            na == nb,
            forall|j: int| 0 <= j < i ==> a@[j] == b@[j],
        decreases na - i,
    {
        if a.get_char(i) != b.get_char(i) {
            return false;
        }
        i = i + 1;
    }
    proof {
        assert(a@ =~= b@);
    }
    true
}

/// First value stored under key `k`, if any.
pub fn obj_get<'a>(es: &'a Vec<(String, Json)>, k: &str) -> (r: Option<&'a Json>)
    ensures
        match r {
            Some(v) => lookup(view_entries(es@), k@) == Some(v@),
            None => lookup(view_entries(es@), k@) is None,
        },
{
    let n = es.len();
    let mut i: usize = 0;
    while i < n
        invariant
            i <= n,
            n == es.len(),
            key_absent(view_entries(es@).take(i as int), k@),
        decreases n - i,
    {
        if str_eq(es[i].0.as_str(), k) {
            proof {
                lemma_lookup_at(view_entries(es@), k@, i as int);
            }
            return Some(&es[i].1);
        }
        proof {
            assert(view_entries(es@).take(i + 1 as int) =~= view_entries(es@).take(i as int).push(
                view_entries(es@)[i as int],
            ));
        }
        i = i + 1;
    }
    proof {
        assert(view_entries(es@).take(n as int) =~= view_entries(es@));
        lemma_lookup_absent(view_entries(es@), k@);
    }
    None
}

/// The nesting height of a value: scalars are flat, and a container sits
/// one level above its deepest element. It bounds the recursion of the
/// schema decoder.
pub open spec fn jheight(v: JsonView) -> nat
    decreases v,
{
    match v {
        JsonView::Arr(items) => jheight_list(items) + 1,
        JsonView::Obj(es) => jheight_entries(es) + 1,
        _ => 0,
    }
}

pub open spec fn jheight_list(items: Seq<JsonView>) -> nat
    decreases items,
{
    if items.len() == 0 {
        0
    } else {
        let h0 = jheight(items[0]);
        let hr = jheight_list(items.drop_first());
        if h0 > hr {
            h0
        } else {
            hr
        }
    }
}

pub open spec fn jheight_entries(es: Seq<(Seq<char>, JsonView)>) -> nat
    decreases es,
{
    if es.len() == 0 {
        0
    } else {
        let h0 = jheight(es[0].1);
        let hr = jheight_entries(es.drop_first());
        if h0 > hr {
            h0
        } else {
            hr
        }
    }
}

/// An entry's value never rises above the entry list's height.
pub proof fn lemma_jheight_elem(es: Seq<(Seq<char>, JsonView)>, i: int)
    requires
        0 <= i < es.len(),
    ensures
        jheight(es[i].1) <= jheight_entries(es),
    decreases es.len(),
{
    if i > 0 {
        lemma_jheight_elem(es.drop_first(), i - 1);
        assert(es.drop_first()[i - 1] == es[i]);
    }
}

/// A value that lookup finds never rises above the entry list's height.
pub proof fn lemma_jheight_lookup(es: Seq<(Seq<char>, JsonView)>, k: Seq<char>)
    requires
        lookup(es, k) is Some,
    ensures
        jheight(lookup(es, k)->Some_0) <= jheight_entries(es),
    decreases es.len(),
{
    if es.len() > 0 && es[0].0 != k {
        lemma_jheight_lookup(es.drop_first(), k);
    }
}

/// Dropping the last entry cannot raise the height.
pub proof fn lemma_jheight_drop_last(es: Seq<(Seq<char>, JsonView)>)
    requires
        es.len() > 0,
    ensures
        jheight_entries(es.drop_last()) <= jheight_entries(es),
    decreases es.len(),
{
    if es.len() == 1 {
        assert(es.drop_last() =~= Seq::<(Seq<char>, JsonView)>::empty());
    } else {
        lemma_jheight_drop_last(es.drop_first());
        assert(es.drop_last().drop_first() =~= es.drop_first().drop_last());
        assert(es.drop_last()[0] == es[0]);
    }
}

/// Whether `k` is a vendor extension key: it begins with the reserved
/// prefix "x-".
pub open spec fn is_ext_key(k: Seq<char>) -> bool {
    k.len() >= 2 && k[0] == 'x' && k[1] == '-'
}

pub fn check_ext_key(k: &str) -> (r: bool)
    ensures
        r == is_ext_key(k@),
{
    if k.unicode_len() >= 2 {
        let c0 = k.get_char(0);
        let c1 = k.get_char(1);
        c0 == 'x' && c1 == '-'
    } else {
        false
    }
}

#[verifier::loop_isolation(false)]
fn clone_value(v: &Json) -> (r: Json)
    ensures
        r@ == v@,
    decreases *v,
{
    match v {
        Json::Null => Json::Null,
        Json::Bool(b) => Json::Bool(*b),
        Json::Int(i) => Json::Int(*i),
        Json::Str(s) => Json::Str(s.clone()),
        Json::Arr(items) => {
            let n = items.len();
            let mut out: Vec<Json> = Vec::new();
            let mut i: usize = 0;
            while i < n
                invariant
                    i <= n,
                    n == items.len(),
                    out@.len() == i,
                    forall|j: int| 0 <= j < i ==> out@[j]@ == items@[j]@,
                decreases n - i,
            {
                out.push(clone_value(&items[i]));
                i = i + 1;
            }
            proof {
                assert(view_items(out@) =~= view_items(items@));
            }
            Json::Arr(out)
        },
        Json::Obj(entries) => {
            let n = entries.len();
            let mut out: Vec<(String, Json)> = Vec::new();
            let mut i: usize = 0;
            while i < n
                invariant
                    i <= n,
                    n == entries.len(),
                    out@.len() == i,
                    forall|j: int| 0 <= j < i ==> out@[j].0@ == entries@[j].0@ && out@[j].1@
                        == entries@[j].1@,
                decreases n - i,
            {
                let key = entries[i].0.clone();
                let val = clone_value(&entries[i].1);
                out.push((key, val));
                i = i + 1;
            }
            proof {
                assert(view_entries(out@) =~= view_entries(entries@));
            }
            Json::Obj(out)
        },
    }
}

impl Clone for Json {
    fn clone(&self) -> (r: Self)
        ensures
            r@ == self@,
    {
        clone_value(self)
    }
}

} // verus!
