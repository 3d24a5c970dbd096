//! Support for version 3.0.x documents: the vendor extension store and the
//! version 3 document type.

use vstd::prelude::*;
use crate::codec::{
    entry_lookup, get_req_str, lemma_lookup_drop_back, lemma_lookup_skip_front, push_req,
    push_str, req_entry, req_str_field, str_entry, Entries,
};
use crate::error::{rv, Error, ErrorView};
use crate::json::{
    is_ext_key, check_ext_key, key_absent, lemma_lookup_absent, lemma_lookup_at, lookup, obj_get,
    str_eq, view_entries, Json, JsonView,
};
use crate::op_codec::{
    dec_path_item_map, decode_path_item_map, enc_path_item_map, encode_path_item_map,
    lemma_path_item_map_round_trip,
};
use crate::schema::{ext_wf, keys_unique, Info, InfoView, PathItem, PathItemView, Schema, SchemaView, Tag, TagView};
use crate::schema_codec::{
    get_opt_schema_map, lemma_schema_map_round_trip, opt_schema_map_entry, opt_schema_map_field,
    push_opt_schema_map,
};
use crate::spec_codec::{
    get_opt_tag_list, lemma_tag_list_round_trip, opt_tag_list_entry, opt_tag_list_field,
    push_opt_tag_list,
};
use crate::version::version_supported;

verus! {

broadcast use crate::codec::lemma_req_entry_key, crate::codec::lemma_opt_entry_key;

/// Captured vendor extension fields: the entries of an object whose keys
/// carry the reserved "x-" prefix, in source order, values untouched.
#[derive(Clone, Debug, Default, PartialEq)]
pub struct Extensions {
    pub entries: Vec<(String, Json)>,
}

impl View for Extensions {
    type V = Seq<(Seq<char>, JsonView)>;

    open spec fn view(&self) -> Seq<(Seq<char>, JsonView)> {
        view_entries(self.entries@)
    }
}

impl DeepView for Extensions {
    type V = Seq<(Seq<char>, JsonView)>;

    open spec fn deep_view(&self) -> Seq<(Seq<char>, JsonView)> {
        view_entries(self.entries@)
    }
}

impl Extensions {
    /// An empty store.
    pub fn new() -> (r: Extensions)
        ensures
            r@ == Seq::<(Seq<char>, JsonView)>::empty(),
    {
        let r = Extensions { entries: Vec::new() };
        proof {
            assert(r@ =~= Seq::<(Seq<char>, JsonView)>::empty());
        }
        r
    }

    /// Records one extension entry: the value under `ext_id` replaces an
    /// earlier one in place where the key is already stored, and a new
    /// entry is appended where it is not.
    #[verifier::loop_isolation(false)]
    pub fn add(&mut self, ext_id: String, value: Json)
        ensures
            final(self)@ == spec_insert(old(self)@, ext_id@, value@),
            lookup(final(self)@, ext_id@) == Some(value@),
            forall|k: Seq<char>|
                k != ext_id@ ==> lookup(final(self)@, k) == lookup(old(self)@, k),
            final(self)@.len() == (if lookup(old(self)@, ext_id@) is Some {
                old(self)@.len()
            } else {
                old(self)@.len() + 1
            }),
    {
        proof {
            lemma_insert_semantics(self@, ext_id@, value@);
        }
        let n = self.entries.len();
        let mut i: usize = 0;
        while i < n
            invariant
                i <= n,
                n == self.entries.len(),
                self@ == old(self)@,
                key_absent(self@.take(i as int), ext_id@),
            decreases n - i,
        {
            if str_eq(self.entries[i].0.as_str(), ext_id.as_str()) {
                proof {
                    lemma_lookup_at(self@, ext_id@, i as int);
                    lemma_insert_at(self@, ext_id@, value@, i as int);
                }
                let entry = Ghost((ext_id@, value@));
                self.entries[i] = (ext_id, value);
                proof {
                    assert(self@ =~= old(self)@.update(i as int, entry@));
                }
                return ;
            }
            proof {
                assert(self@.take(i + 1 as int) =~= self@.take(i as int).push(
                    self@[i as int],
                ));
            }
            i = i + 1;
        }
        proof {
            assert(self@.take(n as int) =~= self@);
            lemma_lookup_absent(self@, ext_id@);
            lemma_insert_absent(self@, ext_id@, value@);
        }
        let entry = Ghost((ext_id@, value@));
        self.entries.push((ext_id, value));
        proof {
            assert(self@ =~= old(self)@.push(entry@));
        }
    }

    /// Fetch an extension value by its full key.
    pub fn get(&self, ext_id: &str) -> (r: Option<&Json>)
        ensures
            match r {
                Some(v) => lookup(self@, ext_id@) == Some(v@),
                None => lookup(self@, ext_id@) is None,
            },
    {
        obj_get(&self.entries, ext_id)
    }

    /// A reference to all the captured extension entries.
    pub fn all(&self) -> (r: &Vec<(String, Json)>)
        ensures
            view_entries(r@) == self@,
    {
        &self.entries
    }
}


/// The store after recording `k` with value `v`: the first entry carrying
/// `k` is replaced in place, or a new entry is appended where none did.
pub open spec fn spec_insert(
    es: Seq<(Seq<char>, JsonView)>,
    k: Seq<char>,
    v: JsonView,
) -> Seq<(Seq<char>, JsonView)>
    decreases es.len(),
{
    if es.len() == 0 {
        seq![(k, v)]
    } else if es[0].0 == k {
        seq![(k, v)] + es.drop_first()
    } else {
        seq![es[0]] + spec_insert(es.drop_first(), k, v)
    }
}

/// After an insert the key offers the new value, every other key is
/// untouched, and the count grows exactly where the key was absent.
pub proof fn lemma_insert_semantics(es: Seq<(Seq<char>, JsonView)>, k: Seq<char>, v: JsonView)
    ensures
        lookup(spec_insert(es, k, v), k) == Some(v),
        forall|k2: Seq<char>|
            k2 != k ==> #[trigger] lookup(spec_insert(es, k, v), k2) == lookup(es, k2),
        spec_insert(es, k, v).len() == (if lookup(es, k) is Some {
            es.len() as int
        } else {
            es.len() as int + 1
        }),
    decreases es.len(),
{
    let out = spec_insert(es, k, v);
    if es.len() == 0 {
        assert(out[0] == (k, v));
        assert(out.drop_first() =~= Seq::<(Seq<char>, JsonView)>::empty());
        assert forall|k2: Seq<char>| k2 != k implies #[trigger] lookup(out, k2) == lookup(
            es,
            k2,
        ) by {
            assert(lookup(out.drop_first(), k2) is None);
        }
    } else if es[0].0 == k {
        assert(out[0] == (k, v));
        assert(out.drop_first() =~= es.drop_first());
        assert forall|k2: Seq<char>| k2 != k implies #[trigger] lookup(out, k2) == lookup(
            es,
            k2,
        ) by {
            assert(lookup(out, k2) == lookup(out.drop_first(), k2));
            assert(lookup(es, k2) == lookup(es.drop_first(), k2));
        }
    } else {
        lemma_insert_semantics(es.drop_first(), k, v);
        assert(out[0] == es[0]);
        assert(out.drop_first() =~= spec_insert(es.drop_first(), k, v));
        assert forall|k2: Seq<char>| k2 != k implies #[trigger] lookup(out, k2) == lookup(
            es,
            k2,
        ) by {
            assert(lookup(spec_insert(es.drop_first(), k, v), k2) == lookup(
                es.drop_first(),
                k2,
            ));
        }
    }
}

/// Where the first `i` entries miss the key and entry `i` carries it, the
/// insert replaces entry `i` in place.
pub proof fn lemma_insert_at(es: Seq<(Seq<char>, JsonView)>, k: Seq<char>, v: JsonView, i: int)
    requires
        0 <= i < es.len(),
        key_absent(es.take(i), k),
        es[i].0 == k,
    ensures
        spec_insert(es, k, v) == es.update(i, (k, v)),
    decreases i,
{
    if i == 0 {
        assert(seq![(k, v)] + es.drop_first() =~= es.update(0, (k, v)));
    } else {
        assert(es.take(i)[0] == es[0]);
        assert forall|j: int|
            0 <= j < es.drop_first().take(i - 1).len() implies #[trigger] es.drop_first().take(
            i - 1,
        )[j].0 != k by {
            assert(es.drop_first().take(i - 1)[j] == es.take(i)[j + 1]);
        }
        assert(es.drop_first()[i - 1] == es[i]);
        lemma_insert_at(es.drop_first(), k, v, i - 1);
        assert(seq![es[0]] + es.drop_first().update(i - 1, (k, v)) =~= es.update(i, (k, v)));
    }
}

/// Where no entry carries the key, the insert appends.
pub proof fn lemma_insert_absent(es: Seq<(Seq<char>, JsonView)>, k: Seq<char>, v: JsonView)
    requires
        key_absent(es, k),
    ensures
        spec_insert(es, k, v) == es.push((k, v)),
    decreases es.len(),
{
    if es.len() == 0 {
        assert(seq![(k, v)] =~= es.push((k, v)));
    } else {
        assert forall|j: int|
            0 <= j < es.drop_first().len() implies #[trigger] es.drop_first()[j].0 != k by {
            assert(es.drop_first()[j] == es[j + 1]);
        }
        lemma_insert_absent(es.drop_first(), k, v);
        assert(seq![es[0]] + es.drop_first().push((k, v)) =~= es.push((k, v)));
    }
}

/// Appends every stored extension entry to an entry list under
/// construction, values cloned, order kept.
#[verifier::loop_isolation(false)]
pub fn push_extensions(out: &mut Vec<(String, Json)>, ext: &Extensions)
    ensures
        view_entries(final(out)@) == view_entries(old(out)@) + ext@,
{
    let n = ext.entries.len();
    let mut i: usize = 0;
    proof {
        assert(view_entries(out@) =~= view_entries(old(out)@) + ext@.take(0));
    }
    while i < n
        invariant
            i <= n,
            n == ext.entries.len(),
            view_entries(out@) == view_entries(old(out)@) + ext@.take(i as int),
        decreases n - i,
    {
        let k = ext.entries[i].0.clone();
        let v = ext.entries[i].1.clone();
        let entry = Ghost((k@, v@));
        let snap = Ghost(out@);
        out.push((k, v));
        proof {
            assert(view_entries(out@) =~= view_entries(snap@).push(entry@));
            assert(ext@.take(i + 1 as int) =~= ext@.take(i as int).push(ext@[i as int]));
            assert(view_entries(out@) =~= view_entries(old(out)@) + ext@.take(i + 1 as int));
        }
        i = i + 1;
    }
    proof {
        assert(ext@.take(n as int) =~= ext@);
    }
}

/// The extension entries of `es`: the subsequence of entries whose key
/// carries the extension prefix, in order.
pub open spec fn spec_capture(es: Seq<(Seq<char>, JsonView)>) -> Seq<(Seq<char>, JsonView)>
    decreases es.len(),
{
    if es.len() == 0 {
        Seq::empty()
    } else {
        let init = spec_capture(es.drop_last());
        if is_ext_key(es.last().0) {
            init.push(es.last())
        } else {
            init
        }
    }
}

pub proof fn lemma_capture_append(a: Seq<(Seq<char>, JsonView)>, b: Seq<(Seq<char>, JsonView)>)
    ensures
        spec_capture(a + b) == spec_capture(a) + spec_capture(b),
    decreases b.len(),
{
    if b.len() == 0 {
        assert(a + b =~= a);
        assert(spec_capture(a) + spec_capture(b) =~= spec_capture(a));
    } else {
        assert((a + b).drop_last() =~= a + b.drop_last());
        lemma_capture_append(a, b.drop_last());
        if is_ext_key(b.last().0) {
            assert(spec_capture(a) + spec_capture(b.drop_last()).push(b.last()) =~= (spec_capture(a)
                + spec_capture(b.drop_last())).push(b.last()));
        }
    }
}

/// A list with no extension keys contributes nothing to the capture.
pub proof fn lemma_capture_none(es: Seq<(Seq<char>, JsonView)>)
    requires
        forall|i: int| 0 <= i < es.len() ==> !is_ext_key(#[trigger] es[i].0),
    ensures
        spec_capture(es) == Seq::<(Seq<char>, JsonView)>::empty(),
    decreases es.len(),
{
    if es.len() > 0 {
        lemma_capture_none(es.drop_last());
    }
}

/// A list of extension entries is captured whole.
pub proof fn lemma_capture_all(es: Seq<(Seq<char>, JsonView)>)
    requires
        forall|i: int| 0 <= i < es.len() ==> is_ext_key(#[trigger] es[i].0),
    ensures
        spec_capture(es) == es,
    decreases es.len(),
{
    if es.len() > 0 {
        lemma_capture_all(es.drop_last());
        assert(spec_capture(es.drop_last()).push(es.last()) =~= es);
    }
}

/// Extension capture is a partition: an entry is captured exactly when its
/// key carries the extension prefix; no entry is invented and none is
/// dropped.
pub proof fn lemma_capture_partition(es: Seq<(Seq<char>, JsonView)>)
    ensures
        forall|j: int|
            0 <= j < spec_capture(es).len() ==> is_ext_key(#[trigger] spec_capture(es)[j].0)
                && es.contains(spec_capture(es)[j]),
        forall|i: int|
            0 <= i < es.len() && is_ext_key(#[trigger] es[i].0) ==> spec_capture(es).contains(
                es[i],
            ),
    decreases es.len(),
{
    if es.len() > 0 {
        lemma_capture_partition(es.drop_last());
        let cap = spec_capture(es);
        let init = spec_capture(es.drop_last());
        assert forall|j: int| 0 <= j < cap.len() implies is_ext_key(#[trigger] cap[j].0)
            && es.contains(cap[j]) by {
            if j < init.len() {
                assert(cap[j] == init[j]);
                assert(is_ext_key(spec_capture(es.drop_last())[j].0));
                assert(es.drop_last().contains(spec_capture(es.drop_last())[j]));
                let w = choose|w: int|
                    0 <= w < es.drop_last().len() && es.drop_last()[w] == init[j];
                assert(es[w] == init[j]);
            } else {
                assert(es[es.len() - 1] == cap[j]);
            }
        }
        assert forall|i: int|
            0 <= i < es.len() && is_ext_key(#[trigger] es[i].0) implies cap.contains(es[i]) by {
            if i < es.len() - 1 {
                assert(es.drop_last()[i] == es[i]);
                assert(init.contains(es[i]));
                let w = choose|w: int| 0 <= w < init.len() && init[w] == es[i];
                if is_ext_key(es.last().0) {
                    assert(cap[w] == es[i]);
                } else {
                    assert(cap[w] == es[i]);
                }
            } else {
                assert(cap[cap.len() - 1] == es[i]);
            }
        }
    }
}

/// Collects the extension entries of an object's entry list, values
/// cloned, order kept.
pub fn capture_extensions(es: &Vec<(String, Json)>) -> (r: Extensions)
    ensures
        r@ == spec_capture(view_entries(es@)),
{
    let vw = Ghost(view_entries(es@));
    let n = es.len();
    let mut out = Extensions::new();
    let mut i: usize = 0;
    while i < n
        invariant
            i <= n,
            n == es.len(),
            vw@ == view_entries(es@),
            out@ == spec_capture(vw@.take(i as int)),
        decreases n - i,
    {
        proof {
            assert(vw@.take(i + 1 as int).drop_last() =~= vw@.take(i as int));
            assert(vw@.take(i + 1 as int).last() == vw@[i as int]);
        }
        if check_ext_key(es[i].0.as_str()) {
            let key = es[i].0.clone();
            let val = es[i].1.clone();
            let entry = Ghost((key@, val@));
            let snap = Ghost(out@);
            out.entries.push((key, val));
            proof {
                assert(out@ =~= snap@.push(entry@));
            }
        }
        i = i + 1;
    }
    proof {
        assert(vw@.take(n as int) =~= vw@);
    }
    out
}

// ---------------------------------------------------------------------
// The version 3.0.x document.
// ---------------------------------------------------------------------

/// A version 3.0.x document: the "openapi" key names its version, which
/// must satisfy the version constraint; vendor extension fields on the
/// document are captured verbatim beside the typed fields.
#[derive(Clone, Debug, Default, PartialEq)]
pub struct Spec {
    /// The OpenAPI version of this document.
    pub openapi: String,
    pub info: Info,
    /// Relative paths to the individual endpoints.
    pub paths: Vec<(String, PathItem)>,
    pub definitions: Option<Vec<(String, Schema)>>,
    pub tags: Option<Vec<Tag>>,
    pub extensions: Extensions,
}

#[verifier::ext_equal]
pub struct SpecView {
    pub openapi: Seq<char>,
    pub info: InfoView,
    pub paths: Seq<(Seq<char>, PathItemView)>,
    pub definitions: Option<Seq<(Seq<char>, SchemaView)>>,
    pub tags: Option<Seq<TagView>>,
    pub extensions: Seq<(Seq<char>, JsonView)>,
}

impl DeepView for Spec {
    type V = SpecView;

    open spec fn deep_view(&self) -> SpecView {
        SpecView {
            openapi: self.openapi.deep_view(),
            info: self.info.deep_view(),
            paths: self.paths.deep_view(),
            definitions: self.definitions.deep_view(),
            tags: self.tags.deep_view(),
            extensions: self.extensions.deep_view(),
        }
    }
}

impl SpecView {
    pub open spec fn wf(self) -> bool {
        &&& version_supported(self.openapi)
        &&& keys_unique(self.paths)
        &&& forall|i: int|
            0 <= i < self.paths.len() ==> (#[trigger] self.paths[i].1).wf()
        &&& (self.definitions matches Some(ds) ==> {
            &&& keys_unique(ds)
            &&& forall|i: int| 0 <= i < ds.len() ==> (#[trigger] ds[i].1).wf()
        })
        &&& ext_wf(self.extensions)
    }

    pub open spec fn enc(self) -> Entries {
        str_entry("openapi"@, self.openapi) + req_entry("info"@, self.info.encode()) + req_entry(
            "paths"@,
            JsonView::Obj(enc_path_item_map(self.paths)),
        ) + opt_schema_map_entry("definitions"@, self.definitions) + opt_tag_list_entry(
            "tags"@,
            self.tags,
        ) + self.extensions
    }

    pub open spec fn encode(self) -> JsonView {
        JsonView::Obj(self.enc())
    }

    pub open spec fn decode(v: JsonView) -> Result<SpecView, ErrorView> {
        match v {
            JsonView::Obj(es) => Self::decode_obj(es),
            _ => Err(ErrorView::SchemaMismatch("document"@)),
        }
    }

    pub open spec fn info_field(es: Entries) -> Result<InfoView, ErrorView> {
        match lookup(es, "info"@) {
            Some(iv) => InfoView::decode(iv),
            None => Err(ErrorView::SchemaMismatch("info"@)),
        }
    }

    pub open spec fn paths_field(es: Entries) -> Result<
        Seq<(Seq<char>, PathItemView)>,
        ErrorView,
    > {
        match lookup(es, "paths"@) {
            Some(JsonView::Obj(ps)) => dec_path_item_map(ps),
            Some(_) => Err(ErrorView::SchemaMismatch("paths"@)),
            None => Err(ErrorView::SchemaMismatch("paths"@)),
        }
    }

    /// How a version 3 document decodes: typed fields read by key, and
    /// every entry whose key carries the extension prefix captured beside
    /// them.
    pub open spec fn decode_obj(es: Entries) -> Result<SpecView, ErrorView> {
        match req_str_field(es, "openapi"@) {
            Err(e) => Err(e),
            Ok(openapi) => match Self::info_field(es) {
                Err(e) => Err(e),
                Ok(info) => match Self::paths_field(es) {
                    Err(e) => Err(e),
                    Ok(paths) => match opt_schema_map_field(es, "definitions"@) {
                        Err(e) => Err(e),
                        Ok(definitions) => match opt_tag_list_field(es, "tags"@) {
                            Err(e) => Err(e),
                            Ok(tags) => Ok(
                                SpecView {
                                    openapi,
                                    info,
                                    paths,
                                    definitions,
                                    tags,
                                    extensions: spec_capture(es),
                                },
                            ),
                        },
                    },
                },
            },
        }
    }

    #[verifier::rlimit(100)]
    proof fn lemma_lookups_a(self)
    requires
        ext_wf(self.extensions),
        ensures
            lookup(self.enc(), "openapi"@) == entry_lookup(str_entry("openapi"@, self.openapi)),
            lookup(self.enc(), "info"@) == entry_lookup(req_entry("info"@, self.info.encode())),
            lookup(self.enc(), "paths"@) == entry_lookup(req_entry("paths"@, JsonView::Obj(enc_path_item_map(self.paths)))),
    {
        reveal_strlit("openapi");
        reveal_strlit("info");
        reveal_strlit("paths");
        reveal_strlit("definitions");
        reveal_strlit("tags");
        reveal_strlit("swagger");
        assert("openapi"@.len() == 7);
        assert("info"@.len() == 4);
        assert("paths"@.len() == 5);
        assert("definitions"@.len() == 11);
        assert("tags"@.len() == 4);
        assert("swagger"@.len() == 7);
        assert("info"@[0] == 'i');
        assert("tags"@[0] == 't');
        assert("openapi"@[0] == 'o');
        assert("swagger"@[0] == 's');
        assert("paths"@[0] == 'p');
        assert("definitions"@[0] == 'd');
        let e1 = str_entry("openapi"@, self.openapi);
        let e2 = req_entry("info"@, self.info.encode());
        let e3 = req_entry("paths"@, JsonView::Obj(enc_path_item_map(self.paths)));
        let e4 = opt_schema_map_entry("definitions"@, self.definitions);
        let e5 = opt_tag_list_entry("tags"@, self.tags);
        let ext = self.extensions;
        lemma_lookup_drop_back(e1 + e2 + e3 + e4 + e5, ext, "openapi"@);
        lemma_lookup_drop_back(e1 + e2 + e3 + e4, e5, "openapi"@);
        lemma_lookup_drop_back(e1 + e2 + e3, e4, "openapi"@);
        lemma_lookup_drop_back(e1 + e2, e3, "openapi"@);
        lemma_lookup_drop_back(e1, e2, "openapi"@);
        lemma_lookup_drop_back(e1 + e2 + e3 + e4 + e5, ext, "info"@);
        lemma_lookup_drop_back(e1 + e2 + e3 + e4, e5, "info"@);
        lemma_lookup_drop_back(e1 + e2 + e3, e4, "info"@);
        lemma_lookup_drop_back(e1 + e2, e3, "info"@);
        lemma_lookup_skip_front(e1, e2, "info"@);
        lemma_lookup_drop_back(e1 + e2 + e3 + e4 + e5, ext, "paths"@);
        lemma_lookup_drop_back(e1 + e2 + e3 + e4, e5, "paths"@);
        lemma_lookup_drop_back(e1 + e2 + e3, e4, "paths"@);
        lemma_lookup_skip_front(e1 + e2, e3, "paths"@);
    }

    #[verifier::rlimit(100)]
    proof fn lemma_lookups_b(self)
    requires
        ext_wf(self.extensions),
        ensures
            lookup(self.enc(), "definitions"@) == entry_lookup(opt_schema_map_entry("definitions"@, self.definitions)),
            lookup(self.enc(), "tags"@) == entry_lookup(opt_tag_list_entry("tags"@, self.tags)),
    {
        reveal_strlit("openapi");
        reveal_strlit("info");
        reveal_strlit("paths");
        reveal_strlit("definitions");
        reveal_strlit("tags");
        reveal_strlit("swagger");
        assert("openapi"@.len() == 7);
        assert("info"@.len() == 4);
        assert("paths"@.len() == 5);
        assert("definitions"@.len() == 11);
        assert("tags"@.len() == 4);
        assert("swagger"@.len() == 7);
        assert("info"@[0] == 'i');
        assert("tags"@[0] == 't');
        assert("openapi"@[0] == 'o');
        assert("swagger"@[0] == 's');
        assert("paths"@[0] == 'p');
        assert("definitions"@[0] == 'd');
        let e1 = str_entry("openapi"@, self.openapi);
        let e2 = req_entry("info"@, self.info.encode());
        let e3 = req_entry("paths"@, JsonView::Obj(enc_path_item_map(self.paths)));
        let e4 = opt_schema_map_entry("definitions"@, self.definitions);
        let e5 = opt_tag_list_entry("tags"@, self.tags);
        let ext = self.extensions;
        lemma_lookup_drop_back(e1 + e2 + e3 + e4 + e5, ext, "definitions"@);
        lemma_lookup_drop_back(e1 + e2 + e3 + e4, e5, "definitions"@);
        lemma_lookup_skip_front(e1 + e2 + e3, e4, "definitions"@);
        lemma_lookup_drop_back(e1 + e2 + e3 + e4 + e5, ext, "tags"@);
        lemma_lookup_skip_front(e1 + e2 + e3 + e4, e5, "tags"@);
    }

    /// The extension entries of an encoded version 3 document are exactly
    /// the ones it stores.
    #[verifier::rlimit(100)]
    proof fn lemma_capture_ext(self)
        requires
            ext_wf(self.extensions),
        ensures
            spec_capture(self.enc()) == self.extensions,
    {
        reveal_strlit("openapi");
        reveal_strlit("info");
        reveal_strlit("paths");
        reveal_strlit("definitions");
        reveal_strlit("tags");
        reveal_strlit("swagger");
        assert("openapi"@.len() == 7);
        assert("info"@.len() == 4);
        assert("paths"@.len() == 5);
        assert("definitions"@.len() == 11);
        assert("tags"@.len() == 4);
        assert("swagger"@.len() == 7);
        assert("info"@[0] == 'i');
        assert("tags"@[0] == 't');
        assert("openapi"@[0] == 'o');
        assert("swagger"@[0] == 's');
        assert("paths"@[0] == 'p');
        assert("definitions"@[0] == 'd');
        let e1 = str_entry("openapi"@, self.openapi);
        let e2 = req_entry("info"@, self.info.encode());
        let e3 = req_entry("paths"@, JsonView::Obj(enc_path_item_map(self.paths)));
        let e4 = opt_schema_map_entry("definitions"@, self.definitions);
        let e5 = opt_tag_list_entry("tags"@, self.tags);
        let ext = self.extensions;
        let typed = e1 + e2 + e3 + e4 + e5;
        lemma_capture_append(typed, ext);
        lemma_capture_none(typed);
        lemma_capture_all(ext);
        assert(spec_capture(typed) + spec_capture(ext) =~= self.extensions);
    }

    /// A well-formed version 3 document reads back from its own encoding,
    /// and carries no "swagger" key: the version dispatch sees only its
    /// "openapi" key.
    #[verifier::rlimit(100)]
    pub proof fn lemma_round_trip(self)
        requires
            self.wf(),
        ensures
            Self::decode(self.encode()) == Ok::<_, ErrorView>(self),
            lookup(self.enc(), "swagger"@) is None,
            lookup(self.enc(), "openapi"@) == Some(JsonView::Str(self.openapi)),
    {
        self.lemma_lookups_a();
        self.lemma_lookups_b();
        self.lemma_capture_ext();
        self.info.lemma_round_trip();
        lemma_path_item_map_round_trip(self.paths);
        match self.definitions {
            Some(m) => {
                lemma_schema_map_round_trip(m);
            },
            None => {},
        }
        match self.tags {
            Some(ts) => {
                lemma_tag_list_round_trip(ts);
            },
            None => {},
        }
        reveal_strlit("openapi");
        reveal_strlit("info");
        reveal_strlit("paths");
        reveal_strlit("definitions");
        reveal_strlit("tags");
        reveal_strlit("swagger");
        assert("openapi"@.len() == 7);
        assert("info"@.len() == 4);
        assert("paths"@.len() == 5);
        assert("definitions"@.len() == 11);
        assert("tags"@.len() == 4);
        assert("swagger"@.len() == 7);
        assert("info"@[0] == 'i');
        assert("tags"@[0] == 't');
        assert("openapi"@[0] == 'o');
        assert("swagger"@[0] == 's');
        assert("paths"@[0] == 'p');
        assert("definitions"@[0] == 'd');
        assert(key_absent(self.enc(), "swagger"@));
        lemma_lookup_absent(self.enc(), "swagger"@);
    }
}

impl Spec {
    pub fn decode(v: &Json) -> (r: Result<Spec, Error>)
        ensures
            rv(r) == SpecView::decode(v@),
    {
        match v {
            Json::Obj(es) => Self::decode_obj(es),
            _ => Err(Error::SchemaMismatch("document".to_owned())),
        }
    }

    pub fn decode_obj(es: &Vec<(String, Json)>) -> (r: Result<Spec, Error>)
        ensures
            rv(r) == SpecView::decode_obj(view_entries(es@)),
    {
        let openapi = match get_req_str(es, "openapi") {
            Ok(x) => x,
            Err(e) => return Err(e),
        };
        let info = match obj_get(es, "info") {
            Some(iv) => match Info::decode(iv) {
                Ok(i) => i,
                Err(e) => return Err(e),
            },
            None => {
                return Err(Error::SchemaMismatch("info".to_owned()));
            },
        };
        let paths = match obj_get(es, "paths") {
            Some(pv) => match pv {
                Json::Obj(ps) => match decode_path_item_map(ps) {
                    Ok(m) => m,
                    Err(e) => return Err(e),
                },
                _ => {
                    return Err(Error::SchemaMismatch("paths".to_owned()));
                },
            },
            None => {
                return Err(Error::SchemaMismatch("paths".to_owned()));
            },
        };
        let definitions = match get_opt_schema_map(es, "definitions") {
            Ok(x) => x,
            Err(e) => return Err(e),
        };
        let tags = match get_opt_tag_list(es, "tags") {
            Ok(x) => x,
            Err(e) => return Err(e),
        };
        let extensions = capture_extensions(es);
        Ok(Spec { openapi, info, paths, definitions, tags, extensions })
    }

    pub fn encode(&self) -> (r: Json)
        ensures
            r@ == self.deep_view().encode(),
    {
        let mut out: Vec<(String, Json)> = Vec::new();
        push_str(&mut out, "openapi", &self.openapi);
        let ij = self.info.encode();
        push_req(&mut out, "info", ij);
        let pj = encode_path_item_map(&self.paths);
        push_req(&mut out, "paths", pj);
        push_opt_schema_map(&mut out, "definitions", &self.definitions);
        push_opt_tag_list(&mut out, "tags", &self.tags);
        push_extensions(&mut out, &self.extensions);
        proof {
            assert(view_entries(out@) =~= self.deep_view().enc());
        }
        Json::Obj(out)
    }
}

} // verus!
