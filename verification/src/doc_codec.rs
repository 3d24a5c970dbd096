//! Decoding and encoding of the descriptive document pieces: contact,
//! license, external documentation, tags, and the info block.

use vstd::prelude::*;
use crate::codec::{
    get_opt_str, get_req_str, lemma_lookup_drop_back, lemma_lookup_frame, lemma_lookup_skip_front,
    opt_entry, opt_str_entry, opt_str_field, push_opt, push_opt_str, push_str, req_str_field, str_entry, Entries,
};
use crate::error::{rv, Error, ErrorView};
use crate::json::{lookup, obj_get, view_entries, view_items, Json, JsonView};
use crate::schema::{
    Contact, ContactView, ExternalDoc, ExternalDocView, Info, InfoView, License, LicenseView, Tag,
    TagView,
};

verus! {

broadcast use crate::codec::lemma_req_entry_key, crate::codec::lemma_opt_entry_key;

// ---------------------------------------------------------------------
// Contact.
// ---------------------------------------------------------------------
impl ContactView {
    /// The object entries a contact encodes to: each present field under
    /// its key, absent fields omitted.
    pub open spec fn enc(self) -> Entries {
        opt_str_entry("name"@, self.name) + opt_str_entry("url"@, self.url) + opt_str_entry(
            "email"@,
            self.email,
        )
    }

    pub open spec fn encode(self) -> JsonView {
        JsonView::Obj(self.enc())
    }

    /// How a contact decodes: each field read by key from the object; a
    /// non-object input is refused.
    pub open spec fn decode(v: JsonView) -> Result<ContactView, ErrorView> {
        match v {
            JsonView::Obj(es) => Self::decode_obj(es),
            _ => Err(ErrorView::SchemaMismatch("contact"@)),
        }
    }

    pub open spec fn decode_obj(es: Entries) -> Result<ContactView, ErrorView> {
        match opt_str_field(es, "name"@) {
            Err(e) => Err(e),
            Ok(name) => match opt_str_field(es, "url"@) {
                Err(e) => Err(e),
                Ok(url) => match opt_str_field(es, "email"@) {
                    Err(e) => Err(e),
                    Ok(email) => Ok(ContactView { name, url, email }),
                },
            },
        }
    }

    /// A contact reads back from its own encoding.
    pub proof fn lemma_round_trip(self)
        ensures
            Self::decode(self.encode()) == Ok::<_, ErrorView>(self),
    {
        reveal_strlit("name");
        reveal_strlit("url");
        reveal_strlit("email");
        let e1 = opt_str_entry("name"@, self.name);
        let e2 = opt_str_entry("url"@, self.url);
        let e3 = opt_str_entry("email"@, self.email);
        let es = self.enc();
        assert("name"@.len() == 4);
        assert("url"@.len() == 3);
        assert("email"@.len() == 5);
        assert(es =~= Seq::empty() + e1 + (e2 + e3));
        lemma_lookup_frame(Seq::empty(), e1, e2 + e3, "name"@);
        lemma_lookup_frame(e1, e2, e3, "url"@);
        assert(es =~= e1 + e2 + e3 + Seq::empty());
        lemma_lookup_frame(e1 + e2, e3, Seq::empty(), "email"@);
    }
}

impl Contact {
    pub fn decode(v: &Json) -> (r: Result<Contact, Error>)
        ensures
            rv(r) == ContactView::decode(v@),
    {
        match v {
            Json::Obj(es) => {
                let name = match get_opt_str(es, "name") {
                    Ok(x) => x,
                    Err(e) => return Err(e),
                };
                let url = match get_opt_str(es, "url") {
                    Ok(x) => x,
                    Err(e) => return Err(e),
                };
                let email = match get_opt_str(es, "email") {
                    Ok(x) => x,
                    Err(e) => return Err(e),
                };
                Ok(Contact { name, url, email })
            },
            _ => Err(Error::SchemaMismatch("contact".to_owned())),
        }
    }

    pub fn encode(&self) -> (r: Json)
        ensures
            r@ == self.deep_view().encode(),
    {
        let mut out: Vec<(String, Json)> = Vec::new();
        push_opt_str(&mut out, "name", &self.name);
        push_opt_str(&mut out, "url", &self.url);
        push_opt_str(&mut out, "email", &self.email);
        proof {
            assert(view_entries(out@) =~= self.deep_view().enc());
        }
        Json::Obj(out)
    }
}

// ---------------------------------------------------------------------
// License.
// ---------------------------------------------------------------------
impl LicenseView {
    pub open spec fn enc(self) -> Entries {
        opt_str_entry("name"@, self.name) + opt_str_entry("url"@, self.url)
    }

    pub open spec fn encode(self) -> JsonView {
        JsonView::Obj(self.enc())
    }

    pub open spec fn decode(v: JsonView) -> Result<LicenseView, ErrorView> {
        match v {
            JsonView::Obj(es) => Self::decode_obj(es),
            _ => Err(ErrorView::SchemaMismatch("license"@)),
        }
    }

    pub open spec fn decode_obj(es: Entries) -> Result<LicenseView, ErrorView> {
        match opt_str_field(es, "name"@) {
            Err(e) => Err(e),
            Ok(name) => match opt_str_field(es, "url"@) {
                Err(e) => Err(e),
                Ok(url) => Ok(LicenseView { name, url }),
            },
        }
    }

    /// A license reads back from its own encoding.
    pub proof fn lemma_round_trip(self)
        ensures
            Self::decode(self.encode()) == Ok::<_, ErrorView>(self),
    {
        reveal_strlit("name");
        reveal_strlit("url");
        assert("name"@.len() == 4);
        assert("url"@.len() == 3);
        let e1 = opt_str_entry("name"@, self.name);
        let e2 = opt_str_entry("url"@, self.url);
        let es = self.enc();
        assert(es =~= Seq::empty() + e1 + e2);
        lemma_lookup_frame(Seq::empty(), e1, e2, "name"@);
        assert(es =~= e1 + e2 + Seq::empty());
        lemma_lookup_frame(e1, e2, Seq::empty(), "url"@);
    }
}

impl License {
    pub fn decode(v: &Json) -> (r: Result<License, Error>)
        ensures
            rv(r) == LicenseView::decode(v@),
    {
        match v {
            Json::Obj(es) => {
                let name = match get_opt_str(es, "name") {
                    Ok(x) => x,
                    Err(e) => return Err(e),
                };
                let url = match get_opt_str(es, "url") {
                    Ok(x) => x,
                    Err(e) => return Err(e),
                };
                Ok(License { name, url })
            },
            _ => Err(Error::SchemaMismatch("license".to_owned())),
        }
    }

    pub fn encode(&self) -> (r: Json)
        ensures
            r@ == self.deep_view().encode(),
    {
        let mut out: Vec<(String, Json)> = Vec::new();
        push_opt_str(&mut out, "name", &self.name);
        push_opt_str(&mut out, "url", &self.url);
        proof {
            assert(view_entries(out@) =~= self.deep_view().enc());
        }
        Json::Obj(out)
    }
}

// ---------------------------------------------------------------------
// ExternalDoc, and lists of them.
// ---------------------------------------------------------------------
impl ExternalDocView {
    pub open spec fn enc(self) -> Entries {
        str_entry("url"@, self.url) + opt_str_entry("description"@, self.description)
    }

    pub open spec fn encode(self) -> JsonView {
        JsonView::Obj(self.enc())
    }

    pub open spec fn decode(v: JsonView) -> Result<ExternalDocView, ErrorView> {
        match v {
            JsonView::Obj(es) => Self::decode_obj(es),
            _ => Err(ErrorView::SchemaMismatch("externalDocs"@)),
        }
    }

    pub open spec fn decode_obj(es: Entries) -> Result<ExternalDocView, ErrorView> {
        match req_str_field(es, "url"@) {
            Err(e) => Err(e),
            Ok(url) => match opt_str_field(es, "description"@) {
                Err(e) => Err(e),
                Ok(description) => Ok(ExternalDocView { url, description }),
            },
        }
    }

    /// An external documentation record reads back from its own encoding.
    pub proof fn lemma_round_trip(self)
        ensures
            Self::decode(self.encode()) == Ok::<_, ErrorView>(self),
    {
        reveal_strlit("url");
        reveal_strlit("description");
        assert("url"@.len() == 3);
        assert("description"@.len() == 11);
        let e1 = str_entry("url"@, self.url);
        let e2 = opt_str_entry("description"@, self.description);
        let es = self.enc();
        assert(es =~= Seq::empty() + e1 + e2);
        lemma_lookup_frame(Seq::empty(), e1, e2, "url"@);
        assert(es =~= e1 + e2 + Seq::empty());
        lemma_lookup_frame(e1, e2, Seq::empty(), "description"@);
    }
}

impl ExternalDoc {
    pub fn decode(v: &Json) -> (r: Result<ExternalDoc, Error>)
        ensures
            rv(r) == ExternalDocView::decode(v@),
    {
        match v {
            Json::Obj(es) => {
                let url = match get_req_str(es, "url") {
                    Ok(x) => x,
                    Err(e) => return Err(e),
                };
                let description = match get_opt_str(es, "description") {
                    Ok(x) => x,
                    Err(e) => return Err(e),
                };
                Ok(ExternalDoc { url, description })
            },
            _ => Err(Error::SchemaMismatch("externalDocs".to_owned())),
        }
    }

    pub fn encode(&self) -> (r: Json)
        ensures
            r@ == self.deep_view().encode(),
    {
        let mut out: Vec<(String, Json)> = Vec::new();
        push_str(&mut out, "url", &self.url);
        push_opt_str(&mut out, "description", &self.description);
        proof {
            assert(view_entries(out@) =~= self.deep_view().enc());
        }
        Json::Obj(out)
    }
}

pub open spec fn dec_extdoc_list(items: Seq<JsonView>) -> Result<Seq<ExternalDocView>, ErrorView>
    decreases items.len(),
{
    if items.len() == 0 {
        Ok(Seq::empty())
    } else {
        match dec_extdoc_list(items.drop_last()) {
            Ok(init) => match ExternalDocView::decode(items.last()) {
                Ok(d) => Ok(init.push(d)),
                Err(e) => Err(e),
            },
            Err(e) => Err(e),
        }
    }
}

pub open spec fn enc_extdoc_list(ds: Seq<ExternalDocView>) -> Seq<JsonView> {
    Seq::new(ds.len(), |i: int| ds[i].encode())
}

/// Once a prefix fails to decode, the whole list reports that failure.
pub proof fn lemma_dec_extdoc_list_err(items: Seq<JsonView>, j: int)
    requires
        0 <= j <= items.len(),
        dec_extdoc_list(items.take(j)) is Err,
    ensures
        dec_extdoc_list(items) == dec_extdoc_list(items.take(j)),
    decreases items.len() - j,
{
    if j == items.len() {
        assert(items.take(j) =~= items);
    } else {
        assert(items.take(j + 1).drop_last() =~= items.take(j));
        lemma_dec_extdoc_list_err(items, j + 1);
    }
}

/// A list of external documentation records reads back from its own
/// encoding.
pub proof fn lemma_extdoc_list_round_trip(ds: Seq<ExternalDocView>)
    ensures
        dec_extdoc_list(enc_extdoc_list(ds)) == Ok::<_, ErrorView>(ds),
    decreases ds.len(),
{
    if ds.len() == 0 {
        assert(enc_extdoc_list(ds) =~= Seq::<JsonView>::empty());
        assert(ds =~= Seq::<ExternalDocView>::empty());
    } else {
        assert(enc_extdoc_list(ds).drop_last() =~= enc_extdoc_list(ds.drop_last()));
        lemma_extdoc_list_round_trip(ds.drop_last());
        ds.last().lemma_round_trip();
        assert(ds.drop_last().push(ds.last()) =~= ds);
    }
}

pub fn decode_extdoc_list(items: &Vec<Json>) -> (r: Result<Vec<ExternalDoc>, Error>)
    ensures
        rv(r) == dec_extdoc_list(view_items(items@)),
{
    let iv = Ghost(view_items(items@));
    let n = items.len();
    let mut out: Vec<ExternalDoc> = Vec::new();
    let mut i: usize = 0;
    proof {
        assert(iv@.take(0) =~= Seq::<JsonView>::empty());
        assert(out.deep_view() =~= Seq::<ExternalDocView>::empty());
    }
    while i < n
        invariant
            i <= n,
            n == items.len(),
            iv@ == view_items(items@),
            dec_extdoc_list(iv@.take(i as int)) == Ok::<_, ErrorView>(out.deep_view()),
        decreases n - i,
    {
        proof {
            assert(iv@.take(i + 1 as int).drop_last() =~= iv@.take(i as int));
            assert(iv@.take(i + 1 as int).last() == iv@[i as int]);
        }
        let prev = Ghost(out.deep_view());
        match ExternalDoc::decode(&items[i]) {
            Ok(d) => {
                let dv = Ghost(d.deep_view());
                out.push(d);
                proof {
                    assert(out.deep_view() =~= prev@.push(dv@));
                }
            },
            Err(e) => {
                proof {
                    lemma_dec_extdoc_list_err(iv@, i + 1 as int);
                }
                return Err(e);
            },
        }
        i = i + 1;
    }
    proof {
        assert(iv@.take(n as int) =~= iv@);
    }
    Ok(out)
}

pub fn encode_extdoc_list(ds: &Vec<ExternalDoc>) -> (r: Json)
    ensures
        r@ == JsonView::Arr(enc_extdoc_list(ds.deep_view())),
{
    let n = ds.len();
    let mut out: Vec<Json> = Vec::new();
    let mut i: usize = 0;
    while i < n
        invariant
            i <= n,
            n == ds.len(),
            out@.len() == i,
            forall|j: int| 0 <= j < i ==> out@[j]@ == ds@[j].deep_view().encode(),
        decreases n - i,
    {
        let d = ds[i].encode();
        out.push(d);
        i = i + 1;
    }
    proof {
        assert(view_items(out@) =~= enc_extdoc_list(ds.deep_view()));
    }
    Json::Arr(out)
}

/// Reads an optional list of external documentation records stored under
/// `k`.
pub open spec fn opt_extdoc_list_field(es: Entries, k: Seq<char>) -> Result<
    Option<Seq<ExternalDocView>>,
    ErrorView,
> {
    match lookup(es, k) {
        Some(JsonView::Arr(items)) => match dec_extdoc_list(items) {
            Ok(ds) => Ok(Some(ds)),
            Err(e) => Err(e),
        },
        Some(_) => Err(ErrorView::SchemaMismatch(k)),
        None => Ok(None),
    }
}

pub open spec fn opt_extdoc_list_entry(k: Seq<char>, v: Option<Seq<ExternalDocView>>) -> Entries {
    opt_entry(
        k,
        match v {
            Some(ds) => Some(JsonView::Arr(enc_extdoc_list(ds))),
            None => None,
        },
    )
}

pub fn get_opt_extdoc_list(es: &Vec<(String, Json)>, k: &str) -> (r: Result<
    Option<Vec<ExternalDoc>>,
    Error,
>)
    ensures
        rv(r) == opt_extdoc_list_field(view_entries(es@), k@),
{
    match obj_get(es, k) {
        Some(v) => match v {
            Json::Arr(items) => match decode_extdoc_list(items) {
                Ok(ds) => Ok(Some(ds)),
                Err(e) => Err(e),
            },
            _ => Err(Error::SchemaMismatch(k.to_owned())),
        },
        None => Ok(None),
    }
}

pub fn push_opt_extdoc_list(out: &mut Vec<(String, Json)>, k: &str, v: &Option<Vec<ExternalDoc>>)
    ensures
        view_entries(final(out)@) == view_entries(old(out)@) + opt_extdoc_list_entry(
            k@,
            v.deep_view(),
        ),
{
    match v {
        Some(ds) => {
            let j = encode_extdoc_list(ds);
            out.push((k.to_owned(), j));
        },
        None => {},
    }
    proof {
        assert(view_entries(out@) =~= view_entries(old(out)@) + opt_extdoc_list_entry(
            k@,
            v.deep_view(),
        ));
    }
}

// ---------------------------------------------------------------------
// Tag.
// ---------------------------------------------------------------------
impl TagView {
    pub open spec fn enc(self) -> Entries {
        str_entry("name"@, self.name) + opt_str_entry("description"@, self.description)
            + opt_extdoc_list_entry("external_docs"@, self.external_docs)
    }

    pub open spec fn encode(self) -> JsonView {
        JsonView::Obj(self.enc())
    }

    pub open spec fn decode(v: JsonView) -> Result<TagView, ErrorView> {
        match v {
            JsonView::Obj(es) => Self::decode_obj(es),
            _ => Err(ErrorView::SchemaMismatch("tags"@)),
        }
    }

    pub open spec fn decode_obj(es: Entries) -> Result<TagView, ErrorView> {
        match req_str_field(es, "name"@) {
            Err(e) => Err(e),
            Ok(name) => match opt_str_field(es, "description"@) {
                Err(e) => Err(e),
                Ok(description) => match opt_extdoc_list_field(es, "external_docs"@) {
                    Err(e) => Err(e),
                    Ok(external_docs) => Ok(TagView { name, description, external_docs }),
                },
            },
        }
    }

    /// A tag reads back from its own encoding.
    pub proof fn lemma_round_trip(self)
        ensures
            Self::decode(self.encode()) == Ok::<_, ErrorView>(self),
    {
        reveal_strlit("name");
        reveal_strlit("description");
        reveal_strlit("external_docs");
        assert("name"@.len() == 4);
        assert("description"@.len() == 11);
        assert("external_docs"@.len() == 13);
        let e1 = str_entry("name"@, self.name);
        let e2 = opt_str_entry("description"@, self.description);
        let e3 = opt_extdoc_list_entry("external_docs"@, self.external_docs);
        let es = self.enc();
        assert(es =~= Seq::empty() + e1 + (e2 + e3));
        lemma_lookup_frame(Seq::empty(), e1, e2 + e3, "name"@);
        lemma_lookup_frame(e1, e2, e3, "description"@);
        assert(es =~= e1 + e2 + e3 + Seq::empty());
        lemma_lookup_frame(e1 + e2, e3, Seq::empty(), "external_docs"@);
        match self.external_docs {
            Some(ds) => {
                lemma_extdoc_list_round_trip(ds);
            },
            None => {},
        }
    }
}

impl Tag {
    pub fn decode(v: &Json) -> (r: Result<Tag, Error>)
        ensures
            rv(r) == TagView::decode(v@),
    {
        match v {
            Json::Obj(es) => {
                let name = match get_req_str(es, "name") {
                    Ok(x) => x,
                    Err(e) => return Err(e),
                };
                let description = match get_opt_str(es, "description") {
                    Ok(x) => x,
                    Err(e) => return Err(e),
                };
                let external_docs = match get_opt_extdoc_list(es, "external_docs") {
                    Ok(x) => x,
                    Err(e) => return Err(e),
                };
                Ok(Tag { name, description, external_docs })
            },
            _ => Err(Error::SchemaMismatch("tags".to_owned())),
        }
    }

    pub fn encode(&self) -> (r: Json)
        ensures
            r@ == self.deep_view().encode(),
    {
        let mut out: Vec<(String, Json)> = Vec::new();
        push_str(&mut out, "name", &self.name);
        push_opt_str(&mut out, "description", &self.description);
        push_opt_extdoc_list(&mut out, "external_docs", &self.external_docs);
        proof {
            assert(view_entries(out@) =~= self.deep_view().enc());
        }
        Json::Obj(out)
    }
}

// ---------------------------------------------------------------------
// Info.
// ---------------------------------------------------------------------
impl InfoView {
    pub open spec fn enc(self) -> Entries {
        opt_str_entry("title"@, self.title) + opt_str_entry("description"@, self.description)
            + opt_str_entry("terms_of_service"@, self.terms_of_service) + opt_entry(
            "contact"@,
            match self.contact {
                Some(c) => Some(c.encode()),
                None => None,
            },
        ) + opt_entry(
            "license"@,
            match self.license {
                Some(l) => Some(l.encode()),
                None => None,
            },
        ) + opt_str_entry("version"@, self.version)
    }

    pub open spec fn encode(self) -> JsonView {
        JsonView::Obj(self.enc())
    }

    pub open spec fn decode(v: JsonView) -> Result<InfoView, ErrorView> {
        match v {
            JsonView::Obj(es) => Self::decode_obj(es),
            _ => Err(ErrorView::SchemaMismatch("info"@)),
        }
    }

    pub open spec fn contact_field(es: Entries) -> Result<Option<ContactView>, ErrorView> {
        match lookup(es, "contact"@) {
            Some(cv) => match ContactView::decode(cv) {
                Ok(c) => Ok(Some(c)),
                Err(e) => Err(e),
            },
            None => Ok(None),
        }
    }

    pub open spec fn license_field(es: Entries) -> Result<Option<LicenseView>, ErrorView> {
        match lookup(es, "license"@) {
            Some(lv) => match LicenseView::decode(lv) {
                Ok(l) => Ok(Some(l)),
                Err(e) => Err(e),
            },
            None => Ok(None),
        }
    }

    pub open spec fn decode_obj(es: Entries) -> Result<InfoView, ErrorView> {
        match opt_str_field(es, "title"@) {
            Err(e) => Err(e),
            Ok(title) => match opt_str_field(es, "description"@) {
                Err(e) => Err(e),
                Ok(description) => match opt_str_field(es, "terms_of_service"@) {
                    Err(e) => Err(e),
                    Ok(terms_of_service) => match Self::contact_field(es) {
                        Err(e) => Err(e),
                        Ok(contact) => match Self::license_field(es) {
                            Err(e) => Err(e),
                            Ok(license) => match opt_str_field(es, "version"@) {
                                Err(e) => Err(e),
                                Ok(version) => Ok(
                                    InfoView {
                                        title,
                                        description,
                                        terms_of_service,
                                        contact,
                                        license,
                                        version,
                                    },
                                ),
                            },
                        },
                    },
                },
            },
        }
    }

    /// An info block reads back from its own encoding.
    pub proof fn lemma_round_trip(self)
        ensures
            Self::decode(self.encode()) == Ok::<_, ErrorView>(self),
    {
        reveal_strlit("title");
        reveal_strlit("description");
        reveal_strlit("terms_of_service");
        reveal_strlit("contact");
        reveal_strlit("license");
        reveal_strlit("version");
        assert("title"@.len() == 5);
        assert("description"@.len() == 11);
        assert("terms_of_service"@.len() == 16);
        assert("contact"@.len() == 7);
        assert("license"@.len() == 7);
        assert("version"@.len() == 7);
        assert("contact"@[0] == 'c');
        assert("license"@[0] == 'l');
        assert("version"@[0] == 'v');
        let e1 = opt_str_entry("title"@, self.title);
        let e2 = opt_str_entry("description"@, self.description);
        let e3 = opt_str_entry("terms_of_service"@, self.terms_of_service);
        let e4 = opt_entry(
            "contact"@,
            match self.contact {
                Some(c) => Some(c.encode()),
                None => None,
            },
        );
        let e5 = opt_entry(
            "license"@,
            match self.license {
                Some(l) => Some(l.encode()),
                None => None,
            },
        );
        let e6 = opt_str_entry("version"@, self.version);
        lemma_lookup_drop_back(e1 + e2 + e3 + e4 + e5, e6, "title"@);
        lemma_lookup_drop_back(e1 + e2 + e3 + e4, e5, "title"@);
        lemma_lookup_drop_back(e1 + e2 + e3, e4, "title"@);
        lemma_lookup_drop_back(e1 + e2, e3, "title"@);
        lemma_lookup_drop_back(e1, e2, "title"@);
        lemma_lookup_drop_back(e1 + e2 + e3 + e4 + e5, e6, "description"@);
        lemma_lookup_drop_back(e1 + e2 + e3 + e4, e5, "description"@);
        lemma_lookup_drop_back(e1 + e2 + e3, e4, "description"@);
        lemma_lookup_drop_back(e1 + e2, e3, "description"@);
        lemma_lookup_skip_front(e1, e2, "description"@);
        lemma_lookup_drop_back(e1 + e2 + e3 + e4 + e5, e6, "terms_of_service"@);
        lemma_lookup_drop_back(e1 + e2 + e3 + e4, e5, "terms_of_service"@);
        lemma_lookup_drop_back(e1 + e2 + e3, e4, "terms_of_service"@);
        lemma_lookup_skip_front(e1 + e2, e3, "terms_of_service"@);
        lemma_lookup_drop_back(e1 + e2 + e3 + e4 + e5, e6, "contact"@);
        lemma_lookup_drop_back(e1 + e2 + e3 + e4, e5, "contact"@);
        lemma_lookup_skip_front(e1 + e2 + e3, e4, "contact"@);
        lemma_lookup_drop_back(e1 + e2 + e3 + e4 + e5, e6, "license"@);
        lemma_lookup_skip_front(e1 + e2 + e3 + e4, e5, "license"@);
        lemma_lookup_skip_front(e1 + e2 + e3 + e4 + e5, e6, "version"@);
        match self.contact {
            Some(c) => {
                c.lemma_round_trip();
            },
            None => {},
        }
        match self.license {
            Some(l) => {
                l.lemma_round_trip();
            },
            None => {},
        }
    }
}

impl Info {
    pub fn decode(v: &Json) -> (r: Result<Info, Error>)
        ensures
            rv(r) == InfoView::decode(v@),
    {
        match v {
            Json::Obj(es) => {
                let title = match get_opt_str(es, "title") {
                    Ok(x) => x,
                    Err(e) => return Err(e),
                };
                let description = match get_opt_str(es, "description") {
                    Ok(x) => x,
                    Err(e) => return Err(e),
                };
                let terms_of_service = match get_opt_str(es, "terms_of_service") {
                    Ok(x) => x,
                    Err(e) => return Err(e),
                };
                let contact = match obj_get(es, "contact") {
                    Some(cv) => match Contact::decode(cv) {
                        Ok(c) => Some(c),
                        Err(e) => return Err(e),
                    },
                    None => None,
                };
                let license = match obj_get(es, "license") {
                    Some(lv) => match License::decode(lv) {
                        Ok(l) => Some(l),
                        Err(e) => return Err(e),
                    },
                    None => None,
                };
                let version = match get_opt_str(es, "version") {
                    Ok(x) => x,
                    Err(e) => return Err(e),
                };
                Ok(Info { title, description, terms_of_service, contact, license, version })
            },
            _ => Err(Error::SchemaMismatch("info".to_owned())),
        }
    }

    pub fn encode(&self) -> (r: Json)
        ensures
            r@ == self.deep_view().encode(),
    {
        let mut out: Vec<(String, Json)> = Vec::new();
        push_opt_str(&mut out, "title", &self.title);
        push_opt_str(&mut out, "description", &self.description);
        push_opt_str(&mut out, "terms_of_service", &self.terms_of_service);
        let contact = match &self.contact {
            Some(c) => Some(c.encode()),
            None => None,
        };
        push_opt(&mut out, "contact", contact);
        let license = match &self.license {
            Some(l) => Some(l.encode()),
            None => None,
        };
        push_opt(&mut out, "license", license);
        push_opt_str(&mut out, "version", &self.version);
        proof {
            assert(view_entries(out@) =~= self.deep_view().enc());
        }
        Json::Obj(out)
    }
}

} // verus!
