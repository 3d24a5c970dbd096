//! Decoding and encoding of operation parameters, and the resolution
//! between a full parameter and a reference: an object carrying a "$ref"
//! key resolves to the reference shape, any other object must decode as a
//! full parameter.

use vstd::prelude::*;
use crate::codec::{
    entry_lookup, get_opt_bool, get_opt_i32, get_opt_str, get_opt_str_list, get_req_str,
    lemma_lookup_drop_back, lemma_lookup_skip_front, lemma_str_list_round_trip, opt_bool_entry,
    opt_bool_field, opt_i32_entry, opt_i32_field, opt_str_entry, opt_str_field,
    opt_str_list_entry, opt_str_list_field, push_opt_bool, push_opt_i32, push_opt_str,
    push_opt_str_list, push_str, req_str_field, str_entry, Entries,
};
use crate::error::{rv, Error, ErrorView};
use crate::json::{lemma_lookup_absent, key_absent, lookup, obj_get, view_entries, view_items, Json, JsonView};
use crate::scalar_codec::{get_opt_default, opt_default_entry, opt_default_field, push_opt_default};
use crate::schema::{Parameter, ParameterOrRef, ParameterOrRefView, ParameterView};
use crate::schema_codec::{get_opt_schema, opt_schema_entry, opt_schema_field, push_opt_schema};

verus! {

broadcast use crate::codec::lemma_req_entry_key, crate::codec::lemma_opt_entry_key;

// ---------------------------------------------------------------------
// Parameter.
// ---------------------------------------------------------------------
impl ParameterView {
    pub open spec fn enc(self) -> Entries {
        str_entry("name"@, self.name) + str_entry("in"@, self.location) + opt_bool_entry(
            "required"@,
            self.required,
        ) + opt_schema_entry("schema"@, self.schema) + opt_bool_entry(
            "uniqueItems"@,
            self.unique_items,
        ) + opt_str_entry("type"@, self.param_type) + opt_str_entry("format"@, self.format)
            + opt_str_entry("description"@, self.description) + opt_default_entry(
            "default"@,
            self.default,
        ) + opt_i32_entry("minimum"@, self.minimum) + opt_i32_entry("maximum"@, self.maximum)
            + opt_str_list_entry("enum"@, self.enum_values)
    }

    pub open spec fn encode(self) -> JsonView {
        JsonView::Obj(self.enc())
    }

    pub open spec fn decode(v: JsonView) -> Result<ParameterView, ErrorView> {
        match v {
            JsonView::Obj(es) => Self::decode_obj(es),
            _ => Err(ErrorView::SchemaMismatch("parameter"@)),
        }
    }

    pub open spec fn decode_obj(es: Entries) -> Result<ParameterView, ErrorView> {
        match req_str_field(es, "name"@) {
            Err(e) => Err(e),
            Ok(name) => match req_str_field(es, "in"@) {
                Err(e) => Err(e),
                Ok(location) => match opt_bool_field(es, "required"@) {
                    Err(e) => Err(e),
                    Ok(required) => match opt_schema_field(es, "schema"@) {
                        Err(e) => Err(e),
                        Ok(schema) => match opt_bool_field(es, "uniqueItems"@) {
                            Err(e) => Err(e),
                            Ok(unique_items) => match opt_str_field(es, "type"@) {
                                Err(e) => Err(e),
                                Ok(param_type) => match opt_str_field(es, "format"@) {
                                    Err(e) => Err(e),
                                    Ok(format) => match opt_str_field(es, "description"@) {
                                        Err(e) => Err(e),
                                        Ok(description) => match opt_default_field(es, "default"@) {
                                            Err(e) => Err(e),
                                            Ok(default) => match opt_i32_field(es, "minimum"@) {
                                                Err(e) => Err(e),
                                                Ok(minimum) => match opt_i32_field(
                                                    es,
                                                    "maximum"@,
                                                ) {
                                                    Err(e) => Err(e),
                                                    Ok(maximum) => match opt_str_list_field(
                                                        es,
                                                        "enum"@,
                                                    ) {
                                                        Err(e) => Err(e),
                                                        Ok(enum_values) => Ok(
                                                            ParameterView {
                                                                name,
                                                                location,
                                                                required,
                                                                schema,
                                                                unique_items,
                                                                param_type,
                                                                format,
                                                                description,
                                                                default,
                                                                minimum,
                                                                maximum,
                                                                enum_values,
                                                            },
                                                        ),
                                                    },
                                                },
                                            },
                                        },
                                    },
                                },
                            },
                        },
                    },
                },
            },
        }
    }

    #[verifier::rlimit(100)]
    proof fn lemma_lookups_a(self)
        ensures
            lookup(self.enc(), "name"@) == entry_lookup(str_entry("name"@, self.name)),
            lookup(self.enc(), "in"@) == entry_lookup(str_entry("in"@, self.location)),
            lookup(self.enc(), "required"@) == entry_lookup(opt_bool_entry("required"@, self.required)),
            lookup(self.enc(), "schema"@) == entry_lookup(opt_schema_entry("schema"@, self.schema)),
    {
        reveal_strlit("name");
        reveal_strlit("in");
        reveal_strlit("required");
        reveal_strlit("schema");
        reveal_strlit("uniqueItems");
        reveal_strlit("type");
        reveal_strlit("format");
        reveal_strlit("description");
        reveal_strlit("default");
        reveal_strlit("minimum");
        reveal_strlit("maximum");
        reveal_strlit("enum");
        assert("name"@.len() == 4);
        assert("in"@.len() == 2);
        assert("required"@.len() == 8);
        assert("schema"@.len() == 6);
        assert("uniqueItems"@.len() == 11);
        assert("type"@.len() == 4);
        assert("format"@.len() == 6);
        assert("description"@.len() == 11);
        assert("default"@.len() == 7);
        assert("minimum"@.len() == 7);
        assert("maximum"@.len() == 7);
        assert("enum"@.len() == 4);
        assert("name"@[0] == 'n');
        assert("type"@[0] == 't');
        assert("enum"@[0] == 'e');
        assert("schema"@[0] == 's');
        assert("format"@[0] == 'f');
        assert("uniqueItems"@[0] == 'u');
        assert("description"@[0] == 'd');
        assert("default"@[0] == 'd');
        assert("minimum"@[0] == 'm');
        assert("maximum"@[0] == 'm');
        assert("minimum"@[1] == 'i');
        assert("maximum"@[1] == 'a');
        let e1 = str_entry("name"@, self.name);
        let e2 = str_entry("in"@, self.location);
        let e3 = opt_bool_entry("required"@, self.required);
        let e4 = opt_schema_entry("schema"@, self.schema);
        let e5 = opt_bool_entry("uniqueItems"@, self.unique_items);
        let e6 = opt_str_entry("type"@, self.param_type);
        let e7 = opt_str_entry("format"@, self.format);
        let e8 = opt_str_entry("description"@, self.description);
        let e9 = opt_default_entry("default"@, self.default);
        let e10 = opt_i32_entry("minimum"@, self.minimum);
        let e11 = opt_i32_entry("maximum"@, self.maximum);
        let e12 = opt_str_list_entry("enum"@, self.enum_values);
        lemma_lookup_drop_back(e1 + e2 + e3 + e4 + e5 + e6 + e7 + e8 + e9 + e10 + e11, e12, "name"@);
        lemma_lookup_drop_back(e1 + e2 + e3 + e4 + e5 + e6 + e7 + e8 + e9 + e10, e11, "name"@);
        lemma_lookup_drop_back(e1 + e2 + e3 + e4 + e5 + e6 + e7 + e8 + e9, e10, "name"@);
        lemma_lookup_drop_back(e1 + e2 + e3 + e4 + e5 + e6 + e7 + e8, e9, "name"@);
        lemma_lookup_drop_back(e1 + e2 + e3 + e4 + e5 + e6 + e7, e8, "name"@);
        lemma_lookup_drop_back(e1 + e2 + e3 + e4 + e5 + e6, e7, "name"@);
        lemma_lookup_drop_back(e1 + e2 + e3 + e4 + e5, e6, "name"@);
        lemma_lookup_drop_back(e1 + e2 + e3 + e4, e5, "name"@);
        lemma_lookup_drop_back(e1 + e2 + e3, e4, "name"@);
        lemma_lookup_drop_back(e1 + e2, e3, "name"@);
        lemma_lookup_drop_back(e1, e2, "name"@);
        lemma_lookup_drop_back(e1 + e2 + e3 + e4 + e5 + e6 + e7 + e8 + e9 + e10 + e11, e12, "in"@);
        lemma_lookup_drop_back(e1 + e2 + e3 + e4 + e5 + e6 + e7 + e8 + e9 + e10, e11, "in"@);
        lemma_lookup_drop_back(e1 + e2 + e3 + e4 + e5 + e6 + e7 + e8 + e9, e10, "in"@);
        lemma_lookup_drop_back(e1 + e2 + e3 + e4 + e5 + e6 + e7 + e8, e9, "in"@);
        lemma_lookup_drop_back(e1 + e2 + e3 + e4 + e5 + e6 + e7, e8, "in"@);
        lemma_lookup_drop_back(e1 + e2 + e3 + e4 + e5 + e6, e7, "in"@);
        lemma_lookup_drop_back(e1 + e2 + e3 + e4 + e5, e6, "in"@);
        lemma_lookup_drop_back(e1 + e2 + e3 + e4, e5, "in"@);
        lemma_lookup_drop_back(e1 + e2 + e3, e4, "in"@);
        lemma_lookup_drop_back(e1 + e2, e3, "in"@);
        lemma_lookup_skip_front(e1, e2, "in"@);
        lemma_lookup_drop_back(e1 + e2 + e3 + e4 + e5 + e6 + e7 + e8 + e9 + e10 + e11, e12, "required"@);
        lemma_lookup_drop_back(e1 + e2 + e3 + e4 + e5 + e6 + e7 + e8 + e9 + e10, e11, "required"@);
        lemma_lookup_drop_back(e1 + e2 + e3 + e4 + e5 + e6 + e7 + e8 + e9, e10, "required"@);
        lemma_lookup_drop_back(e1 + e2 + e3 + e4 + e5 + e6 + e7 + e8, e9, "required"@);
        lemma_lookup_drop_back(e1 + e2 + e3 + e4 + e5 + e6 + e7, e8, "required"@);
        lemma_lookup_drop_back(e1 + e2 + e3 + e4 + e5 + e6, e7, "required"@);
        lemma_lookup_drop_back(e1 + e2 + e3 + e4 + e5, e6, "required"@);
        lemma_lookup_drop_back(e1 + e2 + e3 + e4, e5, "required"@);
        lemma_lookup_drop_back(e1 + e2 + e3, e4, "required"@);
        lemma_lookup_skip_front(e1 + e2, e3, "required"@);
        lemma_lookup_drop_back(e1 + e2 + e3 + e4 + e5 + e6 + e7 + e8 + e9 + e10 + e11, e12, "schema"@);
        lemma_lookup_drop_back(e1 + e2 + e3 + e4 + e5 + e6 + e7 + e8 + e9 + e10, e11, "schema"@);
        lemma_lookup_drop_back(e1 + e2 + e3 + e4 + e5 + e6 + e7 + e8 + e9, e10, "schema"@);
        lemma_lookup_drop_back(e1 + e2 + e3 + e4 + e5 + e6 + e7 + e8, e9, "schema"@);
        lemma_lookup_drop_back(e1 + e2 + e3 + e4 + e5 + e6 + e7, e8, "schema"@);
        lemma_lookup_drop_back(e1 + e2 + e3 + e4 + e5 + e6, e7, "schema"@);
        lemma_lookup_drop_back(e1 + e2 + e3 + e4 + e5, e6, "schema"@);
        lemma_lookup_drop_back(e1 + e2 + e3 + e4, e5, "schema"@);
        lemma_lookup_skip_front(e1 + e2 + e3, e4, "schema"@);
    }

    #[verifier::rlimit(100)]
    proof fn lemma_lookups_b(self)
        ensures
            lookup(self.enc(), "uniqueItems"@) == entry_lookup(opt_bool_entry("uniqueItems"@, self.unique_items)),
            lookup(self.enc(), "type"@) == entry_lookup(opt_str_entry("type"@, self.param_type)),
            lookup(self.enc(), "format"@) == entry_lookup(opt_str_entry("format"@, self.format)),
            lookup(self.enc(), "description"@) == entry_lookup(opt_str_entry("description"@, self.description)),
    {
        reveal_strlit("name");
        reveal_strlit("in");
        reveal_strlit("required");
        reveal_strlit("schema");
        reveal_strlit("uniqueItems");
        reveal_strlit("type");
        reveal_strlit("format");
        reveal_strlit("description");
        reveal_strlit("default");
        reveal_strlit("minimum");
        reveal_strlit("maximum");
        reveal_strlit("enum");
        assert("name"@.len() == 4);
        assert("in"@.len() == 2);
        assert("required"@.len() == 8);
        assert("schema"@.len() == 6);
        assert("uniqueItems"@.len() == 11);
        assert("type"@.len() == 4);
        assert("format"@.len() == 6);
        assert("description"@.len() == 11);
        assert("default"@.len() == 7);
        assert("minimum"@.len() == 7);
        assert("maximum"@.len() == 7);
        assert("enum"@.len() == 4);
        assert("name"@[0] == 'n');
        assert("type"@[0] == 't');
        assert("enum"@[0] == 'e');
        assert("schema"@[0] == 's');
        assert("format"@[0] == 'f');
        assert("uniqueItems"@[0] == 'u');
        assert("description"@[0] == 'd');
        assert("default"@[0] == 'd');
        assert("minimum"@[0] == 'm');
        assert("maximum"@[0] == 'm');
        assert("minimum"@[1] == 'i');
        assert("maximum"@[1] == 'a');
        let e1 = str_entry("name"@, self.name);
        let e2 = str_entry("in"@, self.location);
        let e3 = opt_bool_entry("required"@, self.required);
        let e4 = opt_schema_entry("schema"@, self.schema);
        let e5 = opt_bool_entry("uniqueItems"@, self.unique_items);
        let e6 = opt_str_entry("type"@, self.param_type);
        let e7 = opt_str_entry("format"@, self.format);
        let e8 = opt_str_entry("description"@, self.description);
        let e9 = opt_default_entry("default"@, self.default);
        let e10 = opt_i32_entry("minimum"@, self.minimum);
        let e11 = opt_i32_entry("maximum"@, self.maximum);
        let e12 = opt_str_list_entry("enum"@, self.enum_values);
        lemma_lookup_drop_back(e1 + e2 + e3 + e4 + e5 + e6 + e7 + e8 + e9 + e10 + e11, e12, "uniqueItems"@);
        lemma_lookup_drop_back(e1 + e2 + e3 + e4 + e5 + e6 + e7 + e8 + e9 + e10, e11, "uniqueItems"@);
        lemma_lookup_drop_back(e1 + e2 + e3 + e4 + e5 + e6 + e7 + e8 + e9, e10, "uniqueItems"@);
        lemma_lookup_drop_back(e1 + e2 + e3 + e4 + e5 + e6 + e7 + e8, e9, "uniqueItems"@);
        lemma_lookup_drop_back(e1 + e2 + e3 + e4 + e5 + e6 + e7, e8, "uniqueItems"@);
        lemma_lookup_drop_back(e1 + e2 + e3 + e4 + e5 + e6, e7, "uniqueItems"@);
        lemma_lookup_drop_back(e1 + e2 + e3 + e4 + e5, e6, "uniqueItems"@);
        lemma_lookup_skip_front(e1 + e2 + e3 + e4, e5, "uniqueItems"@);
        lemma_lookup_drop_back(e1 + e2 + e3 + e4 + e5 + e6 + e7 + e8 + e9 + e10 + e11, e12, "type"@);
        lemma_lookup_drop_back(e1 + e2 + e3 + e4 + e5 + e6 + e7 + e8 + e9 + e10, e11, "type"@);
        lemma_lookup_drop_back(e1 + e2 + e3 + e4 + e5 + e6 + e7 + e8 + e9, e10, "type"@);
        lemma_lookup_drop_back(e1 + e2 + e3 + e4 + e5 + e6 + e7 + e8, e9, "type"@);
        lemma_lookup_drop_back(e1 + e2 + e3 + e4 + e5 + e6 + e7, e8, "type"@);
        lemma_lookup_drop_back(e1 + e2 + e3 + e4 + e5 + e6, e7, "type"@);
        lemma_lookup_skip_front(e1 + e2 + e3 + e4 + e5, e6, "type"@);
        lemma_lookup_drop_back(e1 + e2 + e3 + e4 + e5 + e6 + e7 + e8 + e9 + e10 + e11, e12, "format"@);
        lemma_lookup_drop_back(e1 + e2 + e3 + e4 + e5 + e6 + e7 + e8 + e9 + e10, e11, "format"@);
        lemma_lookup_drop_back(e1 + e2 + e3 + e4 + e5 + e6 + e7 + e8 + e9, e10, "format"@);
        lemma_lookup_drop_back(e1 + e2 + e3 + e4 + e5 + e6 + e7 + e8, e9, "format"@);
        lemma_lookup_drop_back(e1 + e2 + e3 + e4 + e5 + e6 + e7, e8, "format"@);
        lemma_lookup_skip_front(e1 + e2 + e3 + e4 + e5 + e6, e7, "format"@);
        lemma_lookup_drop_back(e1 + e2 + e3 + e4 + e5 + e6 + e7 + e8 + e9 + e10 + e11, e12, "description"@);
        lemma_lookup_drop_back(e1 + e2 + e3 + e4 + e5 + e6 + e7 + e8 + e9 + e10, e11, "description"@);
        lemma_lookup_drop_back(e1 + e2 + e3 + e4 + e5 + e6 + e7 + e8 + e9, e10, "description"@);
        lemma_lookup_drop_back(e1 + e2 + e3 + e4 + e5 + e6 + e7 + e8, e9, "description"@);
        lemma_lookup_skip_front(e1 + e2 + e3 + e4 + e5 + e6 + e7, e8, "description"@);
    }

    #[verifier::rlimit(100)]
    proof fn lemma_lookups_c(self)
        ensures
            lookup(self.enc(), "default"@) == entry_lookup(opt_default_entry("default"@, self.default)),
            lookup(self.enc(), "minimum"@) == entry_lookup(opt_i32_entry("minimum"@, self.minimum)),
            lookup(self.enc(), "maximum"@) == entry_lookup(opt_i32_entry("maximum"@, self.maximum)),
            lookup(self.enc(), "enum"@) == entry_lookup(opt_str_list_entry("enum"@, self.enum_values)),
    {
        reveal_strlit("name");
        reveal_strlit("in");
        reveal_strlit("required");
        reveal_strlit("schema");
        reveal_strlit("uniqueItems");
        reveal_strlit("type");
        reveal_strlit("format");
        reveal_strlit("description");
        reveal_strlit("default");
        reveal_strlit("minimum");
        reveal_strlit("maximum");
        reveal_strlit("enum");
        assert("name"@.len() == 4);
        assert("in"@.len() == 2);
        assert("required"@.len() == 8);
        assert("schema"@.len() == 6);
        assert("uniqueItems"@.len() == 11);
        assert("type"@.len() == 4);
        assert("format"@.len() == 6);
        assert("description"@.len() == 11);
        assert("default"@.len() == 7);
        assert("minimum"@.len() == 7);
        assert("maximum"@.len() == 7);
        assert("enum"@.len() == 4);
        assert("name"@[0] == 'n');
        assert("type"@[0] == 't');
        assert("enum"@[0] == 'e');
        assert("schema"@[0] == 's');
        assert("format"@[0] == 'f');
        assert("uniqueItems"@[0] == 'u');
        assert("description"@[0] == 'd');
        assert("default"@[0] == 'd');
        assert("minimum"@[0] == 'm');
        assert("maximum"@[0] == 'm');
        assert("minimum"@[1] == 'i');
        assert("maximum"@[1] == 'a');
        let e1 = str_entry("name"@, self.name);
        let e2 = str_entry("in"@, self.location);
        let e3 = opt_bool_entry("required"@, self.required);
        let e4 = opt_schema_entry("schema"@, self.schema);
        let e5 = opt_bool_entry("uniqueItems"@, self.unique_items);
        let e6 = opt_str_entry("type"@, self.param_type);
        let e7 = opt_str_entry("format"@, self.format);
        let e8 = opt_str_entry("description"@, self.description);
        let e9 = opt_default_entry("default"@, self.default);
        let e10 = opt_i32_entry("minimum"@, self.minimum);
        let e11 = opt_i32_entry("maximum"@, self.maximum);
        let e12 = opt_str_list_entry("enum"@, self.enum_values);
        lemma_lookup_drop_back(e1 + e2 + e3 + e4 + e5 + e6 + e7 + e8 + e9 + e10 + e11, e12, "default"@);
        lemma_lookup_drop_back(e1 + e2 + e3 + e4 + e5 + e6 + e7 + e8 + e9 + e10, e11, "default"@);
        lemma_lookup_drop_back(e1 + e2 + e3 + e4 + e5 + e6 + e7 + e8 + e9, e10, "default"@);
        lemma_lookup_skip_front(e1 + e2 + e3 + e4 + e5 + e6 + e7 + e8, e9, "default"@);
        lemma_lookup_drop_back(e1 + e2 + e3 + e4 + e5 + e6 + e7 + e8 + e9 + e10 + e11, e12, "minimum"@);
        lemma_lookup_drop_back(e1 + e2 + e3 + e4 + e5 + e6 + e7 + e8 + e9 + e10, e11, "minimum"@);
        lemma_lookup_skip_front(e1 + e2 + e3 + e4 + e5 + e6 + e7 + e8 + e9, e10, "minimum"@);
        lemma_lookup_drop_back(e1 + e2 + e3 + e4 + e5 + e6 + e7 + e8 + e9 + e10 + e11, e12, "maximum"@);
        lemma_lookup_skip_front(e1 + e2 + e3 + e4 + e5 + e6 + e7 + e8 + e9 + e10, e11, "maximum"@);
        lemma_lookup_skip_front(e1 + e2 + e3 + e4 + e5 + e6 + e7 + e8 + e9 + e10 + e11, e12, "enum"@);
    }

    /// A parameter object reads back from its own entry list.
    pub proof fn lemma_round_trip_obj(self)
        ensures
            Self::decode_obj(self.enc()) == Ok::<_, ErrorView>(self),
    {
        self.lemma_lookups_a();
        self.lemma_lookups_b();
        self.lemma_lookups_c();
        match self.schema {
            Some(sv) => {
                sv.lemma_round_trip();
            },
            None => {},
        }
        match self.default {
            Some(d) => {
                d.lemma_round_trip();
            },
            None => {},
        }
        match self.enum_values {
            Some(ss) => {
                lemma_str_list_round_trip(ss);
            },
            None => {},
        }
    }

    /// A parameter reads back from its own encoding.
    pub proof fn lemma_round_trip(self)
        ensures
            Self::decode(self.encode()) == Ok::<_, ErrorView>(self),
    {
        self.lemma_round_trip_obj();
    }
}

impl Parameter {
    pub fn decode(v: &Json) -> (r: Result<Parameter, Error>)
        ensures
            rv(r) == ParameterView::decode(v@),
    {
        match v {
            Json::Obj(es) => Self::decode_obj(es),
            _ => Err(Error::SchemaMismatch("parameter".to_owned())),
        }
    }

    pub fn decode_obj(es: &Vec<(String, Json)>) -> (r: Result<Parameter, Error>)
        ensures
            rv(r) == ParameterView::decode_obj(view_entries(es@)),
    {
        let name = match get_req_str(es, "name") {
            Ok(x) => x,
            Err(e) => return Err(e),
        };
        let location = match get_req_str(es, "in") {
            Ok(x) => x,
            Err(e) => return Err(e),
        };
        let required = match get_opt_bool(es, "required") {
            Ok(x) => x,
            Err(e) => return Err(e),
        };
        let schema = match get_opt_schema(es, "schema") {
            Ok(x) => x,
            Err(e) => return Err(e),
        };
        let unique_items = match get_opt_bool(es, "uniqueItems") {
            Ok(x) => x,
            Err(e) => return Err(e),
        };
        let param_type = match get_opt_str(es, "type") {
            Ok(x) => x,
            Err(e) => return Err(e),
        };
        let format = match get_opt_str(es, "format") {
            Ok(x) => x,
            Err(e) => return Err(e),
        };
        let description = match get_opt_str(es, "description") {
            Ok(x) => x,
            Err(e) => return Err(e),
        };
        let default = match get_opt_default(es, "default") {
            Ok(x) => x,
            Err(e) => return Err(e),
        };
        let minimum = match get_opt_i32(es, "minimum") {
            Ok(x) => x,
            Err(e) => return Err(e),
        };
        let maximum = match get_opt_i32(es, "maximum") {
            Ok(x) => x,
            Err(e) => return Err(e),
        };
        let enum_values = match get_opt_str_list(es, "enum") {
            Ok(x) => x,
            Err(e) => return Err(e),
        };
        Ok(
            Parameter {
                name,
                location,
                required,
                schema,
                unique_items,
                param_type,
                format,
                description,
                default,
                minimum,
                maximum,
                enum_values,
            },
        )
    }

    pub fn encode(&self) -> (r: Json)
        ensures
            r@ == self.deep_view().encode(),
    {
        let mut out: Vec<(String, Json)> = Vec::new();
        self.push_fields(&mut out);
        proof {
            assert(view_entries(out@) =~= self.deep_view().enc());
        }
        Json::Obj(out)
    }

    /// Appends the parameter's fields to an entry list under construction.
    #[verifier::rlimit(100)]
    pub fn push_fields(&self, out: &mut Vec<(String, Json)>)
        ensures
            view_entries(final(out)@) == view_entries(old(out)@) + self.deep_view().enc(),
    {
        push_str(out, "name", &self.name);
        push_str(out, "in", &self.location);
        push_opt_bool(out, "required", &self.required);
        push_opt_schema(out, "schema", &self.schema);
        push_opt_bool(out, "uniqueItems", &self.unique_items);
        push_opt_str(out, "type", &self.param_type);
        push_opt_str(out, "format", &self.format);
        push_opt_str(out, "description", &self.description);
        push_opt_default(out, "default", &self.default);
        push_opt_i32(out, "minimum", &self.minimum);
        push_opt_i32(out, "maximum", &self.maximum);
        push_opt_str_list(out, "enum", &self.enum_values);
        proof {
            assert(view_entries(out@) =~= view_entries(old(out)@) + self.deep_view().enc());
        }
    }
}

// ---------------------------------------------------------------------
// ParameterOrRef: the "$ref" key decides.
// ---------------------------------------------------------------------
impl ParameterOrRefView {
    pub open spec fn enc(self) -> Entries {
        match self {
            ParameterOrRefView::Parameter(p) => p.enc(),
            ParameterOrRefView::Ref { ref_path } => str_entry("$ref"@, ref_path),
        }
    }

    pub open spec fn encode(self) -> JsonView {
        JsonView::Obj(self.enc())
    }

    /// How the union resolves: the presence of a "$ref" key selects the
    /// reference shape; otherwise the object must decode as a full
    /// parameter, and what it lacks is reported.
    pub open spec fn decode(v: JsonView) -> Result<ParameterOrRefView, ErrorView> {
        match v {
            JsonView::Obj(es) => match lookup(es, "$ref"@) {
                Some(JsonView::Str(ref_path)) => Ok(ParameterOrRefView::Ref { ref_path }),
                Some(_) => Err(ErrorView::SchemaMismatch("$ref"@)),
                None => match ParameterView::decode_obj(es) {
                    Ok(p) => Ok(ParameterOrRefView::Parameter(p)),
                    Err(e) => Err(e),
                },
            },
            _ => Err(ErrorView::SchemaMismatch("parameters"@)),
        }
    }

    /// Either shape of the union reads back from its own encoding: a
    /// reference is recognized by its "$ref" key, and a full parameter,
    /// which never carries that key, by its fields.
    pub proof fn lemma_round_trip(self)
        ensures
            Self::decode(self.encode()) == Ok::<_, ErrorView>(self),
    {
        reveal_strlit("$ref");
        assert("$ref"@.len() == 4);
        assert("$ref"@[0] == '$');
        match self {
            ParameterOrRefView::Parameter(p) => {
                reveal_strlit("name");
                reveal_strlit("in");
                reveal_strlit("required");
                reveal_strlit("schema");
                reveal_strlit("uniqueItems");
                reveal_strlit("type");
                reveal_strlit("format");
                reveal_strlit("description");
                reveal_strlit("default");
                reveal_strlit("minimum");
                reveal_strlit("maximum");
                reveal_strlit("enum");
                assert("name"@.len() == 4);
                assert("in"@.len() == 2);
                assert("required"@.len() == 8);
                assert("schema"@.len() == 6);
                assert("uniqueItems"@.len() == 11);
                assert("type"@.len() == 4);
                assert("format"@.len() == 6);
                assert("description"@.len() == 11);
                assert("default"@.len() == 7);
                assert("minimum"@.len() == 7);
                assert("maximum"@.len() == 7);
                assert("enum"@.len() == 4);
                assert("name"@[0] == 'n');
                assert("type"@[0] == 't');
                assert("enum"@[0] == 'e');
                assert(key_absent(p.enc(), "$ref"@));
                lemma_lookup_absent(p.enc(), "$ref"@);
                p.lemma_round_trip_obj();
            },
            ParameterOrRefView::Ref { ref_path } => {},
        }
    }
}

impl ParameterOrRef {
    pub fn decode(v: &Json) -> (r: Result<ParameterOrRef, Error>)
        ensures
            rv(r) == ParameterOrRefView::decode(v@),
    {
        match v {
            Json::Obj(es) => match obj_get(es, "$ref") {
                Some(found) => match found {
                    Json::Str(ref_path) => Ok(ParameterOrRef::Ref { ref_path: ref_path.clone() }),
                    _ => Err(Error::SchemaMismatch("$ref".to_owned())),
                },
                None => match Parameter::decode_obj(es) {
                    Ok(p) => Ok(ParameterOrRef::Parameter(p)),
                    Err(e) => Err(e),
                },
            },
            _ => Err(Error::SchemaMismatch("parameters".to_owned())),
        }
    }

    pub fn encode(&self) -> (r: Json)
        ensures
            r@ == self.deep_view().encode(),
    {
        match self {
            ParameterOrRef::Parameter(p) => p.encode(),
            ParameterOrRef::Ref { ref_path } => {
                let mut out: Vec<(String, Json)> = Vec::new();
                push_str(&mut out, "$ref", ref_path);
                proof {
                    assert(view_entries(out@) =~= self.deep_view().enc());
                }
                Json::Obj(out)
            },
        }
    }
}

pub open spec fn dec_param_or_ref_list(items: Seq<JsonView>) -> Result<Seq<ParameterOrRefView>, ErrorView>
    decreases items.len(),
{
    if items.len() == 0 {
        Ok(Seq::empty())
    } else {
        match dec_param_or_ref_list(items.drop_last()) {
            Ok(init) => match ParameterOrRefView::decode(items.last()) {
                Ok(d) => Ok(init.push(d)),
                Err(e) => Err(e),
            },
            Err(e) => Err(e),
        }
    }
}

pub open spec fn enc_param_or_ref_list(ds: Seq<ParameterOrRefView>) -> Seq<JsonView> {
    Seq::new(ds.len(), |i: int| ds[i].encode())
}

/// Once a prefix fails to decode, the whole list reports that failure.
pub proof fn lemma_dec_param_or_ref_list_err(items: Seq<JsonView>, j: int)
    requires
        0 <= j <= items.len(),
        dec_param_or_ref_list(items.take(j)) is Err,
    ensures
        dec_param_or_ref_list(items) == dec_param_or_ref_list(items.take(j)),
    decreases items.len() - j,
{
    if j == items.len() {
        assert(items.take(j) =~= items);
    } else {
        assert(items.take(j + 1).drop_last() =~= items.take(j));
        lemma_dec_param_or_ref_list_err(items, j + 1);
    }
}

/// A parameter-or-reference list reads back from its own encoding.
pub proof fn lemma_param_or_ref_list_round_trip(ds: Seq<ParameterOrRefView>)
    ensures
        dec_param_or_ref_list(enc_param_or_ref_list(ds)) == Ok::<_, ErrorView>(ds),
    decreases ds.len(),
{
    if ds.len() == 0 {
        assert(enc_param_or_ref_list(ds) =~= Seq::<JsonView>::empty());
        assert(ds =~= Seq::<ParameterOrRefView>::empty());
    } else {
        assert(enc_param_or_ref_list(ds).drop_last() =~= enc_param_or_ref_list(ds.drop_last()));
        lemma_param_or_ref_list_round_trip(ds.drop_last());
        ds.last().lemma_round_trip();
        assert(ds.drop_last().push(ds.last()) =~= ds);
    }
}

pub fn decode_param_or_ref_list(items: &Vec<Json>) -> (r: Result<Vec<ParameterOrRef>, Error>)
    ensures
        rv(r) == dec_param_or_ref_list(view_items(items@)),
{
    let iv = Ghost(view_items(items@));
    let n = items.len();
    let mut out: Vec<ParameterOrRef> = Vec::new();
    let mut i: usize = 0;
    proof {
        assert(iv@.take(0) =~= Seq::<JsonView>::empty());
        assert(out.deep_view() =~= Seq::<ParameterOrRefView>::empty());
    }
    while i < n
        invariant
            i <= n,
            n == items.len(),
            iv@ == view_items(items@),
            dec_param_or_ref_list(iv@.take(i as int)) == Ok::<_, ErrorView>(out.deep_view()),
        decreases n - i,
    {
        proof {
            assert(iv@.take(i + 1 as int).drop_last() =~= iv@.take(i as int));
            assert(iv@.take(i + 1 as int).last() == iv@[i as int]);
        }
        let prev = Ghost(out.deep_view());
        match ParameterOrRef::decode(&items[i]) {
            Ok(d) => {
                let dv = Ghost(d.deep_view());
                out.push(d);
                proof {
                    assert(out.deep_view() =~= prev@.push(dv@));
                }
            },
            Err(e) => {
                proof {
                    lemma_dec_param_or_ref_list_err(iv@, i + 1 as int);
                }
                return Err(e);
            },
        }
        i = i + 1;
    }
    proof {
        assert(iv@.take(n as int) =~= iv@);
    }
    Ok(out)
}

pub fn encode_param_or_ref_list(ds: &Vec<ParameterOrRef>) -> (r: Json)
    ensures
        r@ == JsonView::Arr(enc_param_or_ref_list(ds.deep_view())),
{
    let n = ds.len();
    let mut out: Vec<Json> = Vec::new();
    let mut i: usize = 0;
    while i < n
        invariant
            i <= n,
            n == ds.len(),
            out@.len() == i,
            forall|j: int| 0 <= j < i ==> out@[j]@ == ds@[j].deep_view().encode(),
        decreases n - i,
    {
        let d = ds[i].encode();
        out.push(d);
        i = i + 1;
    }
    proof {
        assert(view_items(out@) =~= enc_param_or_ref_list(ds.deep_view()));
    }
    Json::Arr(out)
}

pub open spec fn dec_parameter_map(es: Entries) -> Result<Seq<(Seq<char>, ParameterView)>, ErrorView>
    decreases es.len(),
{
    if es.len() == 0 {
        Ok(Seq::empty())
    } else {
        match dec_parameter_map(es.drop_last()) {
            Ok(init) => match ParameterView::decode(es.last().1) {
                Ok(x) => Ok(init.push((es.last().0, x))),
                Err(e) => Err(e),
            },
            Err(e) => Err(e),
        }
    }
}

pub open spec fn enc_parameter_map(ps: Seq<(Seq<char>, ParameterView)>) -> Entries {
    Seq::new(
        ps.len(),
        |i: int|
            if 0 <= i < ps.len() {
                (ps[i].0, ps[i].1.encode())
            } else {
                (Seq::empty(), JsonView::Null)
            },
    )
}

/// Once a prefix fails to decode, the whole mapping reports that failure.
pub proof fn lemma_dec_parameter_map_err(es: Entries, j: int)
    requires
        0 <= j <= es.len(),
        dec_parameter_map(es.take(j)) is Err,
    ensures
        dec_parameter_map(es) == dec_parameter_map(es.take(j)),
    decreases es.len() - j,
{
    if j == es.len() {
        assert(es.take(j) =~= es);
    } else {
        assert(es.take(j + 1).drop_last() =~= es.take(j));
        lemma_dec_parameter_map_err(es, j + 1);
    }
}

/// A named parameter mapping reads back from its own encoding.
pub proof fn lemma_parameter_map_round_trip(ps: Seq<(Seq<char>, ParameterView)>)
    ensures
        dec_parameter_map(enc_parameter_map(ps)) == Ok::<_, ErrorView>(ps),
    decreases ps.len(),
{
    if ps.len() == 0 {
        assert(enc_parameter_map(ps) =~= Seq::<(Seq<char>, JsonView)>::empty());
        assert(ps =~= Seq::<(Seq<char>, ParameterView)>::empty());
    } else {
        assert(enc_parameter_map(ps).drop_last() =~= enc_parameter_map(ps.drop_last()));
        lemma_parameter_map_round_trip(ps.drop_last());
        ps.last().1.lemma_round_trip();
        assert(ps.drop_last().push(ps.last()) =~= ps);
    }
}

pub fn decode_parameter_map(es: &Vec<(String, Json)>) -> (r: Result<Vec<(String, Parameter)>, Error>)
    ensures
        rv(r) == dec_parameter_map(view_entries(es@)),
{
    let vw = Ghost(view_entries(es@));
    let n = es.len();
    let mut out: Vec<(String, Parameter)> = Vec::new();
    let mut i: usize = 0;
    proof {
        assert(vw@.take(0) =~= Seq::<(Seq<char>, JsonView)>::empty());
        assert(out.deep_view() =~= Seq::<(Seq<char>, ParameterView)>::empty());
    }
    while i < n
        invariant
            i <= n,
            n == es.len(),
            vw@ == view_entries(es@),
            dec_parameter_map(vw@.take(i as int)) == Ok::<_, ErrorView>(out.deep_view()),
        decreases n - i,
    {
        proof {
            assert(vw@.take(i + 1 as int).drop_last() =~= vw@.take(i as int));
            assert(vw@.take(i + 1 as int).last() == vw@[i as int]);
        }
        let prev = Ghost(out.deep_view());
        match Parameter::decode(&es[i].1) {
            Ok(x) => {
                let k = es[i].0.clone();
                let kv = Ghost((k@, x.deep_view()));
                out.push((k, x));
                proof {
                    assert(out.deep_view() =~= prev@.push(kv@));
                }
            },
            Err(e) => {
                proof {
                    lemma_dec_parameter_map_err(vw@, i + 1 as int);
                }
                return Err(e);
            },
        }
        i = i + 1;
    }
    proof {
        assert(vw@.take(n as int) =~= vw@);
    }
    Ok(out)
}

pub fn encode_parameter_map(m: &Vec<(String, Parameter)>) -> (r: Json)
    ensures
        r@ == JsonView::Obj(enc_parameter_map(m.deep_view())),
{
    let n = m.len();
    let mut out: Vec<(String, Json)> = Vec::new();
    let mut i: usize = 0;
    while i < n
        invariant
            i <= n,
            n == m.len(),
            out@.len() == i,
            forall|j: int|
                0 <= j < i ==> out@[j].0@ == m@[j].0@ && out@[j].1@ == m@[j].1.deep_view().encode(),
        decreases n - i,
    {
        let k = m[i].0.clone();
        let v = m[i].1.encode();
        out.push((k, v));
        i = i + 1;
    }
    proof {
        assert(view_entries(out@) =~= enc_parameter_map(m.deep_view()));
    }
    Json::Obj(out)
}

} // verus!
