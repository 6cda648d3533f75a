//! The field-descriptor builder: accumulates named schema-field properties
//! into a JSON object and validates it before submission. The permissive
//! policy is used: no property is defaulted, and `build` demands only that
//! a `type` was set.

use vstd::prelude::*;
use vstd::pervasive::unreached;
use crate::json::{obj_lookup, obj_views, JsonV, JsonValue};
use crate::SolrError;

verus! {

/// Storing a property: the first pair with the same name is replaced, and a
/// new name goes to the end.
pub open spec fn prop_store(
    m: Seq<(Seq<char>, JsonV)>,
    name: Seq<char>,
    value: JsonV,
) -> Seq<(Seq<char>, JsonV)>
    decreases m.len(),
{
    if m.len() == 0 {
        seq![(name, value)]
    } else if m[0].0 == name {
        seq![(name, value)] + m.drop_first()
    } else {
        seq![m[0]] + prop_store(m.drop_first(), name, value)
    }
}

/// When the first `i` names differ from the stored name, the store either
/// updates the first later match or, if there is none at all, appends.
proof fn lemma_prop_store_prefix(m: Seq<(Seq<char>, JsonV)>, name: Seq<char>, value: JsonV, i: int)
    requires
        0 <= i <= m.len(),
        forall|j: int| 0 <= j < i ==> #[trigger] m[j].0 != name,
    ensures
        i < m.len() && m[i].0 == name ==> prop_store(m, name, value) == m.update(i, (name, value)),
        i == m.len() ==> prop_store(m, name, value) == m.push((name, value)),
    decreases i,
{
    if i == 0 {
        if 0 < m.len() && m[0].0 == name {
            assert(prop_store(m, name, value) =~= m.update(0, (name, value)));
        } else if m.len() == 0 {
            assert(prop_store(m, name, value) =~= m.push((name, value)));
        }
    } else {
        lemma_prop_store_prefix(m.drop_first(), name, value, i - 1);
        if i < m.len() && m[i].0 == name {
            assert(m.drop_first()[i - 1] == m[i]);
            assert(prop_store(m, name, value) =~= m.update(i, (name, value)));
        } else if i == m.len() {
            assert(prop_store(m, name, value) =~= m.push((name, value)));
        }
    }
}

/// When the first `i` names differ from the looked-up name, the lookup is
/// decided at or after position `i`.
proof fn lemma_obj_lookup_prefix(m: Seq<(Seq<char>, JsonV)>, name: Seq<char>, i: int)
    requires
        0 <= i <= m.len(),
        forall|j: int| 0 <= j < i ==> #[trigger] m[j].0 != name,
    ensures
        i < m.len() && m[i].0 == name ==> obj_lookup(m, name) == Option::Some(m[i].1),
        i == m.len() ==> obj_lookup(m, name) is None,
    decreases i,
{
    if i > 0 {
        lemma_obj_lookup_prefix(m.drop_first(), name, i - 1);
        if i < m.len() {
            assert(m.drop_first()[i - 1] == m[i]);
        }
    }
}

/// The position of the first pair whose name matches, if any.
fn find_prop(items: &Vec<(String, JsonValue)>, name: &str) -> (r: Option<usize>)
    ensures
        match r {
            Option::Some(i) => i < items@.len() && obj_views(items@)[i as int].0 == name@ && (
            forall|j: int| 0 <= j < i ==> #[trigger] obj_views(items@)[j].0 != name@),
            Option::None => forall|j: int|
                0 <= j < items@.len() ==> #[trigger] obj_views(items@)[j].0 != name@,
        },
{
    proof {
        crate::json::lemma_obj_views(items@);
    }
    let n = items.len();
    let mut i: usize = 0;
    while i < n
        invariant
            n == items@.len(),
            obj_views(items@).len() == n,
            forall|j: int| 0 <= j < n ==> #[trigger] obj_views(items@)[j] == (items@[j].0@,
            crate::json::json_view(items@[j].1)),
            i <= n,
            forall|j: int| 0 <= j < i ==> #[trigger] obj_views(items@)[j].0 != name@,
        decreases n - i,
    {
        if crate::encode::str_eq(items[i].0.as_str(), name) {
            return Some(i);
        }
        i = i + 1;
    }
    None
}


/// The property names the prebuilt fields use are pairwise distinct.
proof fn lemma_factory_keys_distinct()
    ensures
        "name"@ != "type"@,
        "name"@ != "stored"@,
        "name"@ != "omitNorms"@,
        "name"@ != "multiValued"@,
        "type"@ != "stored"@,
        "type"@ != "omitNorms"@,
        "type"@ != "multiValued"@,
        "stored"@ != "omitNorms"@,
        "stored"@ != "multiValued"@,
        "omitNorms"@ != "multiValued"@,
{
    reveal_strlit("name");
    reveal_strlit("type");
    reveal_strlit("stored");
    reveal_strlit("omitNorms");
    reveal_strlit("multiValued");
    assert("name"@[0] != "type"@[0]);
    assert("name"@[0] != "stored"@[0]);
    assert("name"@[0] != "omitNorms"@[0]);
    assert("name"@[0] != "multiValued"@[0]);
    assert("type"@[0] != "stored"@[0]);
    assert("type"@[0] != "omitNorms"@[0]);
    assert("type"@[0] != "multiValued"@[0]);
    assert("stored"@[0] != "omitNorms"@[0]);
    assert("stored"@[0] != "multiValued"@[0]);
    assert("omitNorms"@[0] != "multiValued"@[0]);
}

/// A builder for one schema field's descriptor.
#[derive(Debug)]
pub struct FieldBuilder {
    props: Vec<(String, JsonValue)>,
}

impl FieldBuilder {
    /// The accumulated properties, as the key-value pairs of the descriptor
    /// object they will form.
    pub closed spec fn props(self) -> Seq<(Seq<char>, JsonV)> {
        obj_views(self.props@)
    }

    /// A new builder for a field with the given name.
    pub fn new(name: String) -> (r: FieldBuilder)
        ensures
            r.props() == seq![("name"@, JsonV::Str(name@))],
    {
        let ghost gname = name@;
        let mut props: Vec<(String, JsonValue)> = Vec::new();
        props.push((String::from_str("name"), JsonValue::Str(name)));
        let r = FieldBuilder { props };
        proof {
            crate::json::lemma_obj_views(r.props@);
            assert(r.props() =~= seq![("name"@, JsonV::Str(gname))]);
        }
        r
    }

    /// Defines a property: an existing property of the same name is
    /// replaced, a new one is appended.
    pub fn set(&mut self, prop: String, value: JsonValue)
        ensures
            final(self).props() == prop_store(old(self).props(), prop@, value@),
    {
        let ghost m = self.props();
        let found = find_prop(&self.props, prop.as_str());
        let ghost gname = prop@;
        let ghost gvalue = value@;
        proof {
            crate::json::lemma_obj_views(self.props@);
        }
        match found {
            Option::Some(i) => {
                self.props.set(i, (prop, value));
                proof {
                    lemma_prop_store_prefix(m, gname, gvalue, i as int);
                    crate::json::lemma_obj_views(self.props@);
                    assert(obj_views(self.props@) =~= m.update(i as int, (gname, gvalue)));
                }
            },
            Option::None => {
                let ghost items0 = self.props@;
                self.props.push((prop, value));
                proof {
                    lemma_prop_store_prefix(m, gname, gvalue, m.len() as int);
                    crate::json::lemma_obj_views(items0);
                    crate::json::lemma_obj_views(self.props@);
                    assert(obj_views(self.props@) =~= m.push((gname, gvalue)));
                }
            },
        }
    }

    /// Builds the descriptor: the accumulated properties verbatim, as one
    /// JSON object. Fails when no `type` was ever set; nothing is defaulted.
    pub fn build(&self) -> (r: Result<JsonValue, SolrError>)
        ensures
            match r {
                Result::Ok(v) => obj_lookup(self.props(), "type"@) is Some && v@ == JsonV::Obj(
                    self.props(),
                ),
                Result::Err(e) => e == SolrError::Validation && obj_lookup(
                    self.props(),
                    "type"@,
                ) is None,
            },
    {
        proof {
            crate::json::lemma_obj_views(self.props@);
        }
        let found = find_prop(&self.props, "type");
        match found {
            Option::Some(i) => {
                proof {
                    lemma_obj_lookup_prefix(self.props(), "type"@, i as int);
                }
                let mut out: Vec<(String, JsonValue)> = Vec::new();
                let n = self.props.len();
                let mut k: usize = 0;
                while k < n
                    invariant
                        n == self.props@.len(),
                        k <= n,
                        out@.len() == k,
                        forall|j: int| 0 <= j < k ==> (#[trigger] out@[j]).0@ == self.props@[j].0@
                            && crate::json::json_view(out@[j].1) == crate::json::json_view(
                            self.props@[j].1,
                        ),
                    decreases n - k,
                {
                    let key = self.props[k].0.clone();
                    let val = self.props[k].1.duplicate();
                    out.push((key, val));
                    k = k + 1;
                }
                proof {
                    crate::json::lemma_obj_views(out@);
                    assert(obj_views(out@) =~= obj_views(self.props@));
                }
                Ok(JsonValue::Obj(out))
            },
            Option::None => {
                proof {
                    lemma_obj_lookup_prefix(self.props(), "type"@, self.props@.len() as int);
                }
                Err(SolrError::Validation)
            },
        }
    }

    /// Sets the type of the field.
    pub fn typename(&mut self, typename: String)
        ensures
            final(self).props() == prop_store(old(self).props(), "type"@, JsonV::Str(typename@)),
    {
        self.set(String::from_str("type"), JsonValue::Str(typename));
    }

    /// Sets a default value for documents without the field.
    pub fn default(&mut self, default: JsonValue)
        ensures
            final(self).props() == prop_store(old(self).props(), "default"@, default@),
    {
        self.set(String::from_str("default"), default);
    }

    /// Sets whether the field can be used in queries.
    pub fn indexed(&mut self, indexed: bool)
        ensures
            final(self).props() == prop_store(old(self).props(), "indexed"@, JsonV::Bool(indexed)),
    {
        self.set(String::from_str("indexed"), JsonValue::Bool(indexed));
    }

    /// Sets whether the field's value can be retrieved with queries.
    pub fn stored(&mut self, stored: bool)
        ensures
            final(self).props() == prop_store(old(self).props(), "stored"@, JsonV::Bool(stored)),
    {
        self.set(String::from_str("stored"), JsonValue::Bool(stored));
    }

    /// Sets whether the field's value goes into a doc-values structure.
    pub fn doc_values(&mut self, doc_values: bool)
        ensures
            final(self).props() == prop_store(
                old(self).props(),
                "docValues"@,
                JsonV::Bool(doc_values),
            ),
    {
        self.set(String::from_str("docValues"), JsonValue::Bool(doc_values));
    }

    /// Places documents without a sort field first.
    pub fn sort_missing_first(&mut self, sort_missing_first: bool)
        ensures
            final(self).props() == prop_store(
                old(self).props(),
                "sortMissingFirst"@,
                JsonV::Bool(sort_missing_first),
            ),
    {
        self.set(String::from_str("sortMissingFirst"), JsonValue::Bool(sort_missing_first));
    }

    /// Places documents without a sort field last.
    pub fn sort_missing_last(&mut self, sort_missing_last: bool)
        ensures
            final(self).props() == prop_store(
                old(self).props(),
                "sortMissingLast"@,
                JsonV::Bool(sort_missing_last),
            ),
    {
        self.set(String::from_str("sortMissingLast"), JsonValue::Bool(sort_missing_last));
    }

    /// Sets whether the field can hold several values.
    pub fn multi_valued(&mut self, multi_valued: bool)
        ensures
            final(self).props() == prop_store(
                old(self).props(),
                "multiValued"@,
                JsonV::Bool(multi_valued),
            ),
    {
        self.set(String::from_str("multiValued"), JsonValue::Bool(multi_valued));
    }

    /// Sets whether the field can be un-inverted at query time.
    pub fn uninvertible(&mut self, uninvertible: bool)
        ensures
            final(self).props() == prop_store(
                old(self).props(),
                "uninvertible"@,
                JsonV::Bool(uninvertible),
            ),
    {
        self.set(String::from_str("uninvertible"), JsonValue::Bool(uninvertible));
    }

    /// Sets whether norms are omitted for the field.
    pub fn omit_norms(&mut self, omit_norms: bool)
        ensures
            final(self).props() == prop_store(
                old(self).props(),
                "omitNorms"@,
                JsonV::Bool(omit_norms),
            ),
    {
        self.set(String::from_str("omitNorms"), JsonValue::Bool(omit_norms));
    }

    /// Sets whether term frequency, positions and payloads are omitted.
    pub fn omit_term_freq_and_positions(&mut self, omit_term_freq_and_positions: bool)
        ensures
            final(self).props() == prop_store(
                old(self).props(),
                "omitTermFreqAndPositions"@,
                JsonV::Bool(omit_term_freq_and_positions),
            ),
    {
        self.set(
            String::from_str("omitTermFreqAndPositions"),
            JsonValue::Bool(omit_term_freq_and_positions),
        );
    }

    /// Like `omit_term_freq_and_positions`, but keeps term frequencies.
    pub fn omit_positions(&mut self, omit_positions: bool)
        ensures
            final(self).props() == prop_store(
                old(self).props(),
                "omitPositions"@,
                JsonV::Bool(omit_positions),
            ),
    {
        self.set(String::from_str("omitPositions"), JsonValue::Bool(omit_positions));
    }

    /// Enables maintaining term vectors.
    pub fn term_vectors(&mut self, term_vectors: bool)
        ensures
            final(self).props() == prop_store(
                old(self).props(),
                "termVectors"@,
                JsonV::Bool(term_vectors),
            ),
    {
        self.set(String::from_str("termVectors"), JsonValue::Bool(term_vectors));
    }

    /// Enables maintaining position information per term occurrence.
    pub fn term_positions(&mut self, term_positions: bool)
        ensures
            final(self).props() == prop_store(
                old(self).props(),
                "termPositions"@,
                JsonV::Bool(term_positions),
            ),
    {
        self.set(String::from_str("termPositions"), JsonValue::Bool(term_positions));
    }

    /// Enables maintaining offset information per term occurrence.
    pub fn term_offsets(&mut self, term_offsets: bool)
        ensures
            final(self).props() == prop_store(
                old(self).props(),
                "termOffsets"@,
                JsonV::Bool(term_offsets),
            ),
    {
        self.set(String::from_str("termOffsets"), JsonValue::Bool(term_offsets));
    }

    /// Enables maintaining payload information per term occurrence.
    pub fn term_payloads(&mut self, term_payloads: bool)
        ensures
            final(self).props() == prop_store(
                old(self).props(),
                "termPayloads"@,
                JsonV::Bool(term_payloads),
            ),
    {
        self.set(String::from_str("termPayloads"), JsonValue::Bool(term_payloads));
    }

    /// Sets whether documents without this field are rejected.
    pub fn required(&mut self, required: bool)
        ensures
            final(self).props() == prop_store(
                old(self).props(),
                "required"@,
                JsonV::Bool(required),
            ),
    {
        self.set(String::from_str("required"), JsonValue::Bool(required));
    }

    /// Enables returning doc-values as if they were stored.
    pub fn use_doc_values_as_stored(&mut self, use_doc_values_as_stored: bool)
        ensures
            final(self).props() == prop_store(
                old(self).props(),
                "useDocValuesAsStored"@,
                JsonV::Bool(use_doc_values_as_stored),
            ),
    {
        self.set(
            String::from_str("useDocValuesAsStored"),
            JsonValue::Bool(use_doc_values_as_stored),
        );
    }

    /// Marks the field as large, enabling lazy loading.
    pub fn large(&mut self, large: bool)
        ensures
            final(self).props() == prop_store(old(self).props(), "large"@, JsonV::Bool(large)),
    {
        self.set(String::from_str("large"), JsonValue::Bool(large));
    }

    /// A ready-made descriptor with the given type and `stored` set, the
    /// shape every simple prebuilt field shares.
    fn with_type_stored(name: String, typename: &str) -> (r: JsonValue)
        ensures
            r@ == JsonV::Obj(
                seq![
                    ("name"@, JsonV::Str(name@)),
                    ("type"@, JsonV::Str(typename@)),
                    ("stored"@, JsonV::Bool(true)),
                ],
            ),
    {
        let ghost gname = name@;
        let mut b = FieldBuilder::new(name);
        b.typename(String::from_str(typename));
        proof {
            lemma_factory_keys_distinct();
            reveal_with_fuel(prop_store, 3);
            assert(b.props() =~= seq![("name"@, JsonV::Str(gname)), ("type"@, JsonV::Str(
                typename@,
            ))]);
        }
        b.stored(true);
        proof {
            lemma_factory_keys_distinct();
            reveal_with_fuel(prop_store, 4);
            reveal_with_fuel(obj_lookup, 4);
            assert(b.props() =~= seq![
                ("name"@, JsonV::Str(gname)),
                ("type"@, JsonV::Str(typename@)),
                ("stored"@, JsonV::Bool(true)),
            ]);
            assert(obj_lookup(b.props(), "type"@) is Some);
        }
        match b.build() {
            Result::Ok(v) => v,
            Result::Err(_) => unreached(),
        }
    }

    /// A ready-made `text` field: lowercase type, stored.
    pub fn text(name: String) -> (r: JsonValue)
        ensures
            r@ == JsonV::Obj(
                seq![
                    ("name"@, JsonV::Str(name@)),
                    ("type"@, JsonV::Str("lowercase"@)),
                    ("stored"@, JsonV::Bool(true)),
                ],
            ),
    {
        Self::with_type_stored(name, "lowercase")
    }

    /// A ready-made `string` field: exact-match text without norms, stored.
    pub fn string(name: String) -> (r: JsonValue)
        ensures
            r@ == JsonV::Obj(
                seq![
                    ("name"@, JsonV::Str(name@)),
                    ("type"@, JsonV::Str("string"@)),
                    ("omitNorms"@, JsonV::Bool(true)),
                    ("stored"@, JsonV::Bool(true)),
                ],
            ),
    {
        let ghost gname = name@;
        let mut b = FieldBuilder::new(name);
        b.typename(String::from_str("string"));
        proof {
            lemma_factory_keys_distinct();
            reveal_with_fuel(prop_store, 3);
            assert(b.props() =~= seq![("name"@, JsonV::Str(gname)), ("type"@, JsonV::Str(
                "string"@,
            ))]);
        }
        b.omit_norms(true);
        proof {
            lemma_factory_keys_distinct();
            reveal_with_fuel(prop_store, 4);
            assert(b.props() =~= seq![
                ("name"@, JsonV::Str(gname)),
                ("type"@, JsonV::Str("string"@)),
                ("omitNorms"@, JsonV::Bool(true)),
            ]);
        }
        b.stored(true);
        proof {
            lemma_factory_keys_distinct();
            reveal_with_fuel(prop_store, 5);
            reveal_with_fuel(obj_lookup, 5);
            assert(b.props() =~= seq![
                ("name"@, JsonV::Str(gname)),
                ("type"@, JsonV::Str("string"@)),
                ("omitNorms"@, JsonV::Bool(true)),
                ("stored"@, JsonV::Bool(true)),
            ]);
            assert(obj_lookup(b.props(), "type"@) is Some);
        }
        match b.build() {
            Result::Ok(v) => v,
            Result::Err(_) => unreached(),
        }
    }

    /// A ready-made multi-valued `string` field.
    pub fn multi_string(name: String) -> (r: JsonValue)
        ensures
            r@ == JsonV::Obj(
                seq![
                    ("name"@, JsonV::Str(name@)),
                    ("type"@, JsonV::Str("strings"@)),
                    ("omitNorms"@, JsonV::Bool(true)),
                    ("multiValued"@, JsonV::Bool(true)),
                    ("stored"@, JsonV::Bool(true)),
                ],
            ),
    {
        let ghost gname = name@;
        let mut b = FieldBuilder::new(name);
        b.typename(String::from_str("strings"));
        proof {
            lemma_factory_keys_distinct();
            reveal_with_fuel(prop_store, 3);
            assert(b.props() =~= seq![("name"@, JsonV::Str(gname)), ("type"@, JsonV::Str(
                "strings"@,
            ))]);
        }
        b.omit_norms(true);
        proof {
            lemma_factory_keys_distinct();
            reveal_with_fuel(prop_store, 4);
            assert(b.props() =~= seq![
                ("name"@, JsonV::Str(gname)),
                ("type"@, JsonV::Str("strings"@)),
                ("omitNorms"@, JsonV::Bool(true)),
            ]);
        }
        b.multi_valued(true);
        proof {
            lemma_factory_keys_distinct();
            reveal_with_fuel(prop_store, 5);
            assert(b.props() =~= seq![
                ("name"@, JsonV::Str(gname)),
                ("type"@, JsonV::Str("strings"@)),
                ("omitNorms"@, JsonV::Bool(true)),
                ("multiValued"@, JsonV::Bool(true)),
            ]);
        }
        b.stored(true);
        proof {
            lemma_factory_keys_distinct();
            reveal_with_fuel(prop_store, 6);
            reveal_with_fuel(obj_lookup, 6);
            assert(b.props() =~= seq![
                ("name"@, JsonV::Str(gname)),
                ("type"@, JsonV::Str("strings"@)),
                ("omitNorms"@, JsonV::Bool(true)),
                ("multiValued"@, JsonV::Bool(true)),
                ("stored"@, JsonV::Bool(true)),
            ]);
            assert(obj_lookup(b.props(), "type"@) is Some);
        }
        match b.build() {
            Result::Ok(v) => v,
            Result::Err(_) => unreached(),
        }
    }

    /// A ready-made single-precision numeric field.
    pub fn numeric(name: String) -> (r: JsonValue)
        ensures
            r@ == JsonV::Obj(
                seq![
                    ("name"@, JsonV::Str(name@)),
                    ("type"@, JsonV::Str("pfloat"@)),
                    ("stored"@, JsonV::Bool(true)),
                ],
            ),
    {
        Self::with_type_stored(name, "pfloat")
    }

    /// A ready-made double-precision numeric field.
    pub fn double(name: String) -> (r: JsonValue)
        ensures
            r@ == JsonV::Obj(
                seq![
                    ("name"@, JsonV::Str(name@)),
                    ("type"@, JsonV::Str("pdouble"@)),
                    ("stored"@, JsonV::Bool(true)),
                ],
            ),
    {
        Self::with_type_stored(name, "pdouble")
    }

    /// A ready-made 64-bit integer field.
    pub fn long(name: String) -> (r: JsonValue)
        ensures
            r@ == JsonV::Obj(
                seq![
                    ("name"@, JsonV::Str(name@)),
                    ("type"@, JsonV::Str("plong"@)),
                    ("stored"@, JsonV::Bool(true)),
                ],
            ),
    {
        Self::with_type_stored(name, "plong")
    }

    /// A ready-made free-text field.
    pub fn fulltext(name: String) -> (r: JsonValue)
        ensures
            r@ == JsonV::Obj(
                seq![
                    ("name"@, JsonV::Str(name@)),
                    ("type"@, JsonV::Str("text_general"@)),
                    ("stored"@, JsonV::Bool(true)),
                ],
            ),
    {
        Self::with_type_stored(name, "text_general")
    }

    /// A ready-made delimited tag field.
    pub fn tag(name: String) -> (r: JsonValue)
        ensures
            r@ == JsonV::Obj(
                seq![
                    ("name"@, JsonV::Str(name@)),
                    ("type"@, JsonV::Str("delimited_payloads_string"@)),
                    ("stored"@, JsonV::Bool(true)),
                ],
            ),
    {
        Self::with_type_stored(name, "delimited_payloads_string")
    }

    /// A ready-made date field.
    pub fn date(name: String) -> (r: JsonValue)
        ensures
            r@ == JsonV::Obj(
                seq![
                    ("name"@, JsonV::Str(name@)),
                    ("type"@, JsonV::Str("pdate"@)),
                    ("stored"@, JsonV::Bool(true)),
                ],
            ),
    {
        Self::with_type_stored(name, "pdate")
    }
}

} // verus!
