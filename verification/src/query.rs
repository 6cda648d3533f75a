//! The query builder and the structured query compiler: query parameters
//! accumulate in a parameter set, a caller-authored boolean query tree is
//! compiled into the engine's native query syntax, and the result documents
//! are extracted from the response envelope.

use vstd::prelude::*;
use crate::client::Solr;
use crate::collection::Collection;
use crate::encode::{
    bool_string, bool_text, decimal_of, decimal_string, int_string, int_text, percent_encode,
    percent_encoded,
};
use crate::json::{
    arr_views, json_get, lemma_arr_views, lemma_obj_lookup_witness, obj_lookup, JsonV, JsonValue,
};
use crate::params::{
    append_query_text, lookup_param, param_lookup, param_store, params_view, query_text,
    store_param,
};
use crate::SolrError;

verus! {

/// The native text form of a field-match value: scalars render as their
/// literal text — strings are inserted as they are, not re-quoted — and a
/// container is not a valid field-match value.
pub open spec fn rendered_value(v: JsonV) -> Result<Seq<char>, SolrError> {
    match v {
        JsonV::Null => Result::Ok("null"@),
        JsonV::Bool(b) => Result::Ok(bool_text(b)),
        JsonV::Int(i) => Result::Ok(int_text(i)),
        JsonV::Num(t) => Result::Ok(t),
        JsonV::Str(s) => Result::Ok(s),
        _ => Result::Err(SolrError::InvalidSyntax),
    }
}

/// The text of a field-match node: `{field}:{value}`. A `field` that is not
/// a string is invalid syntax, and a missing `value` is its own error.
pub open spec fn field_match_text(fields: Seq<(Seq<char>, JsonV)>) -> Result<Seq<char>, SolrError> {
    match obj_lookup(fields, "field"@) {
        Option::Some(f) => match f {
            JsonV::Str(fname) => match obj_lookup(fields, "value"@) {
                Option::Some(val) => match rendered_value(val) {
                    Result::Ok(t) => Result::Ok(fname + ":"@ + t),
                    Result::Err(e) => Result::Err(e),
                },
                Option::None => Result::Err(SolrError::MissingValue),
            },
            _ => Result::Err(SolrError::InvalidSyntax),
        },
        Option::None => Result::Err(SolrError::InvalidSyntax),
    }
}

/// The parts joined with the separator between them, in order.
pub open spec fn joined(parts: Seq<Seq<char>>, sep: Seq<char>) -> Seq<char>
    decreases parts.len(),
{
    if parts.len() == 0 {
        Seq::empty()
    } else if parts.len() == 1 {
        parts[0]
    } else {
        parts[0] + sep + joined(parts.drop_first(), sep)
    }
}

/// [`joined`] restated for growth at the right end.
pub proof fn lemma_joined_snoc(parts: Seq<Seq<char>>, sep: Seq<char>, p: Seq<char>)
    ensures
        parts.len() == 0 ==> joined(parts.push(p), sep) == p,
        parts.len() > 0 ==> joined(parts.push(p), sep) == joined(parts, sep) + sep + p,
    decreases parts.len(),
{
    if parts.len() == 0 {
        assert(parts.push(p)[0] == p);
    } else {
        lemma_joined_snoc(parts.drop_first(), sep, p);
        assert(parts.push(p).drop_first() =~= parts.drop_first().push(p));
        assert(joined(parts.push(p), sep) =~= joined(parts, sep) + sep + p);
    }
}

/// What one structured query node compiles to: a field match renders as
/// `{field}:{value}`; `and` and `or` nodes compile their children and join
/// them, parenthesized; a `neg` node prefixes its child with `!`; a node
/// with none of these keys, or one that is no object at all, is invalid
/// syntax. The keys are tried in the order `field`, `and`, `or`, `neg`.
pub open spec fn compiled_query(v: JsonV) -> Result<Seq<char>, SolrError>
    decreases v, 1int, 0int,
{
    match v {
        JsonV::Obj(fields) => {
            if obj_lookup(fields, "field"@) is Some {
                field_match_text(fields)
            } else if obj_lookup(fields, "and"@) is Some {
                match obj_lookup(fields, "and"@) {
                    Option::Some(op) => match op {
                        JsonV::Arr(children) => {
                            proof {
                                lemma_operator_children_smaller(v, fields, "and"@, op);
                            }
                            match compiled_list(children, 0) {
                                Result::Ok(parts) => Result::Ok(
                                    "("@ + joined(parts, " AND "@) + ")"@,
                                ),
                                Result::Err(e) => Result::Err(e),
                            }
                        },
                        _ => Result::Err(SolrError::InvalidSyntax),
                    },
                    Option::None => Result::Err(SolrError::InvalidSyntax),
                }
            } else if obj_lookup(fields, "or"@) is Some {
                match obj_lookup(fields, "or"@) {
                    Option::Some(op) => match op {
                        JsonV::Arr(children) => {
                            proof {
                                lemma_operator_children_smaller(v, fields, "or"@, op);
                            }
                            match compiled_list(children, 0) {
                                Result::Ok(parts) => Result::Ok(
                                    "("@ + joined(parts, " OR "@) + ")"@,
                                ),
                                Result::Err(e) => Result::Err(e),
                            }
                        },
                        _ => Result::Err(SolrError::InvalidSyntax),
                    },
                    Option::None => Result::Err(SolrError::InvalidSyntax),
                }
            } else if obj_lookup(fields, "neg"@) is Some {
                match obj_lookup(fields, "neg"@) {
                    Option::Some(child) => {
                        proof {
                            lemma_operator_children_smaller(v, fields, "neg"@, child);
                        }
                        match compiled_query(child) {
                            Result::Ok(t) => Result::Ok("!"@ + t),
                            Result::Err(e) => Result::Err(e),
                        }
                    },
                    Option::None => Result::Err(SolrError::InvalidSyntax),
                }
            } else {
                Result::Err(SolrError::InvalidSyntax)
            }
        },
        _ => Result::Err(SolrError::InvalidSyntax),
    }
}

/// The children compiled in order from position `from` on: the first
/// failing child's error, or all the compiled texts.
pub open spec fn compiled_list(children: Seq<JsonV>, from: int) -> Result<
    Seq<Seq<char>>,
    SolrError,
>
    decreases children, 0int, children.len() - from,
{
    if from < 0 || from >= children.len() {
        Result::Ok(Seq::empty())
    } else {
        match compiled_query(children[from]) {
            Result::Ok(t) => match compiled_list(children, from + 1) {
                Result::Ok(rest) => Result::Ok(seq![t] + rest),
                Result::Err(e) => Result::Err(e),
            },
            Result::Err(e) => Result::Err(e),
        }
    }
}

/// The value an operator key holds sits strictly below the node that holds
/// it, and so does the contents of an array it may be.
pub proof fn lemma_operator_children_smaller(v: JsonV, fields: Seq<(Seq<char>, JsonV)>, key: Seq<char>, op: JsonV)
    requires
        v == JsonV::Obj(fields),
        obj_lookup(fields, key) == Option::Some(op),
    ensures
        decreases_to!(v => op),
        op is Arr ==> decreases_to!(v => op->Arr_0),
{
    lemma_obj_lookup_witness(fields, key);
    let i = choose|i: int|
        0 <= i < fields.len() && obj_lookup(fields, key) == Option::Some((#[trigger] fields[i]).1);
    assert(decreases_to!(v => v->Obj_0));
    assert(v->Obj_0 == fields);
    assert(decreases_to!(fields => fields[i]));
    assert(decreases_to!(fields[i] => fields[i].1));
    if op is Arr {
        assert(decreases_to!(op => op->Arr_0));
    }
}

/// Compiling a list is compiling a prefix and the rest: when the first `i`
/// children compile to `parts`, the whole list is `parts` followed by what
/// the rest compiles to, or the rest's error.
pub proof fn lemma_compiled_list_split(children: Seq<JsonV>, i: int, parts: Seq<Seq<char>>)
    requires
        0 <= i <= children.len(),
        parts.len() == i,
        forall|j: int|
            0 <= j < i ==> compiled_query(#[trigger] children[j]) == Result::<
                Seq<char>,
                SolrError,
            >::Ok(parts[j]),
    ensures
        compiled_list(children, 0) == (match compiled_list(children, i) {
            Result::Ok(rest) => Result::<Seq<Seq<char>>, SolrError>::Ok(parts + rest),
            Result::Err(e) => Result::<Seq<Seq<char>>, SolrError>::Err(e),
        }),
    decreases i,
{
    if i == 0 {
        match compiled_list(children, 0) {
            Result::Ok(rest) => {
                assert(parts + rest =~= rest);
            },
            Result::Err(_) => {},
        }
    } else {
        lemma_compiled_list_split(children, i - 1, parts.take(i - 1));
        assert(compiled_query(children[i - 1]) == Result::<Seq<char>, SolrError>::Ok(
            parts[i - 1],
        ));
        match compiled_list(children, i) {
            Result::Ok(rest) => {
                assert(compiled_list(children, i - 1) == Result::<Seq<Seq<char>>, SolrError>::Ok(
                    seq![parts[i - 1]] + rest,
                ));
                assert(parts.take(i - 1) + (seq![parts[i - 1]] + rest) =~= parts + rest);
            },
            Result::Err(e) => {
                assert(compiled_list(children, i - 1) == Result::<Seq<Seq<char>>, SolrError>::Err(
                    e,
                ));
            },
        }
    }
}

/// The native text form of a field-match value, executably.
fn render_value(v: &JsonValue) -> (r: Result<String, SolrError>)
    ensures
        match r {
            Result::Ok(s) => rendered_value(v@) == Result::<Seq<char>, SolrError>::Ok(s@),
            Result::Err(e) => rendered_value(v@) == Result::<Seq<char>, SolrError>::Err(e),
        },
{
    match v {
        JsonValue::Null => Ok(String::from_str("null")),
        JsonValue::Bool(b) => Ok(bool_string(*b)),
        JsonValue::Int(i) => Ok(int_string(*i)),
        JsonValue::Num(t) => Ok(t.clone()),
        JsonValue::Str(s) => Ok(s.clone()),
        _ => Err(SolrError::InvalidSyntax),
    }
}

/// Compiles the children of one operator node and joins them with the
/// separator, parenthesized.
fn compile_children(op: &JsonValue, sep: &str) -> (r: Result<String, SolrError>)
    ensures
        match op@ {
            JsonV::Arr(children) => match (r, compiled_list(children, 0)) {
                (Result::Ok(s), Result::Ok(parts)) => s@ == "("@ + joined(parts, sep@) + ")"@,
                (Result::Err(e), Result::Err(e2)) => e == e2,
                _ => false,
            },
            _ => r == Result::<String, SolrError>::Err(SolrError::InvalidSyntax),
        },
    decreases *op, 0int,
{
    match op {
        JsonValue::Arr(arr) => {
            let ghost children = arr_views(arr@);
            proof {
                lemma_arr_views(arr@);
            }
            let n = arr.len();
            let mut i: usize = 0;
            let mut out = String::from_str("(");
            let ghost mut parts: Seq<Seq<char>> = Seq::empty();
            while i < n
                invariant
                    n == arr@.len(),
                    i <= n,
                    children == arr_views(arr@),
                    children.len() == n,
                    forall|j: int| 0 <= j < n ==> #[trigger] children[j] == arr@[j]@,
                    parts.len() == i,
                    forall|j: int|
                        0 <= j < i ==> compiled_query(#[trigger] children[j]) == Result::<
                            Seq<char>,
                            SolrError,
                        >::Ok(parts[j]),
                    out@ == "("@ + joined(parts, sep@),
                    *op == JsonValue::Arr(*arr),
                decreases n - i,
            {
                proof {
                    assert(decreases_to!(*op => (*op)->Arr_0));
                    assert((*op)->Arr_0 == *arr);
                    assert(decreases_to!(*arr => (*arr)[i as int]));
                }
                let part = compile_node(&arr[i]);
                match part {
                    Result::Ok(text) => {
                        if i > 0 {
                            out.append(sep);
                        }
                        out.append(text.as_str());
                        proof {
                            lemma_joined_snoc(parts, sep@, text@);
                            parts = parts.push(text@);
                            assert(out@ =~= "("@ + joined(parts, sep@));
                        }
                        i = i + 1;
                    },
                    Result::Err(e) => {
                        proof {
                            assert(compiled_list(children, i as int) == Result::<
                                Seq<Seq<char>>,
                                SolrError,
                            >::Err(e));
                            lemma_compiled_list_split(children, i as int, parts);
                        }
                        return Err(e);
                    },
                }
            }
            out.append(")");
            proof {
                assert(compiled_list(children, n as int) == Result::<
                    Seq<Seq<char>>,
                    SolrError,
                >::Ok(Seq::empty()));
                lemma_compiled_list_split(children, n as int, parts);
                assert(parts + Seq::<Seq<char>>::empty() =~= parts);
                assert(out@ =~= "("@ + joined(parts, sep@) + ")"@);
            }
            Ok(out)
        },
        _ => Err(SolrError::InvalidSyntax),
    }
}

/// Compiles one structured query node into the engine's native query text.
pub fn compile_node(v: &JsonValue) -> (r: Result<String, SolrError>)
    ensures
        match r {
            Result::Ok(s) => compiled_query(v@) == Result::<Seq<char>, SolrError>::Ok(s@),
            Result::Err(e) => compiled_query(v@) == Result::<Seq<char>, SolrError>::Err(e),
        },
    decreases *v, 1int,
{
    if !v.is_object() {
        return Err(SolrError::InvalidSyntax);
    }
    let field = v.get("field");
    match field {
        Option::Some(f) => match f {
            JsonValue::Str(fname) => {
                let value = v.get("value");
                match value {
                    Option::Some(val) => {
                        let text = render_value(val);
                        match text {
                            Result::Ok(t) => {
                                let mut out = String::new();
                                out.append(fname.as_str());
                                out.append(":");
                                out.append(t.as_str());
                                proof {
                                    assert(out@ =~= fname@ + ":"@ + t@);
                                }
                                Ok(out)
                            },
                            Result::Err(e) => Err(e),
                        }
                    },
                    Option::None => Err(SolrError::MissingValue),
                }
            },
            _ => Err(SolrError::InvalidSyntax),
        },
        Option::None => {
            let and_op = v.get("and");
            match and_op {
                Option::Some(op) => {
                    return compile_children(op, " AND ");
                },
                Option::None => {},
            }
            let or_op = v.get("or");
            match or_op {
                Option::Some(op) => {
                    return compile_children(op, " OR ");
                },
                Option::None => {},
            }
            let neg_op = v.get("neg");
            match neg_op {
                Option::Some(child) => {
                    let inner = compile_node(child);
                    match inner {
                        Result::Ok(t) => {
                            let mut out = String::from_str("!");
                            out.append(t.as_str());
                            proof {
                                assert(out@ =~= "!"@ + t@);
                            }
                            Ok(out)
                        },
                        Result::Err(e) => Err(e),
                    }
                },
                Option::None => Err(SolrError::InvalidSyntax),
            }
        },
    }
}

/// The documents of a search response: the array under `response.docs`.
/// Anything else is a malformed response.
pub open spec fn docs_of(v: JsonV) -> Result<Seq<JsonV>, SolrError> {
    match json_get(v, "response"@) {
        Option::Some(resp) => match json_get(resp, "docs"@) {
            Option::Some(d) => match d {
                JsonV::Arr(docs) => Result::Ok(docs),
                _ => Result::Err(SolrError::MalformedResponse),
            },
            Option::None => Result::Err(SolrError::MalformedResponse),
        },
        Option::None => Result::Err(SolrError::MalformedResponse),
    }
}


/// Setting any parameter other than `q` never disturbs the stored query
/// string: a builder that holds one keeps holding it through further
/// configuration, so a commit owed a path stays owed one.
pub proof fn lemma_other_parameters_keep_the_query(
    m: Seq<(Seq<char>, Seq<char>)>,
    name: Seq<char>,
    value: Seq<char>,
)
    requires
        name != "q"@,
    ensures
        param_lookup(param_store(m, name, value), "q"@) == param_lookup(m, "q"@),
{
    crate::params::lemma_param_store_other(m, name, value, "q"@);
}

/// A query being built against one collection.
#[derive(Debug)]
pub struct Query {
    client: Solr,
    collection_name: String,
    params: Vec<(String, String)>,
}

impl Collection {
    /// A fresh query against this collection, with no parameters set.
    pub fn search(&self) -> (r: Query)
        ensures
            r.endpoint() == self.endpoint(),
            r.collection() == self.spec_name(),
            r.params() == Seq::<(Seq<char>, Seq<char>)>::empty(),
    {
        let r = Query {
            client: self.endpoint_clone(),
            collection_name: self.name_clone(),
            params: Vec::new(),
        };
        proof {
            assert(r.params() =~= Seq::<(Seq<char>, Seq<char>)>::empty());
        }
        r
    }
}

impl Query {
    /// The endpoint the query goes to.
    pub closed spec fn endpoint(self) -> Solr {
        self.client
    }

    /// The name of the collection the query searches.
    pub closed spec fn collection(self) -> Seq<char> {
        self.collection_name@
    }

    /// The accumulated query parameters, in insertion order.
    pub closed spec fn params(self) -> Seq<(Seq<char>, Seq<char>)> {
        params_view(self.params@)
    }

    /// Defines a query parameter, stored as given.
    pub fn set(&mut self, param: String, value: String)
        ensures
            final(self).endpoint() == old(self).endpoint(),
            final(self).collection() == old(self).collection(),
            final(self).params() == param_store(old(self).params(), param@, value@),
    {
        store_param(&mut self.params, param, value);
    }

    /// Sets the query string; the text is percent-encoded before it is
    /// stored as the `q` parameter, where a later commit will find it.
    pub fn query(&mut self, query: &str)
        ensures
            final(self).endpoint() == old(self).endpoint(),
            final(self).collection() == old(self).collection(),
            final(self).params() == param_store(
                old(self).params(),
                "q"@,
                percent_encoded(query@),
            ),
            param_lookup(final(self).params(), "q"@) == Option::Some(percent_encoded(query@)),
    {
        let encoded = percent_encode(query);
        self.set(String::from_str("q"), encoded);
        proof {
            crate::params::lemma_param_store_same(old(self).params(), "q"@, percent_encoded(
                query@,
            ));
        }
    }

    /// Compiles a structured query tree and sets the result as the query
    /// string. A tree that does not compile leaves the query untouched and
    /// reports the compiler's error.
    pub fn query_json(&mut self, json: &JsonValue) -> (r: Result<(), SolrError>)
        ensures
            match compiled_query(json@) {
                Result::Ok(q) => r is Ok && final(self).endpoint() == old(self).endpoint()
                    && final(self).collection() == old(self).collection() && final(self).params()
                    == param_store(old(self).params(), "q"@, percent_encoded(q)),
                Result::Err(e) => r == Result::<(), SolrError>::Err(e) && *final(self) == *old(self),
            },
    {
        let compiled = compile_node(json);
        match compiled {
            Result::Ok(q) => {
                self.query(q.as_str());
                Ok(())
            },
            Result::Err(e) => Err(e),
        }
    }

    /// Defines the query parser; the value is percent-encoded.
    pub fn def_type(&mut self, def_type: String)
        ensures
            final(self).endpoint() == old(self).endpoint(),
            final(self).collection() == old(self).collection(),
            final(self).params() == param_store(
                old(self).params(),
                "defType"@,
                percent_encoded(def_type@),
            ),
    {
        let encoded = percent_encode(def_type.as_str());
        self.set(String::from_str("defType"), encoded);
    }

    /// Defines the sorting of matching results; the value is
    /// percent-encoded.
    pub fn sort(&mut self, sort: String)
        ensures
            final(self).endpoint() == old(self).endpoint(),
            final(self).collection() == old(self).collection(),
            final(self).params() == param_store(
                old(self).params(),
                "sort"@,
                percent_encoded(sort@),
            ),
    {
        let encoded = percent_encode(sort.as_str());
        self.set(String::from_str("sort"), encoded);
    }

    /// Specifies an offset into the result set.
    pub fn start(&mut self, start: usize)
        ensures
            final(self).endpoint() == old(self).endpoint(),
            final(self).collection() == old(self).collection(),
            final(self).params() == param_store(
                old(self).params(),
                "start"@,
                decimal_of(start as nat),
            ),
    {
        self.set(String::from_str("start"), decimal_string(start as u64));
    }

    /// Specifies the maximum number of returned documents.
    pub fn rows(&mut self, rows: usize)
        ensures
            final(self).endpoint() == old(self).endpoint(),
            final(self).collection() == old(self).collection(),
            final(self).params() == param_store(
                old(self).params(),
                "rows"@,
                decimal_of(rows as nat),
            ),
    {
        self.set(String::from_str("rows"), decimal_string(rows as u64));
    }

    /// Defines a filter query; the value is percent-encoded.
    pub fn fq(&mut self, fq: String)
        ensures
            final(self).endpoint() == old(self).endpoint(),
            final(self).collection() == old(self).collection(),
            final(self).params() == param_store(old(self).params(), "fq"@, percent_encoded(fq@)),
    {
        let encoded = percent_encode(fq.as_str());
        self.set(String::from_str("fq"), encoded);
    }

    /// Limits the document fields in the response; the value is
    /// percent-encoded.
    pub fn fl(&mut self, fl: String)
        ensures
            final(self).endpoint() == old(self).endpoint(),
            final(self).collection() == old(self).collection(),
            final(self).params() == param_store(old(self).params(), "fl"@, percent_encoded(fl@)),
    {
        let encoded = percent_encode(fl.as_str());
        self.set(String::from_str("fl"), encoded);
    }

    /// Specifies the debug information in the response; the value is
    /// percent-encoded.
    pub fn debug(&mut self, debug: String)
        ensures
            final(self).endpoint() == old(self).endpoint(),
            final(self).collection() == old(self).collection(),
            final(self).params() == param_store(
                old(self).params(),
                "debug"@,
                percent_encoded(debug@),
            ),
    {
        let encoded = percent_encode(debug.as_str());
        self.set(String::from_str("debug"), encoded);
    }

    /// Specifies a query identifying documents whose scoring is explained;
    /// the value is percent-encoded.
    pub fn explain_other(&mut self, explain_other: String)
        ensures
            final(self).endpoint() == old(self).endpoint(),
            final(self).collection() == old(self).collection(),
            final(self).params() == param_store(
                old(self).params(),
                "explainOther"@,
                percent_encoded(explain_other@),
            ),
    {
        let encoded = percent_encode(explain_other.as_str());
        self.set(String::from_str("explainOther"), encoded);
    }

    /// Specifies the time allowed for the search, in milliseconds.
    pub fn time_allowed(&mut self, time_allowed: usize)
        ensures
            final(self).endpoint() == old(self).endpoint(),
            final(self).collection() == old(self).collection(),
            final(self).params() == param_store(
                old(self).params(),
                "timeAllowed"@,
                decimal_of(time_allowed as nat),
            ),
    {
        self.set(String::from_str("timeAllowed"), decimal_string(time_allowed as u64));
    }

    /// Enables skipping documents on a per-segment basis.
    pub fn segment_terminate_early(&mut self, segment_terminate_early: bool)
        ensures
            final(self).endpoint() == old(self).endpoint(),
            final(self).collection() == old(self).collection(),
            final(self).params() == param_store(
                old(self).params(),
                "segmentTerminateEarly"@,
                bool_text(segment_terminate_early),
            ),
    {
        self.set(
            String::from_str("segmentTerminateEarly"),
            bool_string(segment_terminate_early),
        );
    }

    /// Excludes the header from the response.
    pub fn omit_header(&mut self, omit_header: bool)
        ensures
            final(self).endpoint() == old(self).endpoint(),
            final(self).collection() == old(self).collection(),
            final(self).params() == param_store(
                old(self).params(),
                "omitHeader"@,
                bool_text(omit_header),
            ),
    {
        self.set(String::from_str("omitHeader"), bool_string(omit_header));
    }

    /// Defines the response format; the value is percent-encoded.
    pub fn wt(&mut self, wt: String)
        ensures
            final(self).endpoint() == old(self).endpoint(),
            final(self).collection() == old(self).collection(),
            final(self).params() == param_store(old(self).params(), "wt"@, percent_encoded(wt@)),
    {
        let encoded = percent_encode(wt.as_str());
        self.set(String::from_str("wt"), encoded);
    }

    /// Enables caching of the query's results.
    pub fn cache(&mut self, cache: bool)
        ensures
            final(self).endpoint() == old(self).endpoint(),
            final(self).collection() == old(self).collection(),
            final(self).params() == param_store(old(self).params(), "cache"@, bool_text(cache)),
    {
        self.set(String::from_str("cache"), bool_string(cache));
    }

    /// Specifies which parameters of the query are logged; the value is
    /// percent-encoded.
    pub fn log_params_list(&mut self, log_params_list: String)
        ensures
            final(self).endpoint() == old(self).endpoint(),
            final(self).collection() == old(self).collection(),
            final(self).params() == param_store(
                old(self).params(),
                "logParamsList"@,
                percent_encoded(log_params_list@),
            ),
    {
        let encoded = percent_encode(log_params_list.as_str());
        self.set(String::from_str("logParamsList"), encoded);
    }

    /// Controls what request-parameter information the response header
    /// carries; the value is percent-encoded.
    pub fn echo_params(&mut self, echo_params: String)
        ensures
            final(self).endpoint() == old(self).endpoint(),
            final(self).collection() == old(self).collection(),
            final(self).params() == param_store(
                old(self).params(),
                "echoParams"@,
                percent_encoded(echo_params@),
            ),
    {
        let encoded = percent_encode(echo_params.as_str());
        self.set(String::from_str("echoParams"), encoded);
    }

    /// The search request path: `{collection}/select` followed by the
    /// accumulated parameters as a query string.
    pub fn build_path(&self) -> (r: String)
        ensures
            r@ == self.collection() + (if self.params().len() == 0 {
                "/select"@
            } else {
                "/select?"@ + query_text(self.params())
            }),
    {
        let mut path = String::new();
        path.append(self.collection_name.as_str());
        if self.params.len() == 0 {
            path.append("/select");
            proof {
                assert(path@ =~= self.collection() + "/select"@);
            }
        } else {
            path.append("/select?");
            append_query_text(&mut path, &self.params);
            proof {
                assert(path@ =~= self.collection() + ("/select?"@ + query_text(self.params())));
            }
        }
        path
    }

    /// The path the search goes to, or `MissingQuery` when no query string
    /// was ever set: without a `q` parameter no request is made.
    pub fn commit_path(&self) -> (r: Result<String, SolrError>)
        ensures
            match r {
                Result::Ok(p) => param_lookup(self.params(), "q"@) is Some && p@
                    == self.collection() + "/select?"@ + query_text(self.params()),
                Result::Err(e) => e == SolrError::MissingQuery && param_lookup(
                    self.params(),
                    "q"@,
                ) is None,
            },
    {
        let q = lookup_param(&self.params, "q");
        if q.is_none() {
            return Err(SolrError::MissingQuery);
        }
        proof {
            assert(self.params().len() != 0);
        }
        Ok(self.build_path())
    }

    /// Extracts the result documents from a search response: the array
    /// under `response.docs`, or a malformed-response failure when that
    /// path is absent or no array.
    pub fn extract_docs(res: &JsonValue) -> (r: Result<Vec<JsonValue>, SolrError>)
        ensures
            match r {
                Result::Ok(docs) => docs_of(res@) == Result::<Seq<JsonV>, SolrError>::Ok(
                    arr_views(docs@),
                ),
                Result::Err(e) => docs_of(res@) == Result::<Seq<JsonV>, SolrError>::Err(e),
            },
    {
        let resp = res.get("response");
        match resp {
            Option::Some(inner) => {
                let d = inner.get("docs");
                match d {
                    Option::Some(found) => match found {
                        JsonValue::Arr(elems) => {
                            let ghost views = arr_views(elems@);
                            proof {
                                lemma_arr_views(elems@);
                            }
                            let n = elems.len();
                            let mut docs: Vec<JsonValue> = Vec::new();
                            let mut i: usize = 0;
                            while i < n
                                invariant
                                    n == elems@.len(),
                                    i <= n,
                                    views == arr_views(elems@),
                                    views.len() == n,
                                    forall|j: int| 0 <= j < n ==> #[trigger] views[j]
                                        == elems@[j]@,
                                    docs@.len() == i,
                                    forall|j: int| 0 <= j < i ==> crate::json::json_view(
                                        #[trigger] docs@[j],
                                    ) == crate::json::json_view(elems@[j]),
                                decreases n - i,
                            {
                                let d = elems[i].duplicate();
                                docs.push(d);
                                i = i + 1;
                            }
                            proof {
                                lemma_arr_views(docs@);
                                assert(arr_views(docs@) =~= views);
                                assert(*found == JsonValue::Arr(*elems));
                            }
                            Ok(docs)
                        },
                        _ => Err(SolrError::MalformedResponse),
                    },
                    Option::None => Err(SolrError::MalformedResponse),
                }
            },
            Option::None => Err(SolrError::MalformedResponse),
        }
    }
}

} // verus!
