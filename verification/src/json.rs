//! The JSON-compatible value type used throughout the library: field
//! descriptors, documents and request bodies are all values of this sum
//! type, and the contracts speak of its mathematical model [`JsonV`].

use vstd::prelude::*;

verus! {

/// A JSON-compatible value: null, a boolean, an integer, a number carried as
/// its literal text, a string, an array, or an object held as an ordered list
/// of key-value pairs.
#[derive(Debug, PartialEq, Eq)]
pub enum JsonValue {
    Null,
    Bool(bool),
    Int(i64),
    /// A JSON number carried as its literal decimal text; used for numbers
    /// that arrive from outside and do not fit `Int`.
    Num(String),
    Str(String),
    Arr(Vec<JsonValue>),
    Obj(Vec<(String, JsonValue)>),
}

/// The mathematical model of a [`JsonValue`]: the same tree over `int`,
/// `Seq<char>` and `Seq`.
#[verifier::ext_equal]
pub enum JsonV {
    Null,
    Bool(bool),
    Int(int),
    Num(Seq<char>),
    Str(Seq<char>),
    Arr(Seq<JsonV>),
    Obj(Seq<(Seq<char>, JsonV)>),
}

/// The model of a [`JsonValue`].
pub open spec fn json_view(v: JsonValue) -> JsonV
    decreases v,
{
    match v {
        JsonValue::Null => JsonV::Null,
        JsonValue::Bool(b) => JsonV::Bool(b),
        JsonValue::Int(i) => JsonV::Int(i as int),
        JsonValue::Num(t) => JsonV::Num(t@),
        JsonValue::Str(s) => JsonV::Str(s@),
        JsonValue::Arr(a) => JsonV::Arr(arr_views(a@)),
        JsonValue::Obj(o) => JsonV::Obj(obj_views(o@)),
    }
}

/// The models of an array's elements, in order.
pub open spec fn arr_views(s: Seq<JsonValue>) -> Seq<JsonV>
    decreases s,
{
    if s.len() == 0 {
        Seq::empty()
    } else {
        seq![json_view(s[0])] + arr_views(s.drop_first())
    }
}

/// The models of an object's key-value pairs, in order.
pub open spec fn obj_views(s: Seq<(String, JsonValue)>) -> Seq<(Seq<char>, JsonV)>
    decreases s,
{
    if s.len() == 0 {
        Seq::empty()
    } else {
        seq![(s[0].0@, json_view(s[0].1))] + obj_views(s.drop_first())
    }
}

impl View for JsonValue {
    type V = JsonV;

    open spec fn view(&self) -> JsonV {
        json_view(*self)
    }
}

/// [`arr_views`] maps the sequence elementwise.
pub proof fn lemma_arr_views(s: Seq<JsonValue>)
    ensures
        arr_views(s).len() == s.len(),
        forall|i: int| 0 <= i < s.len() ==> #[trigger] arr_views(s)[i] == json_view(s[i]),
    decreases s.len(),
{
    if s.len() > 0 {
        lemma_arr_views(s.drop_first());
        assert forall|i: int| 0 <= i < s.len() implies #[trigger] arr_views(s)[i] == json_view(
            s[i],
        ) by {
            if i > 0 {
                assert(arr_views(s)[i] == arr_views(s.drop_first())[i - 1]);
                assert(s.drop_first()[i - 1] == s[i]);
            }
        }
    }
}

/// [`obj_views`] maps the sequence elementwise.
pub proof fn lemma_obj_views(s: Seq<(String, JsonValue)>)
    ensures
        obj_views(s).len() == s.len(),
        forall|i: int| 0 <= i < s.len() ==> #[trigger] obj_views(s)[i] == (s[i].0@, json_view(
            s[i].1,
        )),
    decreases s.len(),
{
    if s.len() > 0 {
        lemma_obj_views(s.drop_first());
        assert forall|i: int| 0 <= i < s.len() implies #[trigger] obj_views(s)[i] == (s[i].0@,
        json_view(s[i].1)) by {
            if i > 0 {
                assert(obj_views(s)[i] == obj_views(s.drop_first())[i - 1]);
                assert(s.drop_first()[i - 1] == s[i]);
            }
        }
    }
}

/// Appending one element appends its model.
pub proof fn lemma_arr_views_push(s: Seq<JsonValue>, x: JsonValue)
    ensures
        arr_views(s.push(x)) == arr_views(s).push(json_view(x)),
{
    lemma_arr_views(s.push(x));
    lemma_arr_views(s);
    assert(arr_views(s.push(x)) =~= arr_views(s).push(json_view(x)));
}

impl JsonV {
    /// Whether the value is an object.
    pub open spec fn is_object(self) -> bool {
        self is Obj
    }

    /// Whether the value is an array.
    pub open spec fn is_array(self) -> bool {
        self is Arr
    }
}

/// The value under `key` among an object's pairs: the first pair whose key
/// matches, if any.
pub open spec fn obj_lookup(fields: Seq<(Seq<char>, JsonV)>, key: Seq<char>) -> Option<JsonV>
    decreases fields.len(),
{
    if fields.len() == 0 {
        Option::None
    } else if fields[0].0 == key {
        Option::Some(fields[0].1)
    } else {
        obj_lookup(fields.drop_first(), key)
    }
}

/// The value under `key` in a JSON value: defined only on objects, `None`
/// everywhere else.
pub open spec fn json_get(v: JsonV, key: Seq<char>) -> Option<JsonV> {
    match v {
        JsonV::Obj(fields) => obj_lookup(fields, key),
        _ => Option::None,
    }
}

/// A prefix without the key contributes nothing to the lookup.
pub proof fn lemma_obj_lookup_skip(fields: Seq<(Seq<char>, JsonV)>, key: Seq<char>, i: int)
    requires
        0 <= i <= fields.len(),
        forall|j: int| 0 <= j < i ==> #[trigger] fields[j].0 != key,
    ensures
        obj_lookup(fields, key) == obj_lookup(fields.skip(i), key),
    decreases i,
{
    if i > 0 {
        lemma_obj_lookup_skip(fields.drop_first(), key, i - 1);
        assert(fields.drop_first().skip(i - 1) =~= fields.skip(i));
    } else {
        assert(fields.skip(0) =~= fields);
    }
}


/// A lookup that succeeds returns one of the pairs' values.
pub proof fn lemma_obj_lookup_witness(fields: Seq<(Seq<char>, JsonV)>, key: Seq<char>)
    requires
        obj_lookup(fields, key) is Some,
    ensures
        exists|i: int|
            0 <= i < fields.len() && obj_lookup(fields, key) == Option::Some(
                (#[trigger] fields[i]).1,
            ),
    decreases fields.len(),
{
    if fields[0].0 == key {
        assert(obj_lookup(fields, key) == Option::Some(fields[0].1));
    } else {
        lemma_obj_lookup_witness(fields.drop_first(), key);
        let i = choose|i: int|
            0 <= i < fields.drop_first().len() && obj_lookup(fields.drop_first(), key)
                == Option::Some((#[trigger] fields.drop_first()[i]).1);
        assert(fields.drop_first()[i] == fields[i + 1]);
        assert(obj_lookup(fields, key) == Option::Some(fields[i + 1].1));
    }
}

impl JsonValue {
    /// Whether the value is an object.
    pub fn is_object(&self) -> (r: bool)
        ensures
            r == self@.is_object(),
    {
        match self {
            JsonValue::Obj(_) => true,
            _ => false,
        }
    }

    /// Whether the value is an array.
    pub fn is_array(&self) -> (r: bool)
        ensures
            r == self@.is_array(),
    {
        match self {
            JsonValue::Arr(_) => true,
            _ => false,
        }
    }

    /// The value under `key`, if this value is an object that carries it.
    /// A found value is one of the object's own pairs, which keeps it
    /// structurally below the object for recursion over it.
    pub fn get<'a>(&'a self, key: &str) -> (r: Option<&'a JsonValue>)
        ensures
            match r {
                Option::Some(x) => json_get(self@, key@) == Option::Some(x@) && (decreases_to!(
                    *self => *x)),
                Option::None => json_get(self@, key@) is None,
            },
    {
        match self {
            JsonValue::Obj(fields) => {
                let ghost ov = obj_views(fields@);
                proof {
                    lemma_obj_views(fields@);
                }
                let n = fields.len();
                let mut i: usize = 0;
                while i < n
                    invariant
                        n == fields@.len(),
                        i <= n,
                        ov == obj_views(fields@),
                        ov.len() == n,
                        forall|j: int| 0 <= j < n ==> #[trigger] ov[j] == (fields@[j].0@,
                        json_view(fields@[j].1)),
                        forall|j: int| 0 <= j < i ==> #[trigger] ov[j].0 != key@,
                        self@ == JsonV::Obj(ov),
                        *self == JsonValue::Obj(*fields),
                    decreases n - i,
                {
                    if crate::encode::str_eq(fields[i].0.as_str(), key) {
                        proof {
                            lemma_obj_lookup_skip(ov, key@, i as int);
                            assert(ov.skip(i as int)[0] == ov[i as int]);
                            assert(decreases_to!(*self => (*self)->Obj_0));
                            assert((*self)->Obj_0 == *fields);
                            assert(decreases_to!(*fields => (*fields)[i as int]));
                            assert(decreases_to!(fields@[i as int] => fields@[i as int].1));
                        }
                        return Some(&fields[i].1);
                    }
                    i = i + 1;
                }
                proof {
                    lemma_obj_lookup_skip(ov, key@, n as int);
                    assert(ov.skip(n as int) =~= Seq::empty());
                }
                None
            },
            _ => None,
        }
    }

    /// A deep copy with the same model.
    pub fn duplicate(&self) -> (r: JsonValue)
        ensures
            r@ == self@,
        decreases *self,
    {
        match self {
            JsonValue::Null => JsonValue::Null,
            JsonValue::Bool(b) => JsonValue::Bool(*b),
            JsonValue::Int(i) => JsonValue::Int(*i),
            JsonValue::Num(t) => JsonValue::Num(t.clone()),
            JsonValue::Str(s) => JsonValue::Str(s.clone()),
            JsonValue::Arr(a) => {
                let mut out: Vec<JsonValue> = Vec::new();
                let n = a.len();
                let mut i: usize = 0;
                while i < n
                    invariant
                        n == a@.len(),
                        i <= n,
                        out@.len() == i,
                        forall|j: int| 0 <= j < i ==> json_view(#[trigger] out@[j]) == json_view(
                            a@[j],
                        ),
                        *self == JsonValue::Arr(*a),
                    decreases n - i,
                {
                    proof {
                        assert(decreases_to!(*a => (*a)[i as int]));
                        assert(*self == JsonValue::Arr(*a));
                        assert(decreases_to!(*self => (*self)->Arr_0));
                        assert((*self)->Arr_0 == *a);
                    }
                    let d = a[i].duplicate();
                    out.push(d);
                    i = i + 1;
                }
                proof {
                    lemma_arr_views(out@);
                    lemma_arr_views(a@);
                    assert(arr_views(out@) =~= arr_views(a@));
                }
                JsonValue::Arr(out)
            },
            JsonValue::Obj(o) => {
                let mut out: Vec<(String, JsonValue)> = Vec::new();
                let n = o.len();
                let mut i: usize = 0;
                while i < n
                    invariant
                        n == o@.len(),
                        i <= n,
                        out@.len() == i,
                        forall|j: int| 0 <= j < i ==> (#[trigger] out@[j]).0@ == o@[j].0@
                            && json_view(out@[j].1) == json_view(o@[j].1),
                        *self == JsonValue::Obj(*o),
                    decreases n - i,
                {
                    proof {
                        assert(decreases_to!(*o => (*o)[i as int]));
                        assert(decreases_to!((*o)[i as int] => (*o)[i as int].1));
                        assert(*self == JsonValue::Obj(*o));
                        assert(decreases_to!(*self => (*self)->Obj_0));
                        assert((*self)->Obj_0 == *o);
                    }
                    let k = o[i].0.clone();
                    let d = o[i].1.duplicate();
                    out.push((k, d));
                    i = i + 1;
                }
                proof {
                    lemma_obj_views(out@);
                    lemma_obj_views(o@);
                    assert(obj_views(out@) =~= obj_views(o@));
                }
                JsonValue::Obj(out)
            },
        }
    }
}

} // verus!
