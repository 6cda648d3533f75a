//! The parameter set a request is assembled from: name-value pairs with
//! the value already encoded, kept in insertion order so that the query
//! string they join into is deterministic.

use vstd::prelude::*;

verus! {

/// The model of a parameter list: names and values as character sequences.
pub open spec fn params_view(items: Seq<(String, String)>) -> Seq<(Seq<char>, Seq<char>)> {
    Seq::new(items.len(), |i: int| (items[i].0@, items[i].1@))
}

/// The value stored under `name`: the first pair whose name matches, if any.
pub open spec fn param_lookup(m: Seq<(Seq<char>, Seq<char>)>, name: Seq<char>) -> Option<
    Seq<char>,
>
    decreases m.len(),
{
    if m.len() == 0 {
        Option::None
    } else if m[0].0 == name {
        Option::Some(m[0].1)
    } else {
        param_lookup(m.drop_first(), name)
    }
}

/// Storing a parameter: the first pair with the same name is replaced, and
/// a new name goes to the end.
pub open spec fn param_store(
    m: Seq<(Seq<char>, Seq<char>)>,
    name: Seq<char>,
    value: Seq<char>,
) -> Seq<(Seq<char>, Seq<char>)>
    decreases m.len(),
{
    if m.len() == 0 {
        seq![(name, value)]
    } else if m[0].0 == name {
        seq![(name, value)] + m.drop_first()
    } else {
        seq![m[0]] + param_store(m.drop_first(), name, value)
    }
}

/// After a store, the stored name holds the stored value.
pub proof fn lemma_param_store_same(
    m: Seq<(Seq<char>, Seq<char>)>,
    name: Seq<char>,
    value: Seq<char>,
)
    ensures
        param_lookup(param_store(m, name, value), name) == Option::Some(value),
    decreases m.len(),
{
    reveal_with_fuel(param_lookup, 3);
    reveal_with_fuel(param_store, 3);
    if m.len() == 0 {
    } else if m[0].0 == name {
        assert(param_store(m, name, value)[0] == (name, value));
    } else {
        lemma_param_store_same(m.drop_first(), name, value);
        assert(param_store(m, name, value).drop_first() =~= param_store(
            m.drop_first(),
            name,
            value,
        ));
    }
}

/// A store leaves every other name untouched.
pub proof fn lemma_param_store_other(
    m: Seq<(Seq<char>, Seq<char>)>,
    name: Seq<char>,
    value: Seq<char>,
    other: Seq<char>,
)
    requires
        other != name,
    ensures
        param_lookup(param_store(m, name, value), other) == param_lookup(m, other),
    decreases m.len(),
{
    reveal_with_fuel(param_lookup, 3);
    reveal_with_fuel(param_store, 3);
    let st = param_store(m, name, value);
    if m.len() == 0 {
        assert(st[0].0 == name);
        assert(st.drop_first() =~= Seq::<(Seq<char>, Seq<char>)>::empty());
    } else if m[0].0 == name {
        assert(st[0].0 == name);
        assert(st.drop_first() =~= m.drop_first());
    } else {
        lemma_param_store_other(m.drop_first(), name, value, other);
        assert(st[0] == m[0]);
        assert(st.drop_first() =~= param_store(m.drop_first(), name, value));
    }
}

/// `name=value` for one pair.
pub open spec fn pair_text(p: (Seq<char>, Seq<char>)) -> Seq<char> {
    p.0 + "="@ + p.1
}

/// The pairs joined as `name=value` groups separated by `&`, in order.
pub open spec fn query_text(m: Seq<(Seq<char>, Seq<char>)>) -> Seq<char>
    decreases m.len(),
{
    if m.len() == 0 {
        Seq::empty()
    } else if m.len() == 1 {
        pair_text(m[0])
    } else {
        pair_text(m[0]) + "&"@ + query_text(m.drop_first())
    }
}

/// [`query_text`] restated for growth at the right end.
pub proof fn lemma_query_text_snoc(m: Seq<(Seq<char>, Seq<char>)>, p: (Seq<char>, Seq<char>))
    ensures
        m.len() == 0 ==> query_text(m.push(p)) == pair_text(p),
        m.len() > 0 ==> query_text(m.push(p)) == query_text(m) + "&"@ + pair_text(p),
    decreases m.len(),
{
    if m.len() == 0 {
        assert(m.push(p)[0] == p);
    } else {
        lemma_query_text_snoc(m.drop_first(), p);
        assert(m.push(p).drop_first() =~= m.drop_first().push(p));
        if m.len() == 1 {
            assert(query_text(m.push(p)) =~= query_text(m) + "&"@ + pair_text(p));
        } else {
            assert(query_text(m.push(p)) =~= query_text(m) + "&"@ + pair_text(p));
        }
    }
}

/// Stores a parameter in the list, replacing the value of an existing name
/// and appending a new one.
pub fn store_param(items: &mut Vec<(String, String)>, name: String, value: String)
    ensures
        params_view(final(items)@) == param_store(params_view(old(items)@), name@, value@),
{
    let ghost m = params_view(old(items)@);
    let found = find_param(items, name.as_str());
    let ghost gname = name@;
    let ghost gvalue = value@;
    match found {
        Option::Some(i) => {
            items.set(i, (name, value));
            proof {
                lemma_param_store_prefix(m, gname, gvalue, i as int);
                assert(params_view(items@) =~= m.update(i as int, (gname, gvalue)));
            }
        },
        Option::None => {
            items.push((name, value));
            proof {
                lemma_param_store_prefix(m, gname, gvalue, m.len() as int);
                assert(params_view(items@) =~= m.push((gname, gvalue)));
            }
        },
    }
}

/// The position of the first pair whose name matches, if any.
fn find_param(items: &Vec<(String, String)>, name: &str) -> (r: Option<usize>)
    ensures
        match r {
            Option::Some(i) => i < items@.len() && params_view(items@)[i as int].0 == name@
                && (forall|j: int| 0 <= j < i ==> #[trigger] params_view(items@)[j].0 != name@),
            Option::None => forall|j: int|
                0 <= j < items@.len() ==> #[trigger] params_view(items@)[j].0 != name@,
        },
{
    let n = items.len();
    let mut i: usize = 0;
    while i < n
        invariant
            n == items@.len(),
            i <= n,
            forall|j: int| 0 <= j < i ==> #[trigger] params_view(items@)[j].0 != name@,
        decreases n - i,
    {
        if crate::encode::str_eq(items[i].0.as_str(), name) {
            return Some(i);
        }
        i = i + 1;
    }
    None
}

/// When the first `i` names differ from the stored name, the store either
/// updates the first later match or, if there is none at all, appends; this
/// pins the stored list down as an update or a push.
proof fn lemma_param_store_prefix(
    m: Seq<(Seq<char>, Seq<char>)>,
    name: Seq<char>,
    value: Seq<char>,
    i: int,
)
    requires
        0 <= i <= m.len(),
        forall|j: int| 0 <= j < i ==> #[trigger] m[j].0 != name,
    ensures
        i < m.len() && m[i].0 == name ==> param_store(m, name, value) == m.update(
            i,
            (name, value),
        ),
        i == m.len() ==> param_store(m, name, value) == m.push((name, value)),
    decreases i,
{
    if i == 0 {
        if 0 < m.len() && m[0].0 == name {
            assert(param_store(m, name, value) =~= m.update(0, (name, value)));
        } else if m.len() == 0 {
            assert(param_store(m, name, value) =~= m.push((name, value)));
        }
    } else {
        lemma_param_store_prefix(m.drop_first(), name, value, i - 1);
        if i < m.len() && m[i].0 == name {
            assert(m.drop_first()[i - 1] == m[i]);
            assert(param_store(m, name, value) =~= m.update(i, (name, value)));
        } else if i == m.len() {
            assert(param_store(m, name, value) =~= m.push((name, value)));
        }
    }
}

/// Looks a parameter up by name.
pub fn lookup_param<'a>(items: &'a Vec<(String, String)>, name: &str) -> (r: Option<&'a String>)
    ensures
        match r {
            Option::Some(v) => param_lookup(params_view(items@), name@) == Option::Some(v@),
            Option::None => param_lookup(params_view(items@), name@) is None,
        },
{
    match find_param(items, name) {
        Option::Some(i) => {
            proof {
                lemma_param_lookup_prefix(params_view(items@), name@, i as int);
            }
            Some(&items[i].1)
        },
        Option::None => {
            proof {
                lemma_param_lookup_prefix(params_view(items@), name@, items@.len() as int);
            }
            None
        },
    }
}

/// When the first `i` names differ from the looked-up name, the lookup is
/// decided at or after position `i`.
proof fn lemma_param_lookup_prefix(m: Seq<(Seq<char>, Seq<char>)>, name: Seq<char>, i: int)
    requires
        0 <= i <= m.len(),
        forall|j: int| 0 <= j < i ==> #[trigger] m[j].0 != name,
    ensures
        i < m.len() && m[i].0 == name ==> param_lookup(m, name) == Option::Some(m[i].1),
        i == m.len() ==> param_lookup(m, name) is None,
    decreases i,
{
    if i > 0 {
        lemma_param_lookup_prefix(m.drop_first(), name, i - 1);
        if i < m.len() {
            assert(m.drop_first()[i - 1] == m[i]);
        }
    }
}

/// Appends `name=value` groups separated by `&` for all pairs, in order.
pub fn append_query_text(out: &mut String, items: &Vec<(String, String)>)
    ensures
        final(out)@ == old(out)@ + query_text(params_view(items@)),
{
    let ghost m = params_view(items@);
    let n = items.len();
    let mut i: usize = 0;
    while i < n
        invariant
            n == items@.len(),
            m == params_view(items@),
            i <= n,
            out@ == old(out)@ + query_text(m.take(i as int)),
        decreases n - i,
    {
        if i > 0 {
            out.append("&");
        }
        out.append(items[i].0.as_str());
        out.append("=");
        out.append(items[i].1.as_str());
        proof {
            lemma_query_text_snoc(m.take(i as int), m[i as int]);
            assert(m.take(i as int).push(m[i as int]) =~= m.take(i as int + 1));
            assert(out@ =~= old(out)@ + query_text(m.take(i as int + 1)));
        }
        i = i + 1;
    }
    proof {
        assert(m.take(n as int) =~= m);
    }
}

} // verus!
