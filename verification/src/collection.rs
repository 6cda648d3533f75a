//! A handle to one collection and its pending document batch: documents
//! queued by `add`, a sticky error set the first time a non-object element
//! is queued, and a `commit` that decides what one flush does.

use vstd::prelude::*;
use crate::client::Solr;
use crate::json::{arr_views, lemma_arr_views, lemma_arr_views_push, JsonV, JsonValue};
use crate::SolrError;

verus! {

/// What a batch commit decides: report the pending error, do nothing, or
/// send one request. The caller performs the request; the decision itself
/// makes no network call.
#[derive(Debug, PartialEq, Eq)]
pub enum FlushPlan {
    /// The sticky error is reported; nothing is sent.
    Fail(SolrError),
    /// Nothing is pending: the commit succeeds as a no-op.
    Nothing,
    /// One POST of `body` to `path`.
    Post { path: String, body: JsonValue },
}

/// A single existing collection, with the documents queued for the next
/// commit and the sticky error of the batch.
#[derive(Debug)]
pub struct Collection {
    pub(crate) client: Solr,
    /// The name of the collection.
    pub name: String,
    docs_to_commit: Vec<JsonValue>,
    error: Option<SolrError>,
}

/// The position of the first element that is not an object, or the length
/// when every element is one.
pub open spec fn first_non_object(elems: Seq<JsonV>) -> int
    decreases elems.len(),
{
    if elems.len() == 0 {
        0
    } else if !(elems[0] is Obj) {
        0
    } else {
        1 + first_non_object(elems.drop_first())
    }
}

/// When everything before `i` is an object and `i` is past the end or not
/// one, `i` is exactly where [`first_non_object`] points.
pub proof fn lemma_first_non_object_at(elems: Seq<JsonV>, i: int)
    requires
        0 <= i <= elems.len(),
        forall|j: int| 0 <= j < i ==> #[trigger] elems[j] is Obj,
        i < elems.len() ==> !(elems[i] is Obj),
    ensures
        first_non_object(elems) == i,
    decreases i,
{
    if i > 0 {
        lemma_first_non_object_at(elems.drop_first(), i - 1);
    }
}

/// What `add` does to the queue and the sticky error: an object is queued;
/// an array queues its elements up to the first non-object, which sets the
/// sticky error; anything else changes nothing.
pub open spec fn add_outcome(
    docs: Seq<JsonV>,
    err: Option<SolrError>,
    document: JsonV,
) -> (Seq<JsonV>, Option<SolrError>) {
    match document {
        JsonV::Obj(_) => (docs.push(document), err),
        JsonV::Arr(elems) => {
            let k = first_non_object(elems);
            if k == elems.len() {
                (docs + elems, err)
            } else {
                (docs + elems.take(k), Option::Some(SolrError::Validation))
            }
        },
        _ => (docs, err),
    }
}

impl Collection {
    /// The endpoint the collection's requests go to.
    pub closed spec fn endpoint(self) -> Solr {
        self.client
    }

    /// The collection's name, as the contracts speak of it.
    pub closed spec fn spec_name(self) -> Seq<char> {
        self.name@
    }

    /// The documents queued since the last commit, in order.
    pub closed spec fn docs(self) -> Seq<JsonV> {
        arr_views(self.docs_to_commit@)
    }

    /// The sticky error of the batch, if one is pending.
    pub closed spec fn pending_error(self) -> Option<SolrError> {
        self.error
    }

    /// A copy of the endpoint, for the companion builders.
    pub(crate) fn endpoint_clone(&self) -> (r: Solr)
        ensures
            r == self.endpoint(),
    {
        self.client.clone()
    }

    /// A copy of the collection's name, for the companion builders.
    pub(crate) fn name_clone(&self) -> (r: String)
        ensures
            r@ == self.spec_name(),
    {
        self.name.clone()
    }

    /// A fresh handle to the named collection, with an empty batch.
    pub fn new(client: &Solr, name: String) -> (r: Collection)
        ensures
            r.endpoint() == *client,
            r.spec_name() == name@,
            r.docs() == Seq::<JsonV>::empty(),
            r.pending_error() is None,
    {
        let r = Collection { client: client.clone(), name, docs_to_commit: Vec::new(), error: None };
        proof {
            assert(r.docs() =~= Seq::<JsonV>::empty());
        }
        r
    }

    /// Queues a document for the next commit. A single object is queued as
    /// it is. An array queues each element until the first element that is
    /// not an object: that element sets the sticky error and ends the call,
    /// and the elements already queued stay queued. Any other shape is
    /// silently ignored.
    pub fn add(&mut self, document: JsonValue)
        ensures
            final(self).spec_name() == old(self).spec_name(),
            final(self).endpoint() == old(self).endpoint(),
            (final(self).docs(), final(self).pending_error()) == add_outcome(
                old(self).docs(),
                old(self).pending_error(),
                document@,
            ),
    {
        match document {
            JsonValue::Obj(o) => {
                let ghost before = self.docs();
                let d = JsonValue::Obj(o);
                proof {
                    lemma_arr_views_push(self.docs_to_commit@, d);
                }
                self.docs_to_commit.push(d);
            },
            JsonValue::Arr(elems) => {
                let ghost views = arr_views(elems@);
                let ghost before = self.docs();
                proof {
                    lemma_arr_views(elems@);
                }
                let n = elems.len();
                let mut i: usize = 0;
                let mut stopped = false;
                while i < n && !stopped
                    invariant
                        n == elems@.len(),
                        i <= n,
                        views == arr_views(elems@),
                        views.len() == n,
                        forall|j: int| 0 <= j < n ==> #[trigger] views[j] == elems@[j]@,
                        forall|j: int| 0 <= j < i ==> #[trigger] views[j] is Obj,
                        self.docs() == before + views.take(i as int),
                        self.pending_error() == old(self).pending_error(),
                        self.spec_name() == old(self).spec_name(),
                        self.endpoint() == old(self).endpoint(),
                        stopped ==> i < n && !(views[i as int] is Obj),
                    decreases n - i + (if stopped { 0int } else { 1int }),
                {
                    if elems[i].is_object() {
                        let d = elems[i].duplicate();
                        proof {
                            lemma_arr_views_push(self.docs_to_commit@, d);
                            assert(views.take(i as int).push(views[i as int]) =~= views.take(
                                i as int + 1,
                            ));
                            assert((before + views.take(i as int)).push(views[i as int]) =~= before
                                + views.take(i as int + 1));
                        }
                        self.docs_to_commit.push(d);
                        i = i + 1;
                    } else {
                        stopped = true;
                    }
                }
                if stopped {
                    self.error = Some(SolrError::Validation);
                    proof {
                        lemma_first_non_object_at(views, i as int);
                    }
                } else {
                    proof {
                        lemma_first_non_object_at(views, n as int);
                        assert(views.take(n as int) =~= views);
                    }
                }
            },
            _ => {},
        }
    }

    /// The number of documents queued for the next commit.
    pub fn get_commit_size(&self) -> (r: usize)
        ensures
            r == self.docs().len(),
    {
        proof {
            lemma_arr_views(self.docs_to_commit@);
        }
        self.docs_to_commit.len()
    }

    /// Decides what this commit does and clears the batch. A pending sticky
    /// error is reported (and consumed); an empty queue is a successful
    /// no-op; otherwise the whole queue is sent as one JSON array to
    /// `{name}/update?commit=true`. The queue and the error are cleared
    /// whatever the decision, so a flush that later fails in transport still
    /// drops its documents: one consistent clear-on-commit policy.
    pub fn commit(&mut self) -> (r: FlushPlan)
        ensures
            final(self).spec_name() == old(self).spec_name(),
            final(self).endpoint() == old(self).endpoint(),
            final(self).docs() == Seq::<JsonV>::empty(),
            final(self).pending_error() is None,
            match old(self).pending_error() {
                Option::Some(e) => r == FlushPlan::Fail(e),
                Option::None => if old(self).docs().len() == 0 {
                    r == FlushPlan::Nothing
                } else {
                    match r {
                        FlushPlan::Post { path, body } => path@ == old(self).spec_name()
                            + "/update?commit=true"@ && body@ == JsonV::Arr(old(self).docs()),
                        _ => false,
                    }
                },
            },
    {
        proof {
            lemma_arr_views(self.docs_to_commit@);
        }
        let err = self.error;
        self.error = None;
        match err {
            Option::Some(e) => {
                self.docs_to_commit = Vec::new();
                proof {
                    assert(self.docs() =~= Seq::<JsonV>::empty());
                }
                FlushPlan::Fail(e)
            },
            Option::None => {
                if self.docs_to_commit.len() == 0 {
                    proof {
                        assert(self.docs() =~= Seq::<JsonV>::empty());
                    }
                    FlushPlan::Nothing
                } else {
                    let mut queue: Vec<JsonValue> = Vec::new();
                    core::mem::swap(&mut queue, &mut self.docs_to_commit);
                    let mut path = String::new();
                    path.append(self.name.as_str());
                    path.append("/update?commit=true");
                    proof {
                        assert(path@ =~= old(self).spec_name() + "/update?commit=true"@);
                        assert(self.docs() =~= Seq::<JsonV>::empty());
                    }
                    FlushPlan::Post { path, body: JsonValue::Arr(queue) }
                }
            },
        }
    }
}

} // verus!
