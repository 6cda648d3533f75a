//! The collections API: listing, finding and deleting collections, and the
//! builder that accumulates creation parameters and turns a creation
//! response into a fresh collection handle.

use vstd::prelude::*;
use crate::client::Solr;
use crate::collection::Collection;
use crate::encode::{
    bool_string, bool_text, decimal_of, decimal_string, lemma_bool_plain, lemma_decimal_plain,
    percent_encode, percent_encoded,
};
use crate::json::{arr_views, json_get, lemma_arr_views, JsonV, JsonValue};
use crate::params::{
    append_query_text, lookup_param, param_lookup, param_store, params_view, query_text,
    store_param,
};
use crate::SolrError;

verus! {

/// An API handle for managing the endpoint's collections.
#[derive(Debug)]
pub struct CollectionsAPI {
    client: Solr,
}

/// The collection names carried in a listing response: the `collections`
/// key must hold an array of strings, else the response is malformed.
pub open spec fn collection_names(v: JsonV) -> Result<Seq<Seq<char>>, SolrError> {
    match json_get(v, "collections"@) {
        Option::Some(c) => match c {
            JsonV::Arr(elems) => if forall|i: int|
                0 <= i < elems.len() ==> (#[trigger] elems[i]) is Str {
                Result::Ok(Seq::new(elems.len(), |i: int| elems[i]->Str_0))
            } else {
                Result::Err(SolrError::MalformedResponse)
            },
            _ => Result::Err(SolrError::MalformedResponse),
        },
        Option::None => Result::Err(SolrError::MalformedResponse),
    }
}

impl Solr {
    /// The API for creating and managing this endpoint's collections.
    pub fn collections(&self) -> (r: CollectionsAPI)
        ensures
            r.endpoint() == *self,
    {
        CollectionsAPI { client: self.clone() }
    }
}

impl CollectionsAPI {
    /// The endpoint the API's requests go to.
    pub closed spec fn endpoint(self) -> Solr {
        self.client
    }

    /// An API handle for the given endpoint.
    pub fn new(client: &Solr) -> (r: CollectionsAPI)
        ensures
            r.endpoint() == *client,
    {
        CollectionsAPI { client: client.clone() }
    }

    /// A builder for a new collection with the given name.
    pub fn create(&self, name: String) -> (r: CollectionBuilder)
        ensures
            r.endpoint() == self.endpoint(),
            r.params() == param_store(
                Seq::<(Seq<char>, Seq<char>)>::empty(),
                "name"@,
                percent_encoded(name@),
            ),
    {
        CollectionBuilder::new(&self.client, name)
    }

    /// The path that lists the existing collections.
    pub fn list_path() -> (r: String)
        ensures
            r@ == "admin/collections?action=LIST"@,
    {
        String::from_str("admin/collections?action=LIST")
    }

    /// The path that deletes the collection of the given name; the name is
    /// percent-encoded like every other value the paths carry.
    pub fn delete_path(&self, name: &str) -> (r: String)
        ensures
            r@ == "admin/collections?action=DELETE&name="@ + percent_encoded(name@),
    {
        let mut path = String::from_str("admin/collections?action=DELETE&name=");
        let encoded = percent_encode(name);
        path.append(encoded.as_str());
        path
    }

    /// Reads a listing response into collection handles, one per listed
    /// name, each with an empty batch.
    pub fn parse_collection_list(&self, res: &JsonValue) -> (r: Result<Vec<Collection>, SolrError>)
        ensures
            match r {
                Result::Ok(cols) => match collection_names(res@) {
                    Result::Ok(names) => cols@.len() == names.len() && forall|i: int|
                        0 <= i < names.len() ==> (#[trigger] cols@[i]).spec_name() == names[i]
                            && cols@[i].endpoint() == self.endpoint() && cols@[i].docs()
                            == Seq::<JsonV>::empty() && cols@[i].pending_error() is None,
                    Result::Err(_) => false,
                },
                Result::Err(e) => collection_names(res@) == Result::<
                    Seq<Seq<char>>,
                    SolrError,
                >::Err(e),
            },
    {
        let listed = res.get("collections");
        match listed {
            Option::Some(v) => match v {
                JsonValue::Arr(elems) => {
                    let ghost views = arr_views(elems@);
                    proof {
                        lemma_arr_views(elems@);
                    }
                    let n = elems.len();
                    let mut cols: Vec<Collection> = Vec::new();
                    let mut i: usize = 0;
                    while i < n
                        invariant
                            n == elems@.len(),
                            i <= n,
                            views == arr_views(elems@),
                            views.len() == n,
                            forall|j: int| 0 <= j < n ==> #[trigger] views[j] == elems@[j]@,
                            forall|j: int| 0 <= j < i ==> (#[trigger] views[j]) is Str,
                            cols@.len() == i,
                            forall|j: int| 0 <= j < i ==> (#[trigger] cols@[j]).spec_name()
                                == views[j]->Str_0 && cols@[j].endpoint() == self.endpoint()
                                && cols@[j].docs() == Seq::<JsonV>::empty()
                                && cols@[j].pending_error() is None,
                            *v == JsonValue::Arr(*elems),
                            json_get(res@, "collections"@) == Option::Some(v@),
                        decreases n - i,
                    {
                        match &elems[i] {
                            JsonValue::Str(s) => {
                                let col = Collection::new(&self.client, s.clone());
                                cols.push(col);
                                i = i + 1;
                            },
                            _ => {
                                proof {
                                    assert(!(views[i as int] is Str));
                                }
                                return Err(SolrError::MalformedResponse);
                            },
                        }
                    }
                    proof {
                        let names = (match collection_names(res@) {
                            Result::Ok(names) => names,
                            Result::Err(_) => Seq::empty(),
                        });
                        assert(collection_names(res@) == Result::<
                            Seq<Seq<char>>,
                            SolrError,
                        >::Ok(names));
                    }
                    Ok(cols)
                },
                _ => Err(SolrError::MalformedResponse),
            },
            Option::None => Err(SolrError::MalformedResponse),
        }
    }

    /// A handle to the collection of the given name, when a listing
    /// response names it; `NotFound` when the listing does not.
    pub fn find_collection(&self, res: &JsonValue, name: String) -> (r: Result<
        Collection,
        SolrError,
    >)
        ensures
            match collection_names(res@) {
                Result::Ok(names) => if names.contains(name@) {
                    match r {
                        Result::Ok(col) => col.spec_name() == name@ && col.endpoint()
                            == self.endpoint() && col.docs() == Seq::<JsonV>::empty()
                            && col.pending_error() is None,
                        Result::Err(_) => false,
                    }
                } else {
                    r == Result::<Collection, SolrError>::Err(SolrError::NotFound)
                },
                Result::Err(e) => r == Result::<Collection, SolrError>::Err(e),
            },
    {
        let listed = res.get("collections");
        match listed {
            Option::Some(v) => match v {
                JsonValue::Arr(elems) => {
                    let ghost views = arr_views(elems@);
                    proof {
                        lemma_arr_views(elems@);
                    }
                    let n = elems.len();
                    let mut i: usize = 0;
                    while i < n
                        invariant
                            n == elems@.len(),
                            i <= n,
                            views == arr_views(elems@),
                            views.len() == n,
                            forall|j: int| 0 <= j < n ==> #[trigger] views[j] == elems@[j]@,
                            forall|j: int| 0 <= j < i ==> (#[trigger] views[j]) is Str,
                            *v == JsonValue::Arr(*elems),
                            json_get(res@, "collections"@) == Option::Some(v@),
                        decreases n - i,
                    {
                        match &elems[i] {
                            JsonValue::Str(_) => {
                                i = i + 1;
                            },
                            _ => {
                                proof {
                                    assert(!(views[i as int] is Str));
                                }
                                return Err(SolrError::MalformedResponse);
                            },
                        }
                    }
                    let ghost names = (match collection_names(res@) {
                        Result::Ok(names) => names,
                        Result::Err(_) => Seq::empty(),
                    });
                    proof {
                        assert(collection_names(res@) == Result::<
                            Seq<Seq<char>>,
                            SolrError,
                        >::Ok(names));
                    }
                    let mut k: usize = 0;
                    while k < n
                        invariant
                            n == elems@.len(),
                            k <= n,
                            views == arr_views(elems@),
                            views.len() == n,
                            names.len() == n,
                            forall|j: int| 0 <= j < n ==> #[trigger] views[j] == elems@[j]@,
                            forall|j: int| 0 <= j < n ==> (#[trigger] views[j]) is Str,
                            forall|j: int| 0 <= j < n ==> #[trigger] names[j] == views[j]->Str_0,
                            forall|j: int| 0 <= j < k ==> #[trigger] names[j] != name@,
                            *v == JsonValue::Arr(*elems),
                            json_get(res@, "collections"@) == Option::Some(v@),
                            collection_names(res@) == Result::<Seq<Seq<char>>, SolrError>::Ok(
                                names,
                            ),
                        decreases n - k,
                    {
                        match &elems[k] {
                            JsonValue::Str(s) => {
                                if crate::encode::str_eq(s.as_str(), name.as_str()) {
                                    proof {
                                        assert(names[k as int] == name@);
                                        assert(names.contains(name@));
                                    }
                                    return Ok(Collection::new(&self.client, name));
                                }
                                k = k + 1;
                            },
                            _ => {
                                proof {
                                    assert(false);
                                }
                                vstd::pervasive::unreached()
                            },
                        }
                    }
                    proof {
                        assert(!names.contains(name@));
                    }
                    Err(SolrError::NotFound)
                },
                _ => Err(SolrError::MalformedResponse),
            },
            Option::None => Err(SolrError::MalformedResponse),
        }
    }
}

/// A builder that accumulates collection-creation parameters; every value is
/// percent-encoded before it is stored.
#[derive(Debug)]
pub struct CollectionBuilder {
    client: Solr,
    params: Vec<(String, String)>,
}

impl CollectionBuilder {
    /// The endpoint the creation request goes to.
    pub closed spec fn endpoint(self) -> Solr {
        self.client
    }

    /// The accumulated parameters: names and already-encoded values, in
    /// insertion order.
    pub closed spec fn params(self) -> Seq<(Seq<char>, Seq<char>)> {
        params_view(self.params@)
    }

    /// A builder with the collection's name already set.
    pub(crate) fn new(client: &Solr, name: String) -> (r: CollectionBuilder)
        ensures
            r.endpoint() == *client,
            r.params() == param_store(
                Seq::<(Seq<char>, Seq<char>)>::empty(),
                "name"@,
                percent_encoded(name@),
            ),
    {
        let mut b = CollectionBuilder { client: client.clone(), params: Vec::new() };
        proof {
            assert(b.params() =~= Seq::<(Seq<char>, Seq<char>)>::empty());
        }
        b.set(String::from_str("name"), name);
        b
    }

    /// Sets a creation parameter; the value is percent-encoded before it is
    /// stored, and an earlier value of the same parameter is replaced.
    pub fn set(&mut self, param: String, value: String)
        ensures
            final(self).endpoint() == old(self).endpoint(),
            final(self).params() == param_store(
                old(self).params(),
                param@,
                percent_encoded(value@),
            ),
    {
        let encoded = percent_encode(value.as_str());
        store_param(&mut self.params, param, encoded);
    }

    /// Sets the name of the router used for the collection.
    pub fn router_name(&mut self, router_name: String)
        ensures
            final(self).endpoint() == old(self).endpoint(),
            final(self).params() == param_store(
                old(self).params(),
                "router.name"@,
                percent_encoded(router_name@),
            ),
    {
        self.set(String::from_str("router.name"), router_name);
    }

    /// Sets the number of shards created as part of the collection.
    pub fn num_shards(&mut self, num_shards: usize)
        ensures
            final(self).endpoint() == old(self).endpoint(),
            final(self).params() == param_store(
                old(self).params(),
                "numShards"@,
                decimal_of(num_shards as nat),
            ),
    {
        proof {
            lemma_decimal_plain(num_shards as nat);
        }
        self.set(String::from_str("numShards"), decimal_string(num_shards as u64));
    }

    /// Sets the shard names.
    pub fn shards(&mut self, shards: String)
        ensures
            final(self).endpoint() == old(self).endpoint(),
            final(self).params() == param_store(
                old(self).params(),
                "shards"@,
                percent_encoded(shards@),
            ),
    {
        self.set(String::from_str("shards"), shards);
    }

    /// Sets the number of replicas created for each shard.
    pub fn replication_factor(&mut self, replication_factor: usize)
        ensures
            final(self).endpoint() == old(self).endpoint(),
            final(self).params() == param_store(
                old(self).params(),
                "replicationFactor"@,
                decimal_of(replication_factor as nat),
            ),
    {
        proof {
            lemma_decimal_plain(replication_factor as nat);
        }
        self.set(
            String::from_str("replicationFactor"),
            decimal_string(replication_factor as u64),
        );
    }

    /// Sets the number of NRT replicas created for the collection.
    pub fn nrt_replicas(&mut self, nrt_replicas: usize)
        ensures
            final(self).endpoint() == old(self).endpoint(),
            final(self).params() == param_store(
                old(self).params(),
                "nrtReplicas"@,
                decimal_of(nrt_replicas as nat),
            ),
    {
        proof {
            lemma_decimal_plain(nrt_replicas as nat);
        }
        self.set(String::from_str("nrtReplicas"), decimal_string(nrt_replicas as u64));
    }

    /// Sets the number of TLOG replicas created for the collection.
    pub fn tlog_replicas(&mut self, tlog_replicas: usize)
        ensures
            final(self).endpoint() == old(self).endpoint(),
            final(self).params() == param_store(
                old(self).params(),
                "tlogReplicas"@,
                decimal_of(tlog_replicas as nat),
            ),
    {
        proof {
            lemma_decimal_plain(tlog_replicas as nat);
        }
        self.set(String::from_str("tlogReplicas"), decimal_string(tlog_replicas as u64));
    }

    /// Sets the number of PULL replicas created for the collection.
    pub fn pull_replicas(&mut self, pull_replicas: usize)
        ensures
            final(self).endpoint() == old(self).endpoint(),
            final(self).params() == param_store(
                old(self).params(),
                "pullReplicas"@,
                decimal_of(pull_replicas as nat),
            ),
    {
        proof {
            lemma_decimal_plain(pull_replicas as nat);
        }
        self.set(String::from_str("pullReplicas"), decimal_string(pull_replicas as u64));
    }

    /// Sets the maximum number of shards per node.
    pub fn max_shards_per_node(&mut self, max_shards_per_node: usize)
        ensures
            final(self).endpoint() == old(self).endpoint(),
            final(self).params() == param_store(
                old(self).params(),
                "maxShardsPerNode"@,
                decimal_of(max_shards_per_node as nat),
            ),
    {
        proof {
            lemma_decimal_plain(max_shards_per_node as nat);
        }
        self.set(
            String::from_str("maxShardsPerNode"),
            decimal_string(max_shards_per_node as u64),
        );
    }

    /// Defines the nodes to spread the new collection across.
    pub fn create_node_set(&mut self, create_node_set: String)
        ensures
            final(self).endpoint() == old(self).endpoint(),
            final(self).params() == param_store(
                old(self).params(),
                "createNodeSet"@,
                percent_encoded(create_node_set@),
            ),
    {
        self.set(String::from_str("createNodeSet"), create_node_set);
    }

    /// Controls whether replicas are spread over the node set in order or
    /// after shuffling it.
    pub fn create_node_set_shuffle(&mut self, create_node_set_shuffle: bool)
        ensures
            final(self).endpoint() == old(self).endpoint(),
            final(self).params() == param_store(
                old(self).params(),
                "createNodeSet.shuffle"@,
                bool_text(create_node_set_shuffle),
            ),
    {
        proof {
            lemma_bool_plain(create_node_set_shuffle);
        }
        self.set(String::from_str("createNodeSet.shuffle"), bool_string(create_node_set_shuffle));
    }

    /// Defines the name of the configuration set the collection uses; the
    /// value is percent-encoded.
    pub fn collection_config_name(&mut self, collection_config_name: String)
        ensures
            final(self).endpoint() == old(self).endpoint(),
            final(self).params() == param_store(
                old(self).params(),
                "collection.configName"@,
                percent_encoded(collection_config_name@),
            ),
    {
        self.set(String::from_str("collection.configName"), collection_config_name);
    }

    /// Sets the name of the field used to compute the routing hash.
    pub fn router_field(&mut self, router_field: String)
        ensures
            final(self).endpoint() == old(self).endpoint(),
            final(self).params() == param_store(
                old(self).params(),
                "routerField"@,
                percent_encoded(router_field@),
            ),
    {
        self.set(String::from_str("routerField"), router_field);
    }

    /// Enables automatic addition of replicas when the number of active
    /// replicas falls below the replication factor.
    pub fn auto_add_replicas(&mut self, auto_add_replicas: bool)
        ensures
            final(self).endpoint() == old(self).endpoint(),
            final(self).params() == param_store(
                old(self).params(),
                "autoAddReplicas"@,
                bool_text(auto_add_replicas),
            ),
    {
        proof {
            lemma_bool_plain(auto_add_replicas);
        }
        self.set(String::from_str("autoAddReplicas"), bool_string(auto_add_replicas));
    }

    /// Defines a replica placement rule.
    pub fn rule(&mut self, rule: String)
        ensures
            final(self).endpoint() == old(self).endpoint(),
            final(self).params() == param_store(old(self).params(), "rule"@, percent_encoded(rule@)),
    {
        self.set(String::from_str("rule"), rule);
    }

    /// Defines details of the snitch provider.
    pub fn snitch(&mut self, snitch: String)
        ensures
            final(self).endpoint() == old(self).endpoint(),
            final(self).params() == param_store(
                old(self).params(),
                "snitch"@,
                percent_encoded(snitch@),
            ),
    {
        self.set(String::from_str("snitch"), snitch);
    }

    /// Defines the name of the collection-level placement policy.
    pub fn policy(&mut self, policy: String)
        ensures
            final(self).endpoint() == old(self).endpoint(),
            final(self).params() == param_store(
                old(self).params(),
                "policy"@,
                percent_encoded(policy@),
            ),
    {
        self.set(String::from_str("policy"), policy);
    }

    /// When set, the request completes only when all affected replicas are
    /// active.
    pub fn wait_for_final_state(&mut self, wait_for_final_state: String)
        ensures
            final(self).endpoint() == old(self).endpoint(),
            final(self).params() == param_store(
                old(self).params(),
                "waitForFinalState"@,
                percent_encoded(wait_for_final_state@),
            ),
    {
        self.set(String::from_str("waitForFinalState"), wait_for_final_state);
    }

    /// Names the collection with which all replicas of this one must be
    /// co-located.
    pub fn with_collection(&mut self, with_collection: String)
        ensures
            final(self).endpoint() == old(self).endpoint(),
            final(self).params() == param_store(
                old(self).params(),
                "withCollection"@,
                percent_encoded(with_collection@),
            ),
    {
        self.set(String::from_str("withCollection"), with_collection);
    }

    /// Defines an alias for the collection.
    pub fn alias(&mut self, alias: String)
        ensures
            final(self).endpoint() == old(self).endpoint(),
            final(self).params() == param_store(
                old(self).params(),
                "alias"@,
                percent_encoded(alias@),
            ),
    {
        self.set(String::from_str("alias"), alias);
    }

    /// The creation request path: the CREATE action followed by every
    /// accumulated parameter.
    pub fn build_path(&self) -> (r: String)
        ensures
            r@ == "admin/collections?action=CREATE"@ + (if self.params().len() == 0 {
                Seq::<char>::empty()
            } else {
                "&"@ + query_text(self.params())
            }),
    {
        let mut path = String::from_str("admin/collections?action=CREATE");
        if self.params.len() > 0 {
            path.append("&");
            append_query_text(&mut path, &self.params);
        }
        proof {
            if self.params().len() == 0 {
                assert(path@ =~= "admin/collections?action=CREATE"@ + Seq::<char>::empty());
            } else {
                assert(path@ =~= "admin/collections?action=CREATE"@ + ("&"@ + query_text(
                    self.params(),
                )));
            }
        }
        path
    }

    /// The path the creation request goes to, or a validation failure when
    /// no name parameter is stored.
    pub fn commit_path(&self) -> (r: Result<String, SolrError>)
        ensures
            match r {
                Result::Ok(p) => param_lookup(self.params(), "name"@) is Some && p@
                    == "admin/collections?action=CREATE"@ + (if self.params().len() == 0 {
                    Seq::<char>::empty()
                } else {
                    "&"@ + query_text(self.params())
                }),
                Result::Err(e) => e == SolrError::Validation && param_lookup(
                    self.params(),
                    "name"@,
                ) is None,
            },
    {
        let name = lookup_param(&self.params, "name");
        if name.is_none() {
            return Err(SolrError::Validation);
        }
        Ok(self.build_path())
    }

    /// Turns the creation response into a fresh handle: a missing name
    /// parameter is a validation failure, a response without a `success`
    /// key a server failure, and anything else the new collection, bound to
    /// the stored (encoded) name.
    pub fn commit_finish(&self, res: &JsonValue) -> (r: Result<Collection, SolrError>)
        ensures
            match param_lookup(self.params(), "name"@) {
                Option::None => r == Result::<Collection, SolrError>::Err(SolrError::Validation),
                Option::Some(stored) => if json_get(res@, "success"@) is None {
                    r == Result::<Collection, SolrError>::Err(SolrError::Server)
                } else {
                    match r {
                        Result::Ok(col) => col.spec_name() == stored && col.endpoint()
                            == self.endpoint() && col.docs() == Seq::<JsonV>::empty()
                            && col.pending_error() is None,
                        Result::Err(_) => false,
                    }
                },
            },
    {
        let name = lookup_param(&self.params, "name");
        match name {
            Option::None => Err(SolrError::Validation),
            Option::Some(stored) => {
                if res.get("success").is_none() {
                    return Err(SolrError::Server);
                }
                Ok(Collection::new(&self.client, stored.clone()))
            },
        }
    }
}

} // verus!
