//! The schema mutation batch: fields to add, delete and replace accumulate
//! in three queues and are flushed together as one request body with up to
//! three keys, omitting the key of every empty queue.

use vstd::prelude::*;
use crate::client::Solr;
use crate::collection::{Collection, FlushPlan};
use crate::json::{arr_views, lemma_arr_views_push, lemma_obj_views, obj_views, JsonV, JsonValue};

verus! {

/// A batch of schema changes against one collection.
#[derive(Debug)]
pub struct SchemaAPI {
    client: Solr,
    collection_name: String,
    fields_to_add: Vec<JsonValue>,
    fields_to_delete: Vec<JsonValue>,
    fields_to_replace: Vec<JsonValue>,
}

/// The body of one schema flush: `add-field`, `delete-field` and
/// `replace-field` arrays, each present only when its queue is not empty.
pub open spec fn schema_body(adds: Seq<JsonV>, dels: Seq<JsonV>, reps: Seq<JsonV>) -> JsonV {
    JsonV::Obj(
        (if adds.len() > 0 {
            seq![("add-field"@, JsonV::Arr(adds))]
        } else {
            Seq::empty()
        }) + (if dels.len() > 0 {
            seq![("delete-field"@, JsonV::Arr(dels))]
        } else {
            Seq::empty()
        }) + (if reps.len() > 0 {
            seq![("replace-field"@, JsonV::Arr(reps))]
        } else {
            Seq::empty()
        }),
    )
}

impl Collection {
    /// A fresh, empty schema batch against this collection.
    pub fn schema(&self) -> (r: SchemaAPI)
        ensures
            r.endpoint() == self.endpoint(),
            r.collection() == self.spec_name(),
            r.adds() == Seq::<JsonV>::empty(),
            r.dels() == Seq::<JsonV>::empty(),
            r.reps() == Seq::<JsonV>::empty(),
    {
        let r = SchemaAPI {
            client: self.endpoint_clone(),
            collection_name: self.name_clone(),
            fields_to_add: Vec::new(),
            fields_to_delete: Vec::new(),
            fields_to_replace: Vec::new(),
        };
        proof {
            assert(r.adds() =~= Seq::<JsonV>::empty());
            assert(r.dels() =~= Seq::<JsonV>::empty());
            assert(r.reps() =~= Seq::<JsonV>::empty());
        }
        r
    }
}

impl SchemaAPI {
    /// The endpoint the batch's request goes to.
    pub closed spec fn endpoint(self) -> Solr {
        self.client
    }

    /// The name of the collection the batch mutates.
    pub closed spec fn collection(self) -> Seq<char> {
        self.collection_name@
    }

    /// The fields queued to be added.
    pub closed spec fn adds(self) -> Seq<JsonV> {
        arr_views(self.fields_to_add@)
    }

    /// The fields queued to be deleted.
    pub closed spec fn dels(self) -> Seq<JsonV> {
        arr_views(self.fields_to_delete@)
    }

    /// The fields queued to be replaced.
    pub closed spec fn reps(self) -> Seq<JsonV> {
        arr_views(self.fields_to_replace@)
    }

    /// The path schema requests of this collection go to.
    pub fn schema_path(&self) -> (r: String)
        ensures
            r@ == self.collection() + "/schema"@,
    {
        let mut path = String::new();
        path.append(self.collection_name.as_str());
        path.append("/schema");
        proof {
            assert(path@ =~= self.collection() + "/schema"@);
        }
        path
    }

    /// Queues a field to be added.
    pub fn add_field(&mut self, field: JsonValue)
        ensures
            final(self).endpoint() == old(self).endpoint(),
            final(self).collection() == old(self).collection(),
            final(self).adds() == old(self).adds().push(field@),
            final(self).dels() == old(self).dels(),
            final(self).reps() == old(self).reps(),
    {
        proof {
            lemma_arr_views_push(self.fields_to_add@, field);
        }
        self.fields_to_add.push(field);
    }

    /// Queues a field to be deleted, identified by its name.
    pub fn delete_field(&mut self, name: &str)
        ensures
            final(self).endpoint() == old(self).endpoint(),
            final(self).collection() == old(self).collection(),
            final(self).adds() == old(self).adds(),
            final(self).dels() == old(self).dels().push(
                JsonV::Obj(seq![("name"@, JsonV::Str(name@))]),
            ),
            final(self).reps() == old(self).reps(),
    {
        let mut pairs: Vec<(String, JsonValue)> = Vec::new();
        pairs.push((String::from_str("name"), JsonValue::Str(String::from_str(name))));
        let d = JsonValue::Obj(pairs);
        proof {
            lemma_obj_views(d->Obj_0@);
            assert(d@ == JsonV::Obj(obj_views(d->Obj_0@)));
            assert(obj_views(d->Obj_0@) =~= seq![("name"@, JsonV::Str(name@))]);
            lemma_arr_views_push(self.fields_to_delete@, d);
        }
        self.fields_to_delete.push(d);
    }

    /// Queues a replacement definition for an existing field.
    pub fn replace_field(&mut self, field: JsonValue)
        ensures
            final(self).endpoint() == old(self).endpoint(),
            final(self).collection() == old(self).collection(),
            final(self).adds() == old(self).adds(),
            final(self).dels() == old(self).dels(),
            final(self).reps() == old(self).reps().push(field@),
    {
        proof {
            lemma_arr_views_push(self.fields_to_replace@, field);
        }
        self.fields_to_replace.push(field);
    }

    /// Decides what this commit does and clears the three queues. With all
    /// queues empty the commit is a successful no-op and nothing is sent;
    /// otherwise one POST of the batch body goes to `{collection}/schema`.
    /// The queues are cleared whatever the decision: one consistent
    /// clear-on-commit policy.
    pub fn commit(&mut self) -> (r: FlushPlan)
        ensures
            final(self).endpoint() == old(self).endpoint(),
            final(self).collection() == old(self).collection(),
            final(self).adds() == Seq::<JsonV>::empty(),
            final(self).dels() == Seq::<JsonV>::empty(),
            final(self).reps() == Seq::<JsonV>::empty(),
            if old(self).adds().len() == 0 && old(self).dels().len() == 0 && old(
                self,
            ).reps().len() == 0 {
                r == FlushPlan::Nothing
            } else {
                match r {
                    FlushPlan::Post { path, body } => path@ == old(self).collection() + "/schema"@
                        && body@ == schema_body(
                        old(self).adds(),
                        old(self).dels(),
                        old(self).reps(),
                    ),
                    _ => false,
                }
            },
    {
        proof {
            crate::json::lemma_arr_views(self.fields_to_add@);
            crate::json::lemma_arr_views(self.fields_to_delete@);
            crate::json::lemma_arr_views(self.fields_to_replace@);
        }
        if self.fields_to_add.len() == 0 && self.fields_to_delete.len() == 0
            && self.fields_to_replace.len() == 0 {
            proof {
                assert(self.adds() =~= Seq::<JsonV>::empty());
                assert(self.dels() =~= Seq::<JsonV>::empty());
                assert(self.reps() =~= Seq::<JsonV>::empty());
            }
            return FlushPlan::Nothing;
        }
        let path = self.schema_path();
        let mut adds: Vec<JsonValue> = Vec::new();
        let mut dels: Vec<JsonValue> = Vec::new();
        let mut reps: Vec<JsonValue> = Vec::new();
        core::mem::swap(&mut adds, &mut self.fields_to_add);
        core::mem::swap(&mut dels, &mut self.fields_to_delete);
        core::mem::swap(&mut reps, &mut self.fields_to_replace);
        let ghost part_add: Seq<(Seq<char>, JsonV)> = if old(self).adds().len() > 0 {
            seq![("add-field"@, JsonV::Arr(old(self).adds()))]
        } else {
            Seq::empty()
        };
        let ghost part_del: Seq<(Seq<char>, JsonV)> = if old(self).dels().len() > 0 {
            seq![("delete-field"@, JsonV::Arr(old(self).dels()))]
        } else {
            Seq::empty()
        };
        let ghost part_rep: Seq<(Seq<char>, JsonV)> = if old(self).reps().len() > 0 {
            seq![("replace-field"@, JsonV::Arr(old(self).reps()))]
        } else {
            Seq::empty()
        };
        let mut pairs: Vec<(String, JsonValue)> = Vec::new();
        if adds.len() > 0 {
            pairs.push((String::from_str("add-field"), JsonValue::Arr(adds)));
        }
        proof {
            lemma_obj_views(pairs@);
            assert(obj_views(pairs@) =~= part_add);
        }
        if dels.len() > 0 {
            pairs.push((String::from_str("delete-field"), JsonValue::Arr(dels)));
        }
        proof {
            lemma_obj_views(pairs@);
            assert(obj_views(pairs@) =~= part_add + part_del);
        }
        if reps.len() > 0 {
            pairs.push((String::from_str("replace-field"), JsonValue::Arr(reps)));
        }
        proof {
            lemma_obj_views(pairs@);
            assert(obj_views(pairs@) =~= part_add + part_del + part_rep);
            assert(self.adds() =~= Seq::<JsonV>::empty());
            assert(self.dels() =~= Seq::<JsonV>::empty());
            assert(self.reps() =~= Seq::<JsonV>::empty());
        }
        FlushPlan::Post { path, body: JsonValue::Obj(pairs) }
    }
}

} // verus!
