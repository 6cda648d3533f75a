//! The document batch: queueing, the sticky error, and what a commit sends.

use solrdrv::collection::{Collection, FlushPlan};
use solrdrv::json::JsonValue;
use solrdrv::Solr;
use solrdrv::SolrError;

fn s(text: &str) -> String {
    text.to_string()
}

fn users() -> Collection {
    let solr = Solr::client(s("http"), s("localhost"), 8983);
    Collection::new(&solr, s("users"))
}

fn obj(key: &str, n: i64) -> JsonValue {
    JsonValue::Obj(vec![(s(key), JsonValue::Int(n))])
}

#[test]
fn three_documents_go_out_in_one_post() {
    let mut users = users();
    users.add(obj("a", 1));
    users.add(JsonValue::Arr(vec![obj("b", 2), obj("c", 3)]));
    assert_eq!(users.get_commit_size(), 3);
    let plan = users.commit();
    assert_eq!(
        plan,
        FlushPlan::Post {
            path: s("users/update?commit=true"),
            body: JsonValue::Arr(vec![obj("a", 1), obj("b", 2), obj("c", 3)]),
        }
    );
    assert_eq!(users.get_commit_size(), 0);
}

#[test]
fn a_non_object_element_sets_the_sticky_error() {
    let mut users = users();
    users.add(JsonValue::Arr(vec![obj("a", 1), JsonValue::Str(s("not-an-object"))]));
    // The valid element queued before the bad one stays queued.
    assert_eq!(users.get_commit_size(), 1);
    // The commit reports the error and makes no request.
    assert_eq!(users.commit(), FlushPlan::Fail(SolrError::Validation));
    // The error is consumed: a second commit is an empty no-op.
    assert_eq!(users.get_commit_size(), 0);
    assert_eq!(users.commit(), FlushPlan::Nothing);
}

#[test]
fn elements_after_the_first_bad_one_are_not_queued() {
    let mut users = users();
    users.add(JsonValue::Arr(vec![
        obj("a", 1),
        JsonValue::Int(7),
        obj("b", 2),
    ]));
    assert_eq!(users.get_commit_size(), 1);
}

#[test]
fn any_other_shape_is_silently_ignored() {
    let mut users = users();
    users.add(JsonValue::Int(5));
    users.add(JsonValue::Str(s("text")));
    users.add(JsonValue::Null);
    assert_eq!(users.get_commit_size(), 0);
    assert_eq!(users.commit(), FlushPlan::Nothing);
}

#[test]
fn empty_commit_is_a_no_op() {
    let mut users = users();
    assert_eq!(users.commit(), FlushPlan::Nothing);
}
