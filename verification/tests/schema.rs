//! The schema batch: the empty no-op and the shape of a flush body.

use solrdrv::collection::{Collection, FlushPlan};
use solrdrv::json::JsonValue;
use solrdrv::FieldBuilder;
use solrdrv::Solr;

fn s(text: &str) -> String {
    text.to_string()
}

fn users() -> Collection {
    let solr = Solr::client(s("http"), s("localhost"), 8983);
    Collection::new(&solr, s("users"))
}

#[test]
fn empty_schema_commit_is_a_no_op() {
    let users = users();
    let mut schema = users.schema();
    assert_eq!(schema.commit(), FlushPlan::Nothing);
    // And it stays one when repeated.
    assert_eq!(schema.commit(), FlushPlan::Nothing);
}

#[test]
fn a_flush_carries_only_the_non_empty_queues() {
    let users = users();
    let mut schema = users.schema();
    schema.add_field(FieldBuilder::numeric(s("age")));
    schema.delete_field("name");
    let plan = schema.commit();
    assert_eq!(
        plan,
        FlushPlan::Post {
            path: s("users/schema"),
            body: JsonValue::Obj(vec![
                (s("add-field"), JsonValue::Arr(vec![FieldBuilder::numeric(s("age"))])),
                (
                    s("delete-field"),
                    JsonValue::Arr(vec![JsonValue::Obj(vec![(
                        s("name"),
                        JsonValue::Str(s("name")),
                    )])])
                ),
            ]),
        }
    );
    // The flush cleared the queues.
    assert_eq!(schema.commit(), FlushPlan::Nothing);
}

#[test]
fn replace_goes_under_its_own_key() {
    let users = users();
    let mut schema = users.schema();
    schema.replace_field(FieldBuilder::string(s("name")));
    let plan = schema.commit();
    assert_eq!(
        plan,
        FlushPlan::Post {
            path: s("users/schema"),
            body: JsonValue::Obj(vec![(
                s("replace-field"),
                JsonValue::Arr(vec![FieldBuilder::string(s("name"))]),
            )]),
        }
    );
}
