//! The structured query compiler, the query builder, and the response
//! envelope handling.

use solrdrv::collection::Collection;
use solrdrv::json::JsonValue;
use solrdrv::query::{compile_node, Query};
use solrdrv::Solr;
use solrdrv::SolrError;

fn s(text: &str) -> String {
    text.to_string()
}

fn users() -> Collection {
    let solr = Solr::client(s("http"), s("localhost"), 8983);
    Collection::new(&solr, s("users"))
}

fn field_match(field: &str, value: JsonValue) -> JsonValue {
    JsonValue::Obj(vec![
        (s("field"), JsonValue::Str(s(field))),
        (s("value"), value),
    ])
}

#[test]
fn and_node_compiles_to_joined_matches() {
    let node = JsonValue::Obj(vec![(
        s("and"),
        JsonValue::Arr(vec![
            field_match("name", JsonValue::Str(s("Some"))),
            field_match("age", JsonValue::Int(19)),
        ]),
    )]);
    assert_eq!(compile_node(&node), Ok(s("(name:Some AND age:19)")));
}

#[test]
fn or_node_wraps_its_children() {
    let node = JsonValue::Obj(vec![(
        s("or"),
        JsonValue::Arr(vec![
            JsonValue::Obj(vec![(
                s("and"),
                JsonValue::Arr(vec![
                    field_match("name", JsonValue::Str(s("Some"))),
                    field_match("age", JsonValue::Int(19)),
                ]),
            )]),
            field_match("age", JsonValue::Int(21)),
        ]),
    )]);
    assert_eq!(compile_node(&node), Ok(s("((name:Some AND age:19) OR age:21)")));
}

#[test]
fn neg_node_prefixes_its_child() {
    let node = JsonValue::Obj(vec![(s("neg"), field_match("x", JsonValue::Int(1)))]);
    assert_eq!(compile_node(&node), Ok(s("!x:1")));
}

#[test]
fn a_node_without_field_or_operator_is_invalid_syntax() {
    let node = JsonValue::Obj(vec![(s("foo"), JsonValue::Null)]);
    assert_eq!(compile_node(&node), Err(SolrError::InvalidSyntax));
    assert_eq!(compile_node(&JsonValue::Int(3)), Err(SolrError::InvalidSyntax));
}

#[test]
fn a_field_without_value_is_a_missing_value() {
    let node = JsonValue::Obj(vec![(s("field"), JsonValue::Str(s("x")))]);
    assert_eq!(compile_node(&node), Err(SolrError::MissingValue));
}

#[test]
fn commit_without_query_fails_before_any_request() {
    let users = users();
    let mut q = users.search();
    q.sort(s("name asc"));
    assert_eq!(q.commit_path(), Err(SolrError::MissingQuery));
}

#[test]
fn commit_path_joins_the_parameters() {
    let users = users();
    let mut q = users.search();
    q.query("name:Some");
    q.sort(s("name asc"));
    assert_eq!(
        q.commit_path(),
        Ok(s("users/select?q=name%3ASome&sort=name%20asc"))
    );
}

#[test]
fn query_json_sets_the_encoded_compiled_query() {
    let users = users();
    let mut q = users.search();
    let node = JsonValue::Obj(vec![(
        s("and"),
        JsonValue::Arr(vec![
            field_match("name", JsonValue::Str(s("Some"))),
            field_match("age", JsonValue::Int(19)),
        ]),
    )]);
    assert_eq!(q.query_json(&node), Ok(()));
    assert_eq!(
        q.commit_path(),
        Ok(s("users/select?q=%28name%3ASome%20AND%20age%3A19%29"))
    );
}

#[test]
fn query_json_reports_the_compiler_error_and_sets_nothing() {
    let users = users();
    let mut q = users.search();
    let node = JsonValue::Obj(vec![(s("foo"), JsonValue::Null)]);
    assert_eq!(q.query_json(&node), Err(SolrError::InvalidSyntax));
    assert_eq!(q.commit_path(), Err(SolrError::MissingQuery));
}

#[test]
fn extract_docs_returns_the_document_array() {
    let res = JsonValue::Obj(vec![(
        s("response"),
        JsonValue::Obj(vec![(
            s("docs"),
            JsonValue::Arr(vec![JsonValue::Obj(vec![(s("id"), JsonValue::Int(1))])]),
        )]),
    )]);
    assert_eq!(
        Query::extract_docs(&res),
        Ok(vec![JsonValue::Obj(vec![(s("id"), JsonValue::Int(1))])])
    );
}

#[test]
fn extract_docs_rejects_a_response_without_the_path() {
    let res = JsonValue::Obj(vec![]);
    assert_eq!(Query::extract_docs(&res), Err(SolrError::MalformedResponse));
    let not_array = JsonValue::Obj(vec![(
        s("response"),
        JsonValue::Obj(vec![(s("docs"), JsonValue::Int(1))]),
    )]);
    assert_eq!(Query::extract_docs(&not_array), Err(SolrError::MalformedResponse));
}

#[test]
fn envelope_rejects_errors_whatever_the_status() {
    let solr = Solr::client(s("http"), s("localhost"), 8983);
    let with_error = JsonValue::Obj(vec![(s("error"), JsonValue::Str(s("boom")))]);
    assert_eq!(
        solr.parse_fetch_result(true, Some(with_error)),
        Err(SolrError::Server)
    );
    assert_eq!(solr.parse_fetch_result(false, None), Err(SolrError::Server));
    assert_eq!(solr.parse_fetch_result(true, None), Err(SolrError::Decode));
    let ok_body = JsonValue::Obj(vec![(s("ok"), JsonValue::Bool(true))]);
    let expected = ok_body.duplicate();
    assert_eq!(solr.parse_fetch_result(true, Some(ok_body)), Ok(expected));
}

#[test]
fn an_operator_with_no_children_compiles_to_empty_parens() {
    let node = JsonValue::Obj(vec![(s("and"), JsonValue::Arr(vec![]))]);
    assert_eq!(compile_node(&node), Ok(s("()")));
}

#[test]
fn scalar_values_render_as_their_literal_text() {
    assert_eq!(
        compile_node(&field_match("x", JsonValue::Int(-5))),
        Ok(s("x:-5"))
    );
    assert_eq!(
        compile_node(&field_match("x", JsonValue::Bool(true))),
        Ok(s("x:true"))
    );
    assert_eq!(
        compile_node(&field_match("x", JsonValue::Null)),
        Ok(s("x:null"))
    );
    assert_eq!(
        compile_node(&field_match("x", JsonValue::Num(s("1.5")))),
        Ok(s("x:1.5"))
    );
}

#[test]
fn a_container_is_not_a_field_match_value() {
    assert_eq!(
        compile_node(&field_match("x", JsonValue::Arr(vec![]))),
        Err(SolrError::InvalidSyntax)
    );
}

#[test]
fn a_failing_child_fails_the_whole_operator() {
    let node = JsonValue::Obj(vec![(
        s("or"),
        JsonValue::Arr(vec![
            field_match("a", JsonValue::Int(1)),
            JsonValue::Obj(vec![(s("field"), JsonValue::Str(s("b")))]),
        ]),
    )]);
    assert_eq!(compile_node(&node), Err(SolrError::MissingValue));
}
