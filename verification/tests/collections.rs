//! The collections API and the collection builder.

use solrdrv::collection::FlushPlan;
use solrdrv::json::JsonValue;
use solrdrv::CollectionsAPI;
use solrdrv::Solr;
use solrdrv::SolrError;

fn s(text: &str) -> String {
    text.to_string()
}

fn client() -> Solr {
    Solr::client(s("http"), s("localhost"), 8983)
}

#[test]
fn build_path_keeps_insertion_order() {
    let solr = client();
    let mut b = solr.collections().create(s("users"));
    b.router_field(s("id"));
    b.num_shards(16);
    b.max_shards_per_node(16);
    assert_eq!(
        b.build_path(),
        "admin/collections?action=CREATE&name=users&routerField=id&numShards=16&maxShardsPerNode=16"
    );
}

#[test]
fn parameter_values_are_percent_encoded() {
    let solr = client();
    let mut b = solr.collections().create(s("my users"));
    b.shards(s("a,b"));
    assert_eq!(
        b.build_path(),
        "admin/collections?action=CREATE&name=my%20users&shards=a%2Cb"
    );
}

#[test]
fn commit_path_needs_the_name_parameter() {
    let solr = client();
    let b = solr.collections().create(s("users"));
    assert_eq!(
        b.commit_path(),
        Ok(s("admin/collections?action=CREATE&name=users"))
    );
}

#[test]
fn commit_finish_wants_a_success_key() {
    let solr = client();
    let b = solr.collections().create(s("users"));
    let acked = JsonValue::Obj(vec![(s("success"), JsonValue::Obj(vec![]))]);
    let col = b.commit_finish(&acked).unwrap();
    assert_eq!(col.name, "users");
    assert_eq!(col.get_commit_size(), 0);
    let unacked = JsonValue::Obj(vec![(s("status"), JsonValue::Int(0))]);
    assert_eq!(b.commit_finish(&unacked).unwrap_err(), SolrError::Server);
}

#[test]
fn the_new_collection_starts_with_an_empty_batch() {
    let solr = client();
    let b = solr.collections().create(s("users"));
    let acked = JsonValue::Obj(vec![(s("success"), JsonValue::Obj(vec![]))]);
    let mut col = b.commit_finish(&acked).unwrap();
    assert_eq!(col.commit(), FlushPlan::Nothing);
}

#[test]
fn list_paths_are_fixed() {
    let solr = client();
    assert_eq!(CollectionsAPI::list_path(), "admin/collections?action=LIST");
    assert_eq!(
        solr.collections().delete_path("users"),
        "admin/collections?action=DELETE&name=users"
    );
}

#[test]
fn delete_path_encodes_the_name() {
    let solr = client();
    assert_eq!(
        solr.collections().delete_path("my users"),
        "admin/collections?action=DELETE&name=my%20users"
    );
}

#[test]
fn config_name_is_stored_encoded() {
    let solr = client();
    let mut b = solr.collections().create(s("users"));
    b.collection_config_name(s("base config"));
    assert_eq!(
        b.build_path(),
        "admin/collections?action=CREATE&name=users&collection.configName=base%20config"
    );
}

#[test]
fn parse_collection_list_reads_the_names() {
    let solr = client();
    let api = solr.collections();
    let res = JsonValue::Obj(vec![(
        s("collections"),
        JsonValue::Arr(vec![JsonValue::Str(s("users")), JsonValue::Str(s("posts"))]),
    )]);
    let cols = api.parse_collection_list(&res).unwrap();
    let names: Vec<String> = cols.iter().map(|c| c.name.clone()).collect();
    assert_eq!(names, vec![s("users"), s("posts")]);
}

#[test]
fn parse_collection_list_rejects_non_string_entries() {
    let solr = client();
    let api = solr.collections();
    let res = JsonValue::Obj(vec![(
        s("collections"),
        JsonValue::Arr(vec![JsonValue::Str(s("users")), JsonValue::Int(3)]),
    )]);
    assert_eq!(
        api.parse_collection_list(&res).unwrap_err(),
        SolrError::MalformedResponse
    );
    let missing = JsonValue::Obj(vec![]);
    assert_eq!(
        api.parse_collection_list(&missing).unwrap_err(),
        SolrError::MalformedResponse
    );
}

#[test]
fn find_collection_tells_found_from_not_found() {
    let solr = client();
    let api = solr.collections();
    let res = JsonValue::Obj(vec![(
        s("collections"),
        JsonValue::Arr(vec![JsonValue::Str(s("users"))]),
    )]);
    let col = api.find_collection(&res, s("users")).unwrap();
    assert_eq!(col.name, "users");
    assert_eq!(
        api.find_collection(&res, s("posts")).unwrap_err(),
        SolrError::NotFound
    );
}
