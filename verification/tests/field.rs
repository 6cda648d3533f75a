//! The field-descriptor builder: validation and the prebuilt descriptors.

use solrdrv::json::JsonValue;
use solrdrv::FieldBuilder;
use solrdrv::SolrError;

fn s(text: &str) -> String {
    text.to_string()
}

#[test]
fn build_without_type_fails_with_validation_error() {
    let b = FieldBuilder::new(s("age"));
    assert_eq!(b.build(), Err(SolrError::Validation));
}

#[test]
fn build_with_type_returns_the_accumulated_descriptor() {
    let mut b = FieldBuilder::new(s("age"));
    b.typename(s("pfloat"));
    let built = b.build().unwrap();
    // The permissive policy defaults nothing: exactly the two properties.
    assert_eq!(
        built,
        JsonValue::Obj(vec![
            (s("name"), JsonValue::Str(s("age"))),
            (s("type"), JsonValue::Str(s("pfloat"))),
        ])
    );
}

#[test]
fn set_replaces_an_existing_property() {
    let mut b = FieldBuilder::new(s("age"));
    b.typename(s("pfloat"));
    b.typename(s("plong"));
    b.stored(true);
    assert_eq!(
        b.build().unwrap(),
        JsonValue::Obj(vec![
            (s("name"), JsonValue::Str(s("age"))),
            (s("type"), JsonValue::Str(s("plong"))),
            (s("stored"), JsonValue::Bool(true)),
        ])
    );
}

#[test]
fn prebuilt_string_field() {
    assert_eq!(
        FieldBuilder::string(s("name")),
        JsonValue::Obj(vec![
            (s("name"), JsonValue::Str(s("name"))),
            (s("type"), JsonValue::Str(s("string"))),
            (s("omitNorms"), JsonValue::Bool(true)),
            (s("stored"), JsonValue::Bool(true)),
        ])
    );
}

#[test]
fn prebuilt_numeric_field() {
    assert_eq!(
        FieldBuilder::numeric(s("age")),
        JsonValue::Obj(vec![
            (s("name"), JsonValue::Str(s("age"))),
            (s("type"), JsonValue::Str(s("pfloat"))),
            (s("stored"), JsonValue::Bool(true)),
        ])
    );
}

#[test]
fn prebuilt_multi_string_and_date_fields() {
    assert_eq!(
        FieldBuilder::multi_string(s("tags")),
        JsonValue::Obj(vec![
            (s("name"), JsonValue::Str(s("tags"))),
            (s("type"), JsonValue::Str(s("strings"))),
            (s("omitNorms"), JsonValue::Bool(true)),
            (s("multiValued"), JsonValue::Bool(true)),
            (s("stored"), JsonValue::Bool(true)),
        ])
    );
    assert_eq!(
        FieldBuilder::date(s("birthday")),
        JsonValue::Obj(vec![
            (s("name"), JsonValue::Str(s("birthday"))),
            (s("type"), JsonValue::Str(s("pdate"))),
            (s("stored"), JsonValue::Bool(true)),
        ])
    );
}
