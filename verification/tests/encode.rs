//! The percent-encoder against its reference values.

use solrdrv::Solr;

fn client() -> Solr {
    Solr::client("http".to_string(), "localhost".to_string(), 8983)
}

#[test]
fn plain_text_is_unchanged() {
    let solr = client();
    assert_eq!(solr.url_encode("abcXYZ0129"), "abcXYZ0129");
    assert_eq!(solr.url_encode(""), "");
}

#[test]
fn space_becomes_percent_20() {
    let solr = client();
    assert_eq!(solr.url_encode(" "), "%20");
}

#[test]
fn date_range_example() {
    // The hyphen's code point (45) falls in the encoder's first unsafe
    // range, so it is encoded like every other punctuation character.
    let solr = client();
    assert_eq!(
        solr.url_encode("date: [2020-05-26 TO *]"),
        "date%3A%20%5B2020%2D05%2D26%20TO%20%2A%5D"
    );
}

#[test]
fn multibyte_characters_encode_their_utf8_bytes() {
    let solr = client();
    assert_eq!(solr.url_encode("\u{e9}"), "%C3%A9");
    assert_eq!(solr.url_encode("\u{20ac}"), "%E2%82%AC");
    assert_eq!(solr.url_encode("\u{1f600}"), "%F0%9F%98%80");
}

#[test]
fn format_url_inserts_the_fixed_segment() {
    let solr = client();
    assert_eq!(
        solr.format_url("admin/collections?action=LIST"),
        "http://localhost:8983/solr/admin/collections?action=LIST"
    );
}
