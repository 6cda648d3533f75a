//! The library's smoke test.

use solrdrv::Solr;

#[test]
fn it_works() {
    assert_eq!(2 + 2, 4);
}

#[test]
fn client_holds_endpoint() {
    let solr = Solr::client("http".to_string(), "localhost".to_string(), 8983);
    assert_eq!(solr.protocol, "http");
    assert_eq!(solr.host, "localhost");
    assert_eq!(solr.port, 8983);
}
