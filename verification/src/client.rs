//! The client handle: the endpoint every request URL is derived from, the
//! percent-encoder entry point, and the envelope check every response goes
//! through.

use vstd::prelude::*;
use crate::encode::{decimal_of, decimal_string, percent_encode, percent_encoded};
use crate::json::{json_get, JsonV, JsonValue};
use crate::SolrError;

verus! {

/// A client for one search-engine endpoint. The endpoint is immutable after
/// construction; every request URL is derived from it.
#[derive(Debug)]
pub struct Solr {
    /// The protocol the API is reached over (e.g. `http`, `https`).
    pub protocol: String,
    /// The host name the API is reached on (e.g. `localhost`).
    pub host: String,
    /// The port the API is reached on (e.g. `8983`).
    pub port: u16,
}

/// The URL for a request path: `{protocol}://{host}:{port}/solr/{path}`.
pub open spec fn url_of(s: Solr, path: Seq<char>) -> Seq<char> {
    s.protocol@ + "://"@ + s.host@ + ":"@ + decimal_of(s.port as nat) + "/solr/"@ + path
}

/// What a response means: a failing status or an `"error"` key is a server
/// failure, an unparsable body a decode failure; any other body is the
/// result.
pub open spec fn envelope_result(status_ok: bool, body: Option<JsonV>) -> Result<
    JsonV,
    SolrError,
> {
    if !status_ok {
        Result::Err(SolrError::Server)
    } else {
        match body {
            Option::None => Result::Err(SolrError::Decode),
            Option::Some(v) => if json_get(v, "error"@) is Some {
                Result::Err(SolrError::Server)
            } else {
                Result::Ok(v)
            },
        }
    }
}

impl Clone for Solr {
    /// A copy bound to the same endpoint.
    fn clone(&self) -> (r: Solr)
        ensures
            r == *self,
    {
        Solr { protocol: self.protocol.clone(), host: self.host.clone(), port: self.port }
    }
}

impl Solr {
    /// A new client for the given endpoint.
    pub fn client(protocol: String, host: String, port: u16) -> (r: Solr)
        ensures
            r.protocol == protocol,
            r.host == host,
            r.port == port,
    {
        Solr { protocol, host, port }
    }

    /// Percent-encodes unsafe characters of a URL parameter value: ASCII
    /// letters and digits pass through, every other character becomes the
    /// `%HH` groups of its UTF-8 bytes.
    pub fn url_encode(&self, string: &str) -> (r: String)
        ensures
            r@ == percent_encoded(string@),
    {
        percent_encode(string)
    }

    /// The URL for a request path: `{protocol}://{host}:{port}/solr/{path}`.
    pub fn format_url(&self, path: &str) -> (r: String)
        ensures
            r@ == url_of(*self, path@),
    {
        let mut out = String::new();
        out.append(self.protocol.as_str());
        out.append("://");
        out.append(self.host.as_str());
        out.append(":");
        let port_text = decimal_string(self.port as u64);
        out.append(port_text.as_str());
        out.append("/solr/");
        out.append(path);
        proof {
            assert(out@ =~= url_of(*self, path@));
        }
        out
    }

    /// Decides what a fetched response means, given whether the HTTP status
    /// was a success and the parsed body, if the body parsed at all. This is
    /// the single normalization point every operation's response goes
    /// through.
    pub fn parse_fetch_result(&self, status_ok: bool, body: Option<JsonValue>) -> (r: Result<
        JsonValue,
        SolrError,
    >)
        ensures
            match r {
                Result::Ok(v) => envelope_result(
                    status_ok,
                    match body {
                        Option::Some(b) => Option::Some(b@),
                        Option::None => Option::None,
                    },
                ) == Result::<JsonV, SolrError>::Ok(v@),
                Result::Err(e) => envelope_result(
                    status_ok,
                    match body {
                        Option::Some(b) => Option::Some(b@),
                        Option::None => Option::None,
                    },
                ) == Result::<JsonV, SolrError>::Err(e),
            },
    {
        if !status_ok {
            return Err(SolrError::Server);
        }
        match body {
            Option::None => Err(SolrError::Decode),
            Option::Some(v) => {
                let has_error = v.get("error").is_some();
                if has_error {
                    Err(SolrError::Server)
                } else {
                    Ok(v)
                }
            },
        }
    }
}

} // verus!
