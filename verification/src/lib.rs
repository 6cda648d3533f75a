//! A typed client library for a document-search-engine HTTP API: collection
//! management, schema mutation, document ingestion and query execution.
//!
//! The library is the request-construction and decision core. Builders
//! accumulate parameters and mutations, values are percent-encoded into a
//! safe wire form, batches decide what one flush sends, a structured boolean
//! query tree compiles into the engine's native query syntax, and response
//! envelopes are checked at one normalization point. Every function here is
//! verified against its contract; the HTTP transport and the JSON
//! parse/serialize capability sit outside, handing the library plain values
//! and carrying out the requests it decides on.

use vstd::prelude::*;

pub mod client;
pub mod collection;
pub mod collections;
pub mod encode;
pub mod field;
pub mod json;
pub mod params;
pub mod query;
pub mod schema;

pub use client::Solr;
pub use collection::Collection;
pub use collection::FlushPlan;
pub use collections::CollectionBuilder;
pub use collections::CollectionsAPI;
pub use field::FieldBuilder;
pub use query::Query;
pub use schema::SchemaAPI;

verus! {

/// The errors this library reports. Local validation failures are told apart
/// from transport, decoding and server-side failures so that callers can
/// react to each.
#[derive(Clone, Copy, Debug, PartialEq, Eq, Structural)]
pub enum SolrError {
    /// A required piece of a request was never supplied.
    Validation,
    /// The HTTP transport failed before a response arrived.
    Transport,
    /// The response body was not valid JSON.
    Decode,
    /// The response carried an `"error"` key, a failing status, or lacked an
    /// expected acknowledgement.
    Server,
    /// The response parsed but did not have the expected shape.
    MalformedResponse,
    /// A structured query node has a `field` but no `value`.
    MissingValue,
    /// A structured query node has neither a field match nor an operator.
    InvalidSyntax,
    /// A query was committed without any query string having been set.
    MissingQuery,
    /// A collection asked for by name does not exist.
    NotFound,
}

} // verus!
