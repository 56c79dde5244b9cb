//! The query dispatcher's verified half: it parses the query text as JSON
//! and assembles the single search request that the caller then sends. The
//! network exchange itself happens outside the library; everything up to it
//! is decided here.

use vstd::prelude::*;
use crate::args::Invocation;
use crate::errors::EsError;

verus! {

/// The fixed result window: the request always asks for results starting at
/// this offset.
pub const SEARCH_FROM: i64 = 0;

/// The fixed result window: the request never asks for more than this many
/// hits, and no later page is fetched.
pub const SEARCH_SIZE: i64 = 10;

/// Declares `serde_json::Value`, the parsed query payload, which the
/// library carries through to the caller opaquely.
#[verifier::external_type_specification]
#[verifier::external_body]
pub struct ExJsonValue(serde_json::Value);

/// Declares `serde_json::Error`, the parse failure that `serde_json`
/// reports, mapped here to [`EsError::MalformedQuery`].
#[verifier::external_type_specification]
#[verifier::external_body]
pub struct ExJsonError(serde_json::Error);

/// Whether `serde_json` accepts this text as one well-formed JSON document.
pub uninterp spec fn parses_as_json(text: Seq<char>) -> bool;

/// Relies on `serde_json::from_str::<Value>`: it returns `Ok` exactly when
/// the text is one well-formed JSON document, and whether it parses depends
/// on the text alone.
#[verifier::external_body]
fn parse_json(text: &str) -> (r: Result<serde_json::Value, serde_json::Error>)
    ensures
        r is Ok <==> parses_as_json(text@),
{
    serde_json::from_str(text)
}

/// Relies on `serde_json::Error`'s `Display` implementation for a
/// human-readable description of the parse failure.
#[verifier::external_body]
fn json_error_detail(e: &serde_json::Error) -> String {
    e.to_string()
}

/// One search request, ready to send: the index pattern the search is
/// scoped to, the query text it was built from, the parsed payload, and the
/// fixed result window.
pub struct SearchRequest {
    pub index: String,
    pub query: String,
    pub body: serde_json::Value,
    pub from: i64,
    pub size: i64,
}

impl SearchRequest {
    /// The request carries the invocation's index pattern and query text
    /// unchanged, and the fixed result window.
    pub open spec fn built_from(&self, inv: &Invocation) -> bool {
        &&& self.index == inv.index
        &&& self.query == inv.query
        &&& self.from == SEARCH_FROM
        &&& self.size == SEARCH_SIZE
    }
}

/// Builds the one search request of a run. Succeeds exactly when the query
/// text is well-formed JSON; the request's index pattern and query text
/// equal the invocation's, and its result window is the fixed one.
/// Otherwise the query is malformed, and no request exists to send.
pub fn prepare_search(inv: &Invocation) -> (r: Result<SearchRequest, EsError>)
    ensures
        r is Ok <==> parses_as_json(inv.query@),
        r matches Ok(req) ==> req.built_from(inv),
        r matches Err(e) ==> e matches EsError::MalformedQuery { .. },
{
    match parse_json(inv.query.as_str()) {
        Ok(body) => Ok(
            SearchRequest {
                index: inv.index.clone(),
                query: inv.query.clone(),
                body,
                from: SEARCH_FROM,
                size: SEARCH_SIZE,
            },
        ),
        Err(e) => Err(EsError::MalformedQuery { detail: json_error_detail(&e) }),
    }
}

} // verus!
