//! The argument resolver: turns the optional values of the four
//! command-line flags into a complete invocation, or reports the first
//! required flag that is absent.

use vstd::prelude::*;
use crate::errors::{EsError, RequiredFlag};

verus! {

/// The parameters of one run: the endpoint URL, the index pattern, the raw
/// query text, and the optional output path. When `output` is `None` the
/// result is printed to standard output instead of a file.
pub struct Invocation {
    pub url: String,
    pub index: String,
    pub query: String,
    pub output: Option<String>,
}

/// The first required flag that is absent, if any, checked in the order
/// url, index, query.
pub open spec fn spec_first_missing(
    url: Option<String>,
    index: Option<String>,
    query: Option<String>,
) -> Option<RequiredFlag> {
    if url is None {
        Some(RequiredFlag::Url)
    } else if index is None {
        Some(RequiredFlag::Index)
    } else if query is None {
        Some(RequiredFlag::Query)
    } else {
        None
    }
}

/// Resolves the flag values into an invocation. Succeeds exactly when the
/// three required flags were all supplied, and then carries each value over
/// unchanged; otherwise reports the first missing flag, which exits with
/// status 1.
pub fn resolve_arguments(
    url: Option<String>,
    index: Option<String>,
    query: Option<String>,
    output: Option<String>,
) -> (r: Result<Invocation, EsError>)
    ensures
        r is Ok <==> (url is Some && index is Some && query is Some),
        r matches Ok(inv) ==> {
            &&& inv.url == url.unwrap()
            &&& inv.index == index.unwrap()
            &&& inv.query == query.unwrap()
            &&& inv.output == output
        },
        r matches Err(e) ==> {
            &&& e matches EsError::MissingArgument { flag }
            &&& Some(flag) == spec_first_missing(url, index, query)
            &&& e.spec_exit_code() == 1
        },
{
    let url = match url {
        Some(u) => u,
        None => {
            return Err(EsError::MissingArgument { flag: RequiredFlag::Url });
        },
    };
    let index = match index {
        Some(i) => i,
        None => {
            return Err(EsError::MissingArgument { flag: RequiredFlag::Index });
        },
    };
    let query = match query {
        Some(q) => q,
        None => {
            return Err(EsError::MissingArgument { flag: RequiredFlag::Query });
        },
    };
    Ok(Invocation { url, index, query, output })
}

} // verus!
