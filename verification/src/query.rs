//! Query-string extraction for the redirect routes: the provider's
//! parameters arrive percent-encoded in the request target, and the handlers
//! read them as decoded key/value pairs.
use vstd::prelude::*;

use crate::errors::AuthError;
use crate::ext::{parse_query_pairs_raw, query_pairs_of};
use crate::strutil::pairs_view;

verus! {

/// Parses the query parameters out of a request target, percent-decoded.
/// Fails exactly where the target does not parse as a URL reference.
pub fn query_pairs(target: &str) -> (r: Result<Vec<(String, String)>, AuthError>)
    ensures
        r is Ok <==> query_pairs_of(target@) is Some,
        r matches Ok(v) ==> Some(pairs_view(v@)) == query_pairs_of(target@),
        r is Err ==> r == Result::<Vec<(String, String)>, AuthError>::Err(AuthError::QueryParse),
{
    match parse_query_pairs_raw(target) {
        Some(v) => Ok(v),
        None => Err(AuthError::QueryParse),
    }
}

} // verus!
