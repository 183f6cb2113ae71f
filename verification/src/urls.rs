//! Checks on addresses and Explore requests a caller hands in.
use crate::error::AgentToolsError;
use crate::outside::{canonical_url_of, parse_url, parses_as_url};
use vstd::prelude::*;

verus! {

/// The canonical spelling of a URL: the text `url` serializes it as, or
/// `BadUrl` with the parser's message when it does not parse.
/// Canonicalizing is idempotent: a canonical spelling parses, and is its own
/// canonical spelling, so canonicalizing it again gives it back.
pub fn canonicalize_url(raw: &str) -> (r: Result<String, AgentToolsError>)
    ensures
        r is Ok <==> parses_as_url(raw@),
        r matches Ok(s) ==> s@ == canonical_url_of(raw@),
        r matches Ok(s) ==> parses_as_url(s@) && canonical_url_of(s@) == s@,
        r matches Err(e) ==> e is BadUrl,
{
    match parse_url(raw) {
        Ok(s) => Ok(s),
        Err(message) => Err(AgentToolsError::BadUrl(message)),
    }
}

/// The bounds of an Explore request: between 1 and 50 results, and at most
/// 10 samples per Pod.
pub fn validate_explore_request(limit: usize, sample_size: usize) -> (r: Result<(), AgentToolsError>)
    ensures
        r is Ok <==> (1 <= limit <= 50 && sample_size <= 10),
        r matches Err(e) ==> e is ExploreRequest,
{
    if !(1 <= limit && limit <= 50) || sample_size > 10 {
        return Err(AgentToolsError::ExploreRequest);
    }
    Ok(())
}

} // verus!
