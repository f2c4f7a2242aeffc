//! The request URL: one GET to the fixed endpoint, with the credential and
//! the location query as query parameters.
use vstd::prelude::*;
use vstd::string::StringExecFns;

verus! {

/// The fixed endpoint for current conditions.
pub open spec fn spec_base_url() -> Seq<char> {
    "https://api.weatherapi.com/v1/current.json"@
}

/// The fixed endpoint for current conditions.
pub fn base_url() -> (r: &'static str)
    ensures
        r@ == spec_base_url(),
{
    "https://api.weatherapi.com/v1/current.json"
}

/// The full request URL for a credential and a location query: the endpoint,
/// then `?key=`, the credential, `&q=`, and the query, verbatim.
pub open spec fn spec_request_url(key: Seq<char>, query: Seq<char>) -> Seq<char> {
    spec_base_url() + "?key="@ + key + "&q="@ + query
}

/// Build the request URL. The query string is passed through verbatim, so a
/// sentinel such as `auto:ip` reaches the endpoint as the literal parameter
/// value.
pub fn build_request_url(key: &str, query: &str) -> (r: String)
    ensures
        r@ == spec_request_url(key@, query@),
{
    let mut s = String::from_str(base_url());
    s.append("?key=");
    s.append(key);
    s.append("&q=");
    s.append(query);
    proof {
        assert(s@ =~= spec_request_url(key@, query@));
    }
    s
}

} // verus!
