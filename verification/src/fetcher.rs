//! The compute side of the fetcher: the exact request line and header values
//! of the one search request issued per query per cycle. The request itself
//! is performed by the surrounding process.

use vstd::prelude::*;
use vstd::string::StringExecFns;

verus! {

/// The search request URL for one query: free-text query, fixed result
/// limit, newest-first sort. The query string is inserted as it is.
pub fn search_url(query: &str) -> (r: String)
    ensures
        r@ == "https://api.ebay.com/buy/browse/v1/item_summary/search?q="@ + query@
            + "&limit=200&sort=newlyListed"@,
{
    let mut r = String::from_str("https://api.ebay.com/buy/browse/v1/item_summary/search?q=");
    r.append(query);
    r.append("&limit=200&sort=newlyListed");
    r
}

/// The Authorization header of a search request.
pub fn bearer_header(access_token: &str) -> (r: String)
    ensures
        r@ == "Bearer "@ + access_token@,
{
    let mut r = String::from_str("Bearer ");
    r.append(access_token);
    r
}

} // verus!
