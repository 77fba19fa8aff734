//! The exact URLs of the upstream catalog API. The binary performs the HTTP
//! calls; these builders pin down what is asked for.

use vstd::prelude::*;

use crate::numeral::dec_str;
use crate::numeral::u32_to_string;

verus! {

/// The URL of one show's metadata: `https://api.tvmaze.com/shows/<id>`.
pub fn show_url(id: u32) -> (u: String)
    ensures
        u@ == "https://api.tvmaze.com/shows/"@ + dec_str(id as nat),
{
    let mut u = "https://api.tvmaze.com/shows/".to_owned();
    let n = u32_to_string(id);
    u.append(n.as_str());
    u
}

/// The URL of one show's season list:
/// `https://api.tvmaze.com/shows/<id>/seasons`.
pub fn seasons_url(id: u32) -> (u: String)
    ensures
        u@ == "https://api.tvmaze.com/shows/"@ + dec_str(id as nat) + "/seasons"@,
{
    let mut u = show_url(id);
    u.append("/seasons");
    u
}

/// The URL of a show search, the query interpolated verbatim:
/// `https://api.tvmaze.com/search/shows?q=<query>`.
pub fn search_url(query: &str) -> (u: String)
    ensures
        u@ == "https://api.tvmaze.com/search/shows?q="@ + query@,
{
    let mut u = "https://api.tvmaze.com/search/shows?q=".to_owned();
    u.append(query);
    u
}

} // verus!
