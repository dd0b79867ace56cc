//! The one trusted call to the HTTP client: a single blocking GET request
//! whose outcome depends on the network, so nothing is promised of which
//! variant comes back — only that a received status code lies in the range
//! the HTTP client can represent.

use vstd::prelude::*;

verus! {

/// Relies on reqwest::blocking::get for one GET request with the transport's
/// default redirect policy and timeout, on reqwest::blocking::Response::status
/// and on http::StatusCode::as_u16 for the numeric code: StatusCode's
/// constructors accept only values in 100..=999, so every received code lies
/// in that range. The outcome depends on the network, so no variant is
/// promised; a transport failure comes back as its description.
#[verifier::external_body]
pub(crate) fn fetch_status(url: &str) -> (r: Result<u16, String>)
    ensures
        r matches Ok(code) ==> 100 <= code <= 999,
{
    match reqwest::blocking::get(url) {
        Ok(response) => Ok(response.status().as_u16()),
        Err(e) => Err(e.to_string()),
    }
}

} // verus!
