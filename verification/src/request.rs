//! Request construction: the one URL this library ever asks for.
//!
//! The library supports a single request, fetch-by-name: an HTTP GET of
//! `{registry_base_url}/{package_name}` with no query parameters and no
//! body. Both client variants build their URL here.

use vstd::prelude::*;
use vstd::string::StringExecFns;

verus! {

/// The URL of the fetch-by-name request for the package called `name`:
/// the registry's base URL, a slash, and the name.
pub open spec fn spec_request_url(name: Seq<char>) -> Seq<char> {
    "https://crates.io/api/v1/crates"@ + "/"@ + name
}

/// Builds the URL of the fetch-by-name request for `crate_name`.
pub fn request_url(crate_name: &str) -> (r: String)
    ensures
        r@ == spec_request_url(crate_name@),
{
    let mut url = String::from_str("https://crates.io/api/v1/crates");
    url.append("/");
    url.append(crate_name);
    url
}

} // verus!
