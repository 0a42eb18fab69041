//! Fixed endpoints the shell talks to.

use vstd::prelude::*;

verus! {

/// The base URL of the backend API, as a sequence of characters.
pub open spec fn api_base_spec() -> Seq<char> {
    "https://movienight-backend.purplebay-46d91d82.westus2.azurecontainerapps.io/api"@
}

/// Where the application logo is served from, as a sequence of
/// characters.
pub open spec fn logo_src_spec() -> Seq<char> {
    "https://github.com/Picbridge/MovieNight/blob/main/logo.png?raw=true"@
}

/// Base URL of the backend API; every request path is appended to it.
pub fn api_base() -> (r: &'static str)
    ensures
        r@ == api_base_spec(),
        r@.len() > 0,
{
    proof {
        reveal_strlit(
            "https://movienight-backend.purplebay-46d91d82.westus2.azurecontainerapps.io/api",
        );
    }
    "https://movienight-backend.purplebay-46d91d82.westus2.azurecontainerapps.io/api"
}

/// Where the application logo is served from.
pub fn logo_src() -> (r: &'static str)
    ensures
        r@ == logo_src_spec(),
        r@.len() > 0,
{
    proof {
        reveal_strlit("https://github.com/Picbridge/MovieNight/blob/main/logo.png?raw=true");
    }
    "https://github.com/Picbridge/MovieNight/blob/main/logo.png?raw=true"
}

} // verus!
